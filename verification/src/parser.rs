//! Lowering: from the parsed source to the intermediate representation.
//!
//! What lowering makes of each kind of syntax is stated by the `lowered_*`
//! functions, over the descriptions of `crate::syntax` and the views of
//! `crate::ast`. The `convert_*` functions read the parsed tree and are
//! proved to build exactly that.

use crate::ast::{
    attributes_view, expressions_view, fields_view, generics_view, impl_items_view, items_view,
    optional_type_view, parameters_view, statements_view, types_view, variants_view, BinaryOp,
    CompilationMetadata, CompilationMetadataView, CompilationUnit, CompilationUnitView, Const,
    ConstView, Enum, EnumView, Expression, ExpressionView, Field, FieldView, Function, FunctionView,
    Impl, ImplItem, ImplItemView, ImplView, Item, ItemView, Literal, LiteralView, Module,
    ModuleView, Parameter, ParameterView, Statement, StatementView, Static, StaticView, Struct,
    StructView, Type, TypeAlias, TypeAliasView, TypeView, Use, UseView, Variant, VariantData,
    VariantDataView, VariantView, Visibility, VisibilityView,
};
use crate::error::{Error, ErrorView};
use crate::syntax::{
    arg_as_typed, arg_syntax, args_syntax, expr_as_assign, expr_as_binary, expr_as_block,
    expr_as_call, expr_as_field, expr_as_for, expr_as_if, expr_as_lit, expr_as_path, expr_as_return,
    expr_as_while, expr_is_index, expr_is_unary, expr_syntax, exprs_syntax, field_list_syntax,
    field_parts, field_syntax, fields_shape, fields_syntax, file_declarations, file_syntax,
    impl_item_as_fn, impl_item_syntax, impl_items_syntax, item_as_alias, item_as_const,
    item_as_enum, item_as_fn, item_as_impl, item_as_mod, item_as_static, item_as_struct,
    item_as_use, item_syntax, items_syntax, literal_as_bool, literal_as_char, literal_as_float,
    literal_as_int, literal_as_size, literal_as_str, literal_syntax, optional_boxed_expr_syntax,
    optional_expr_syntax, optional_path_syntax, optional_string_view, optional_type_syntax,
    parse_file, parse_outcome, path_parts, path_syntax, pattern_as_ident, pattern_as_typed,
    pattern_syntax, signature_parts, stmt_shape, stmt_syntax, stmts_syntax, type_shape, type_syntax,
    types_syntax, visibility_kind, visibility_syntax, ArgSyntax, ExprSyntax, FieldSyntax,
    FieldsShape, FieldsSyntax, FileSyntax, FunctionParts, FunctionSyntax, ImplItemSyntax,
    ItemSyntax, LiteralSyntax, PathSyntax, PatternSyntax, StmtShape, StmtSyntax, TypeShape,
    TypeSyntax, VisibilitySyntax,
};
use crate::text::{decimal_text, join_strings, join_text, push_decimal, same_text, texts_view};
use syn::Field as SynField;
use syn::ImplItem as SynImplItem;
use syn::Item as SynItem;
use syn::Type as SynType;
use syn::Visibility as SynVisibility;
use syn::{Expr, Fields, File, FnArg, Lit, Pat, Path, Stmt};
use vstd::prelude::*;

verus! {

/// Public stays public; every other visibility becomes private.
pub open spec fn lowered_visibility(vis: VisibilitySyntax) -> VisibilityView {
    match vis {
        VisibilitySyntax::Public => VisibilityView::Public,
        VisibilitySyntax::Restricted => VisibilityView::Private,
        VisibilitySyntax::Inherited => VisibilityView::Private,
    }
}

/// The segments of a path, joined by `::`.
pub open spec fn lowered_path(path: PathSyntax) -> Seq<char> {
    join_text(path.segments, "::"@)
}

/// The size of an array type: the value of its length where that is an
/// integer literal that fits, nothing otherwise.
pub open spec fn lowered_array_size(len: ExprSyntax) -> Option<usize> {
    match len {
        ExprSyntax::Lit(LiteralSyntax::Int { value, size }) => size,
        _ => None,
    }
}

/// Types are lowered structurally. The empty tuple and every form that is
/// not modelled become the unit type.
pub open spec fn lowered_type(ty: TypeSyntax) -> TypeView
    decreases ty,
{
    match ty {
        TypeSyntax::Path(path) => TypeView::Path(lowered_path(path)),
        TypeSyntax::Reference { mutable, elem } => TypeView::Reference {
            mutable,
            inner: Box::new(lowered_type(*elem)),
        },
        TypeSyntax::Pointer { mutable, elem } => TypeView::Pointer {
            mutable,
            inner: Box::new(lowered_type(*elem)),
        },
        TypeSyntax::Array { elem, len } => TypeView::Array {
            inner: Box::new(lowered_type(*elem)),
            size: lowered_array_size(*len),
        },
        TypeSyntax::Slice(elem) => TypeView::Slice(Box::new(lowered_type(*elem))),
        TypeSyntax::Tuple(elems) => if elems.len() == 0 {
            TypeView::Unit
        } else {
            TypeView::Tuple(lowered_types(elems))
        },
        TypeSyntax::Other => TypeView::Unit,
    }
}

/// The lowering of each type of a sequence, in order.
pub open spec fn lowered_types(types: Seq<TypeSyntax>) -> Seq<TypeView>
    decreases types,
{
    Seq::new(
        types.len(),
        |i: int|
            if 0 <= i < types.len() {
                lowered_type(types[i])
            } else {
                TypeView::Unit
            },
    )
}

/// A literal keeps its value. An integer that does not fit 64 signed bits
/// becomes zero; a kind of literal that is not modelled becomes a marked
/// string.
pub open spec fn lowered_literal(lit: LiteralSyntax) -> ExpressionView {
    match lit {
        LiteralSyntax::Str(text) => ExpressionView::Literal(LiteralView::String(text)),
        LiteralSyntax::Int { value, size } => ExpressionView::Literal(
            LiteralView::Integer(
                match value {
                    Some(v) => v,
                    None => 0,
                },
            ),
        ),
        LiteralSyntax::Float(digits) => ExpressionView::Literal(LiteralView::Float(digits)),
        LiteralSyntax::Bool(b) => ExpressionView::Literal(LiteralView::Boolean(b)),
        LiteralSyntax::Char(c) => ExpressionView::Literal(LiteralView::Char(c)),
        LiteralSyntax::Other => ExpressionView::Literal(
            LiteralView::String("unsupported_literal"@),
        ),
    }
}

/// The operator that a binary operator's text stands for. A compound
/// assignment, like any other text, falls back to addition.
pub open spec fn lowered_binary_operator(op: Seq<char>) -> BinaryOp {
    if op == "+"@ {
        BinaryOp::Add
    } else if op == "-"@ {
        BinaryOp::Sub
    } else if op == "*"@ {
        BinaryOp::Mul
    } else if op == "/"@ {
        BinaryOp::Div
    } else if op == "%"@ {
        BinaryOp::Mod
    } else if op == "&&"@ {
        BinaryOp::And
    } else if op == "||"@ {
        BinaryOp::Or
    } else if op == "^"@ {
        BinaryOp::BitXor
    } else if op == "&"@ {
        BinaryOp::BitAnd
    } else if op == "|"@ {
        BinaryOp::BitOr
    } else if op == "<<"@ {
        BinaryOp::Shl
    } else if op == ">>"@ {
        BinaryOp::Shr
    } else if op == "=="@ {
        BinaryOp::Eq
    } else if op == "<"@ {
        BinaryOp::Lt
    } else if op == "<="@ {
        BinaryOp::Le
    } else if op == "!="@ {
        BinaryOp::Ne
    } else if op == ">="@ {
        BinaryOp::Ge
    } else if op == ">"@ {
        BinaryOp::Gt
    } else {
        BinaryOp::Add
    }
}

/// A marked string that stands for an expression that is not modelled.
pub open spec fn placeholder(tag: Seq<char>) -> ExpressionView {
    ExpressionView::Literal(LiteralView::String(tag))
}

/// Access to a member of a lowered base. A named member of a bare
/// identifier becomes the dotted path of the two; any other field access
/// becomes a placeholder.
pub open spec fn lowered_field_access(
    base: ExpressionView,
    member: Option<Seq<char>>,
) -> ExpressionView {
    match base {
        ExpressionView::Identifier(id) => match member {
            Some(name) => ExpressionView::Path(id + "."@ + name),
            None => placeholder("field_access_placeholder"@),
        },
        _ => placeholder("field_access_placeholder"@),
    }
}

/// Literals, paths, binary operations, calls and assignments are lowered
/// structurally; access to a named field of a bare identifier becomes a
/// dotted path; the expression of a `return` stands for the `return`; every
/// other form becomes a placeholder.
pub open spec fn lowered_expr(expr: ExprSyntax) -> ExpressionView
    decreases expr,
{
    match expr {
        ExprSyntax::Lit(lit) => lowered_literal(lit),
        ExprSyntax::Path(path) => if path.single {
            ExpressionView::Identifier(lowered_path(path))
        } else {
            ExpressionView::Path(lowered_path(path))
        },
        ExprSyntax::Binary { left, op, right } => ExpressionView::Binary {
            left: Box::new(lowered_expr(*left)),
            op: lowered_binary_operator(op),
            right: Box::new(lowered_expr(*right)),
        },
        ExprSyntax::Call { func, args } => ExpressionView::Call {
            function: Box::new(lowered_expr(*func)),
            args: lowered_exprs(args),
        },
        ExprSyntax::Return(value) => match value {
            Some(v) => lowered_expr(*v),
            None => placeholder("()"@),
        },
        ExprSyntax::If { cond, then_branch, else_branch } => placeholder("if_expr_placeholder"@),
        ExprSyntax::Block(stmts) => placeholder("block_expr_placeholder"@),
        ExprSyntax::Assign { left, right } => ExpressionView::Binary {
            left: Box::new(lowered_expr(*left)),
            op: BinaryOp::Assign,
            right: Box::new(lowered_expr(*right)),
        },
        ExprSyntax::Field { base, member } => lowered_field_access(lowered_expr(*base), member),
        ExprSyntax::Index => placeholder("index_placeholder"@),
        ExprSyntax::Unary => placeholder("unary_placeholder"@),
        ExprSyntax::While { cond, body } => placeholder("unsupported_expr"@),
        ExprSyntax::ForLoop { pat, iter, body } => placeholder("unsupported_expr"@),
        ExprSyntax::Other => placeholder("unsupported_expr"@),
    }
}

/// Every form of expression that lowering has no rule for becomes the same
/// placeholder.
pub proof fn lemma_other_forms_are_placeholders(expr: ExprSyntax)
    requires
        expr is While || expr is ForLoop || expr is Other,
    ensures
        lowered_expr(expr) == placeholder("unsupported_expr"@),
{
}

/// Field access gives a path only for a named member of a bare identifier;
/// on any other base, and for a member without a name, it gives the
/// placeholder.
pub proof fn lemma_field_access_beyond_identifier(
    base: ExpressionView,
    member: Option<Seq<char>>,
)
    requires
        !(base is Identifier) || member is None,
    ensures
        lowered_field_access(base, member) == placeholder("field_access_placeholder"@),
{
}

/// The lowering of each expression of a sequence, in order.
pub open spec fn lowered_exprs(exprs: Seq<ExprSyntax>) -> Seq<ExpressionView>
    decreases exprs,
{
    Seq::new(
        exprs.len(),
        |i: int|
            if 0 <= i < exprs.len() {
                lowered_expr(exprs[i])
            } else {
                placeholder(Seq::empty())
            },
    )
}

/// The lowering of an optional expression.
pub open spec fn lowered_optional_expr(expr: Option<ExprSyntax>) -> Option<ExpressionView> {
    match expr {
        Some(e) => Some(lowered_expr(e)),
        None => None,
    }
}

/// Makes the marked string that stands for a form that is not modelled.
fn make_placeholder(tag: &str) -> (r: Expression)
    ensures
        r@ == placeholder(tag@),
{
    Expression::Literal(Literal::String(String::from_str(tag)))
}

/// Lowers a visibility.
fn convert_visibility(vis: &SynVisibility) -> (r: Visibility)
    ensures
        r@ == lowered_visibility(visibility_syntax(*vis)),
{
    match visibility_kind(vis) {
        VisibilitySyntax::Public => Visibility::Public,
        VisibilitySyntax::Restricted => Visibility::Private,
        VisibilitySyntax::Inherited => Visibility::Private,
    }
}

/// Joins the segments of a path and tells whether it is a bare identifier.
fn convert_path(path: &Path) -> (r: (String, bool))
    ensures
        r.0@ == lowered_path(path_syntax(*path)),
        r.1 == path_syntax(*path).single,
{
    let (segments, single) = path_parts(path);
    (join_strings(&segments, "::"), single)
}

/// Lowers a path to the type of that name.
fn convert_path_type(path: &Path) -> (r: Type)
    ensures
        r@ == TypeView::Path(lowered_path(path_syntax(*path))),
{
    let (text, _single) = convert_path(path);
    Type::Path(text)
}

/// Reads the size of an array type from its length expression.
fn convert_array_size(len: &Expr) -> (r: Option<usize>)
    ensures
        r == lowered_array_size(expr_syntax(*len)),
{
    match expr_as_lit(len) {
        Some(lit) => match literal_as_size(lit) {
            Some(size) => size,
            None => None,
        },
        None => None,
    }
}

/// Lowers a type, level by level.
fn convert_type(ty: &SynType) -> (r: Type)
    ensures
        r@ == lowered_type(type_syntax(*ty)),
    decreases type_syntax(*ty),
{
    match type_shape(ty) {
        TypeShape::Path(path) => convert_path_type(path),
        TypeShape::Reference { mutable, elem } => Type::Reference {
            mutable,
            inner: Box::new(convert_type(elem)),
        },
        TypeShape::Pointer { mutable, elem } => Type::Pointer {
            mutable,
            inner: Box::new(convert_type(elem)),
        },
        TypeShape::Array { elem, len } => {
            let inner = Box::new(convert_type(elem));
            let size = convert_array_size(len);
            Type::Array { inner, size }
        },
        TypeShape::Slice(elem) => Type::Slice(Box::new(convert_type(elem))),
        TypeShape::Tuple(elems) => {
            if elems.len() == 0 {
                Type::Unit
            } else {
                let out = convert_types(&elems);
                let r = Type::Tuple(out);
                assert(r@ =~~= lowered_type(type_syntax(*ty)));
                r
            }
        },
        TypeShape::Other => Type::Unit,
    }
}

/// Lowers each type of a list.
fn convert_types(types: &Vec<&SynType>) -> (r: Vec<Type>)
    ensures
        types_view(r@) == lowered_types(types_syntax(types@)),
    decreases types_syntax(types@),
{
    let ghost all = types_syntax(types@);
    let mut out: Vec<Type> = Vec::new();
    let mut i: usize = 0;
    while i < types.len()
        invariant
            i <= types.len(),
            out.len() == i,
            all == types_syntax(types@),
            forall|j: int| 0 <= j < i ==> (#[trigger] out[j])@ == lowered_type(all[j]),
        decreases types.len() - i,
    {
        assert(all[i as int] == type_syntax(*types[i as int]));
        let elem = convert_type(types[i]);
        out.push(elem);
        i += 1;
    }
    assert(types_view(out@) =~= lowered_types(all));
    out
}

/// Lowers a literal.
fn convert_literal_expression(lit: &Lit) -> (r: Expression)
    ensures
        r@ == lowered_literal(literal_syntax(*lit)),
{
    if let Some(text) = literal_as_str(lit) {
        return Expression::Literal(Literal::String(text));
    }
    if let Some(value) = literal_as_int(lit) {
        return match value {
            Some(v) => Expression::Literal(Literal::Integer(v)),
            None => Expression::Literal(Literal::Integer(0)),
        };
    }
    if let Some(digits) = literal_as_float(lit) {
        return Expression::Literal(Literal::Float(digits));
    }
    if let Some(b) = literal_as_bool(lit) {
        return Expression::Literal(Literal::Boolean(b));
    }
    if let Some(c) = literal_as_char(lit) {
        return Expression::Literal(Literal::Char(c));
    }
    Expression::Literal(Literal::String(String::from_str("unsupported_literal")))
}

/// The operator that a binary operator's text stands for.
pub fn convert_binary_operator(op: &str) -> (r: BinaryOp)
    ensures
        r == lowered_binary_operator(op@),
{
    if same_text(op, "+") {
        BinaryOp::Add
    } else if same_text(op, "-") {
        BinaryOp::Sub
    } else if same_text(op, "*") {
        BinaryOp::Mul
    } else if same_text(op, "/") {
        BinaryOp::Div
    } else if same_text(op, "%") {
        BinaryOp::Mod
    } else if same_text(op, "&&") {
        BinaryOp::And
    } else if same_text(op, "||") {
        BinaryOp::Or
    } else if same_text(op, "^") {
        BinaryOp::BitXor
    } else if same_text(op, "&") {
        BinaryOp::BitAnd
    } else if same_text(op, "|") {
        BinaryOp::BitOr
    } else if same_text(op, "<<") {
        BinaryOp::Shl
    } else if same_text(op, ">>") {
        BinaryOp::Shr
    } else if same_text(op, "==") {
        BinaryOp::Eq
    } else if same_text(op, "<") {
        BinaryOp::Lt
    } else if same_text(op, "<=") {
        BinaryOp::Le
    } else if same_text(op, "!=") {
        BinaryOp::Ne
    } else if same_text(op, ">=") {
        BinaryOp::Ge
    } else if same_text(op, ">") {
        BinaryOp::Gt
    } else {
        BinaryOp::Add
    }
}

/// Access to a member of a lowered base: the dotted path of the two where
/// the base is a bare identifier and the member has a name, a placeholder
/// otherwise.
pub fn convert_field_access(base: Expression, member: Option<String>) -> (r: Expression)
    ensures
        r@ == lowered_field_access(base@, optional_string_view(member)),
{
    match base {
        Expression::Identifier(id) => match member {
            Some(name) => {
                let mut text = id;
                text.append(".");
                text.append(name.as_str());
                Expression::Path(text)
            },
            None => make_placeholder("field_access_placeholder"),
        },
        _ => make_placeholder("field_access_placeholder"),
    }
}

/// Lowers an expression: tries each form that lowering knows in turn, and
/// falls back to a placeholder. Every expression is accepted.
pub fn convert_expression(expr: &Expr) -> (r: Expression)
    ensures
        r@ == lowered_expr(expr_syntax(*expr)),
    decreases expr_syntax(*expr),
{
    if let Some(lit) = expr_as_lit(expr) {
        return convert_literal_expression(lit);
    }
    if let Some(path) = expr_as_path(expr) {
        let (text, single) = convert_path(path);
        return if single {
            Expression::Identifier(text)
        } else {
            Expression::Path(text)
        };
    }
    if let Some((left, op, right)) = expr_as_binary(expr) {
        let left = Box::new(convert_expression(left));
        let right = Box::new(convert_expression(right));
        let op = convert_binary_operator(op.as_str());
        return Expression::Binary { left, op, right };
    }
    if let Some((func, args)) = expr_as_call(expr) {
        let function = Box::new(convert_expression(func));
        let out = convert_expressions(&args);
        let r = Expression::Call { function, args: out };
        assert(r@ =~~= lowered_expr(expr_syntax(*expr)));
        return r;
    }
    if let Some(value) = expr_as_return(expr) {
        return match value {
            Some(v) => convert_expression(v),
            None => make_placeholder("()"),
        };
    }
    if let Some(_parts) = expr_as_if(expr) {
        return make_placeholder("if_expr_placeholder");
    }
    if let Some(_stmts) = expr_as_block(expr) {
        return make_placeholder("block_expr_placeholder");
    }
    if let Some((left, right)) = expr_as_assign(expr) {
        let left = Box::new(convert_expression(left));
        let right = Box::new(convert_expression(right));
        return Expression::Binary { left, op: BinaryOp::Assign, right };
    }
    if let Some((base, member)) = expr_as_field(expr) {
        let base = convert_expression(base);
        return convert_field_access(base, member);
    }
    if expr_is_index(expr) {
        return make_placeholder("index_placeholder");
    }
    if expr_is_unary(expr) {
        return make_placeholder("unary_placeholder");
    }
    make_placeholder("unsupported_expr")
}

/// Lowers each expression of a list.
fn convert_expressions(exprs: &Vec<&Expr>) -> (r: Vec<Expression>)
    ensures
        expressions_view(r@) == lowered_exprs(exprs_syntax(exprs@)),
    decreases exprs_syntax(exprs@),
{
    let ghost all = exprs_syntax(exprs@);
    let mut out: Vec<Expression> = Vec::new();
    let mut i: usize = 0;
    while i < exprs.len()
        invariant
            i <= exprs.len(),
            out.len() == i,
            all == exprs_syntax(exprs@),
            forall|j: int| 0 <= j < i ==> (#[trigger] out[j])@ == lowered_expr(all[j]),
        decreases exprs.len() - i,
    {
        assert(all[i as int] == expr_syntax(*exprs[i as int]));
        let e = convert_expression(exprs[i]);
        out.push(e);
        i += 1;
    }
    assert(expressions_view(out@) =~= lowered_exprs(all));
    out
}

/// The values that are present in a sequence of optional values, in order.
pub open spec fn present<T>(items: Seq<Option<T>>) -> Seq<T>
    decreases items.len(),
{
    if items.len() == 0 {
        Seq::empty()
    } else {
        match items.last() {
            Some(item) => present(items.drop_last()).push(item),
            None => present(items.drop_last()),
        }
    }
}

/// Taking one more optional value adds it to those present, if it is there.
pub proof fn lemma_present_step<T>(items: Seq<Option<T>>, i: int)
    requires
        0 <= i < items.len(),
    ensures
        present(items.take(i + 1)) == (match items[i] {
            Some(item) => present(items.take(i)).push(item),
            None => present(items.take(i)),
        }),
{
    assert(items.take(i + 1).drop_last() =~= items.take(i));
    assert(items.take(i + 1).last() == items[i]);
}

/// The values present in two sequences, one after the other, are those of
/// the first followed by those of the second.
pub proof fn lemma_present_append<T>(first: Seq<Option<T>>, second: Seq<Option<T>>)
    ensures
        present(first + second) == present(first) + present(second),
    decreases second.len(),
{
    if second.len() == 0 {
        assert(first + second =~= first);
        assert(present(first) + present(second) =~= present(first));
    } else {
        assert((first + second).drop_last() =~= first + second.drop_last());
        assert((first + second).last() == second.last());
        lemma_present_append(first, second.drop_last());
        assert(present(first + second) =~= present(first) + present(second));
    }
}

/// A `let` that binds a plain identifier is kept, with the type it is
/// annotated with where there is one; a `let` with any other pattern is
/// dropped.
pub open spec fn lowered_local(pat: PatternSyntax, init: Option<ExprSyntax>) -> Option<
    StatementView,
> {
    match pat {
        PatternSyntax::Ident { name, mutable } => Some(
            StatementView::Let { name, mutable, type_: None, value: lowered_optional_expr(init) },
        ),
        PatternSyntax::Typed { pat: inner, ty } => match *inner {
            PatternSyntax::Ident { name, mutable } => Some(
                StatementView::Let {
                    name,
                    mutable,
                    type_: Some(lowered_type(*ty)),
                    value: lowered_optional_expr(init),
                },
            ),
            _ => None,
        },
        PatternSyntax::Other => None,
    }
}

/// The name that a `for` loop binds: the identifier, or `item` where the
/// pattern is not a plain identifier.
pub open spec fn lowered_loop_pattern(pat: PatternSyntax) -> Seq<char> {
    match pat {
        PatternSyntax::Ident { name, mutable } => name,
        _ => "item"@,
    }
}

/// What each statement of a block is lowered to, in order; a statement that
/// is dropped gives nothing.
pub open spec fn lowered_stmts(stmts: Seq<StmtSyntax>) -> Seq<Option<StatementView>>
    decreases stmts, 0nat,
{
    Seq::new(
        stmts.len(),
        |i: int|
            if 0 <= i < stmts.len() {
                lowered_stmt(stmts[i])
            } else {
                None
            },
    )
}

/// A block is lowered to the statements that its own statements are lowered
/// to, in order, without those that are dropped.
pub open spec fn lowered_block(stmts: Seq<StmtSyntax>) -> Seq<StatementView>
    decreases stmts, 1nat,
{
    present(lowered_stmts(stmts))
}

/// Declarations and macro calls inside a body are dropped, and so is a
/// `let` with a pattern; everything else is kept.
pub open spec fn lowered_stmt(stmt: StmtSyntax) -> Option<StatementView>
    decreases stmt, 0nat,
{
    match stmt {
        StmtSyntax::Local { pat, init } => lowered_local(pat, init),
        StmtSyntax::Item => None,
        StmtSyntax::Expr(e) => Some(lowered_expr_stmt(e)),
        StmtSyntax::Macro => None,
    }
}

/// An expression in statement position: `if`, `while`, `for` and `return`
/// become statements of their own, anything else an expression statement.
pub open spec fn lowered_expr_stmt(expr: ExprSyntax) -> StatementView
    decreases expr, 1nat,
{
    match expr {
        ExprSyntax::If { cond, then_branch, else_branch } => lowered_if(expr),
        ExprSyntax::While { cond, body } => StatementView::While {
            condition: lowered_expr(*cond),
            body: lowered_block(body),
        },
        ExprSyntax::ForLoop { pat, iter, body } => StatementView::For {
            pattern: lowered_loop_pattern(pat),
            iterator: lowered_expr(*iter),
            body: lowered_block(body),
        },
        ExprSyntax::Return(value) => StatementView::Return(
            match value {
                Some(v) => Some(lowered_expr(*v)),
                None => None,
            },
        ),
        _ => StatementView::Expression(lowered_expr(expr)),
    }
}

/// An `if`: the `else` branch is the lowered block after `else`, or, for
/// `else if`, the one statement that the nested `if` is lowered to; any
/// other expression after `else` gives no branch.
pub open spec fn lowered_if(expr: ExprSyntax) -> StatementView
    decreases expr, 0nat,
{
    match expr {
        ExprSyntax::If { cond, then_branch, else_branch } => StatementView::If {
            condition: lowered_expr(*cond),
            then_branch: lowered_block(then_branch),
            else_branch: match else_branch {
                Some(after) => match *after {
                    ExprSyntax::Block(stmts) => Some(lowered_block(stmts)),
                    ExprSyntax::If { cond, then_branch, else_branch } => Some(
                        seq![lowered_if(*after)],
                    ),
                    _ => None,
                },
                None => None,
            },
        },
        _ => StatementView::Expression(lowered_expr(expr)),
    }
}

/// The view of an optional statement.
pub open spec fn optional_statement_view(stmt: Option<Statement>) -> Option<StatementView> {
    match stmt {
        Some(s) => Some(s@),
        None => None,
    }
}

/// Lowers a `let` from its pattern and initializer.
fn convert_local_statement(pat: &Pat, init: Option<&Expr>) -> (r: Option<Statement>)
    ensures
        optional_statement_view(r) == lowered_local(
            pattern_syntax(*pat),
            optional_expr_syntax(init),
        ),
{
    let (binding, type_) = match pattern_as_ident(pat) {
        Some(binding) => (Some(binding), None),
        None => match pattern_as_typed(pat) {
            Some((inner, ty)) => match pattern_as_ident(inner) {
                Some(binding) => (Some(binding), Some(convert_type(ty))),
                None => (None, None),
            },
            None => (None, None),
        },
    };
    match binding {
        Some((name, mutable)) => {
            let value = match init {
                Some(e) => Some(convert_expression(e)),
                None => None,
            };
            Some(Statement::Let { name, mutable, type_, value })
        },
        None => None,
    }
}

/// Lowers one statement; `None` where the statement is dropped.
fn convert_statement(stmt: &Stmt) -> (r: Option<Statement>)
    ensures
        optional_statement_view(r) == lowered_stmt(stmt_syntax(*stmt)),
    decreases stmt_syntax(*stmt), 0nat,
{
    match stmt_shape(stmt) {
        StmtShape::Local { pat, init } => convert_local_statement(pat, init),
        StmtShape::Item => None,
        StmtShape::Expr(e) => Some(convert_expression_statement(e)),
        StmtShape::Macro => None,
    }
}

/// Lowers an expression that stands as a statement.
fn convert_expression_statement(expr: &Expr) -> (r: Statement)
    ensures
        r@ == lowered_expr_stmt(expr_syntax(*expr)),
    decreases expr_syntax(*expr), 1nat,
{
    if let Some((cond, then_branch, else_branch)) = expr_as_if(expr) {
        return convert_if_statement(cond, &then_branch, else_branch);
    }
    if let Some((cond, body)) = expr_as_while(expr) {
        return convert_while_statement(cond, &body);
    }
    if let Some((pat, iter, body)) = expr_as_for(expr) {
        return convert_for_statement(pat, iter, &body);
    }
    if let Some(value) = expr_as_return(expr) {
        let value = match value {
            Some(v) => Some(convert_expression(v)),
            None => None,
        };
        return Statement::Return(value);
    }
    Statement::Expression(convert_expression(expr))
}

/// Lowers an `if` from its condition, its `then` block and what follows its
/// `else`.
fn convert_if_statement(cond: &Expr, then_branch: &Vec<&Stmt>, else_branch: Option<&Expr>) -> (r:
    Statement)
    ensures
        r@ == lowered_if(
            ExprSyntax::If {
                cond: Box::new(expr_syntax(*cond)),
                then_branch: stmts_syntax(then_branch@),
                else_branch: optional_boxed_expr_syntax(else_branch),
            },
        ),
    decreases
            (ExprSyntax::If {
                cond: Box::new(expr_syntax(*cond)),
                then_branch: stmts_syntax(then_branch@),
                else_branch: optional_boxed_expr_syntax(else_branch),
            }),
            0nat,
{
    let condition = convert_expression(cond);
    let then_statements = convert_block(then_branch);
    let else_statements = match else_branch {
        Some(after) => {
            if let Some(stmts) = expr_as_block(after) {
                Some(convert_block(&stmts))
            } else if let Some((nested_cond, nested_then, nested_else)) = expr_as_if(after) {
                let nested = convert_if_statement(nested_cond, &nested_then, nested_else);
                let mut only: Vec<Statement> = Vec::new();
                only.push(nested);
                assert(statements_view(only@) =~= seq![nested@]);
                Some(only)
            } else {
                None
            }
        },
        None => None,
    };
    Statement::If { condition, then_branch: then_statements, else_branch: else_statements }
}

/// Lowers a `while` from its condition and body.
fn convert_while_statement(cond: &Expr, body: &Vec<&Stmt>) -> (r: Statement)
    ensures
        r@ == (StatementView::While {
            condition: lowered_expr(expr_syntax(*cond)),
            body: lowered_block(stmts_syntax(body@)),
        }),
    decreases stmts_syntax(body@), 2nat,
{
    let condition = convert_expression(cond);
    let body = convert_block(body);
    Statement::While { condition, body }
}

/// Lowers a `for` from its pattern, the iterated expression and its body.
fn convert_for_statement(pat: &Pat, iter: &Expr, body: &Vec<&Stmt>) -> (r: Statement)
    ensures
        r@ == (StatementView::For {
            pattern: lowered_loop_pattern(pattern_syntax(*pat)),
            iterator: lowered_expr(expr_syntax(*iter)),
            body: lowered_block(stmts_syntax(body@)),
        }),
    decreases stmts_syntax(body@), 2nat,
{
    let pattern = match pattern_as_ident(pat) {
        Some((name, _mutable)) => name,
        None => String::from_str("item"),
    };
    let iterator = convert_expression(iter);
    let body = convert_block(body);
    Statement::For { pattern, iterator, body }
}

/// Lowers the statements of a block and keeps those that are not dropped.
fn convert_block(stmts: &Vec<&Stmt>) -> (r: Vec<Statement>)
    ensures
        statements_view(r@) == lowered_block(stmts_syntax(stmts@)),
    decreases stmts_syntax(stmts@), 1nat,
{
    let ghost all = stmts_syntax(stmts@);
    let mut out: Vec<Statement> = Vec::new();
    let mut i: usize = 0;
    assert(statements_view(out@) =~= present(lowered_stmts(all).take(0)));
    while i < stmts.len()
        invariant
            i <= stmts.len(),
            all == stmts_syntax(stmts@),
            statements_view(out@) == present(lowered_stmts(all).take(i as int)),
        decreases stmts.len() - i,
    {
        assert(all[i as int] == stmt_syntax(*stmts[i as int]));
        let ghost before = out@;
        let lowered = convert_statement(stmts[i]);
        proof {
            lemma_present_step(lowered_stmts(all), i as int);
        }
        match lowered {
            Some(statement) => {
                out.push(statement);
                assert(statements_view(out@) =~= statements_view(before).push(statement@));
            },
            None => {},
        }
        i += 1;
    }
    assert(lowered_stmts(all).take(stmts.len() as int) =~= lowered_stmts(all));
    out
}

/// A parameter is kept where it is a plain identifier with a type; a
/// receiver or a pattern is dropped.
pub open spec fn lowered_param(arg: ArgSyntax) -> Option<ParameterView> {
    match arg {
        ArgSyntax::Typed { pat, ty } => match pat {
            PatternSyntax::Ident { name, mutable } => Some(
                ParameterView { name, type_: lowered_type(ty), mutable },
            ),
            _ => None,
        },
        ArgSyntax::Receiver => None,
    }
}

/// The parameters that are kept, in order.
pub open spec fn lowered_params(args: Seq<ArgSyntax>) -> Seq<ParameterView> {
    present(Seq::new(args.len(), |i: int| lowered_param(args[i])))
}

/// The lowering of an optional type.
pub open spec fn lowered_optional_type(ty: Option<TypeSyntax>) -> Option<TypeView> {
    match ty {
        Some(t) => Some(lowered_type(t)),
        None => None,
    }
}

/// A function keeps its name, parameters, return type and body. Generics
/// and attributes are not captured.
pub open spec fn lowered_function(f: FunctionSyntax) -> FunctionView {
    FunctionView {
        name: f.sig.name,
        visibility: lowered_visibility(f.vis),
        generics: Seq::empty(),
        parameters: lowered_params(f.sig.inputs),
        return_type: lowered_optional_type(f.sig.output),
        body: lowered_block(f.body),
        attributes: Seq::empty(),
    }
}

/// A field with a name is kept under that name.
pub open spec fn lowered_named_field(field: FieldSyntax) -> Option<FieldView> {
    match field.name {
        Some(name) => Some(
            FieldView {
                name,
                visibility: lowered_visibility(field.vis),
                type_: lowered_type(field.ty),
            },
        ),
        None => None,
    }
}

/// A field of a tuple struct is named after its position: `field_0`,
/// `field_1`, and so on.
pub open spec fn lowered_positional_field(field: FieldSyntax, position: nat) -> FieldView {
    FieldView {
        name: "field_"@ + decimal_text(position),
        visibility: lowered_visibility(field.vis),
        type_: lowered_type(field.ty),
    }
}

/// The fields of a struct, in order. A unit struct has none.
pub open spec fn lowered_fields(fields: FieldsSyntax) -> Seq<FieldView> {
    match fields {
        FieldsSyntax::Named(named) => present(
            Seq::new(named.len(), |i: int| lowered_named_field(named[i])),
        ),
        FieldsSyntax::Unnamed(unnamed) => Seq::new(
            unnamed.len(),
            |i: int| lowered_positional_field(unnamed[i], i as nat),
        ),
        FieldsSyntax::Unit => Seq::empty(),
    }
}

/// Each variant keeps its name; what it carries is not captured.
pub open spec fn lowered_variants(names: Seq<Seq<char>>) -> Seq<VariantView> {
    Seq::new(names.len(), |i: int| VariantView { name: names[i], data: VariantDataView::Unit })
}

/// The function that stands for a member of an implementation block that is
/// not a function.
pub open spec fn placeholder_function() -> FunctionView {
    FunctionView {
        name: "placeholder"@,
        visibility: VisibilityView::Private,
        generics: Seq::empty(),
        parameters: Seq::empty(),
        return_type: None,
        body: Seq::empty(),
        attributes: Seq::empty(),
    }
}

/// A method is lowered as a function; any other member becomes the
/// placeholder function.
pub open spec fn lowered_impl_item(item: ImplItemSyntax) -> ImplItemView {
    match item {
        ImplItemSyntax::Fn(f) => ImplItemView::Function(lowered_function(f)),
        ImplItemSyntax::Other => ImplItemView::Function(placeholder_function()),
    }
}

/// The lowering of the trait that an implementation block is for.
pub open spec fn lowered_trait(path: Option<PathSyntax>) -> Option<TypeView> {
    match path {
        Some(p) => Some(TypeView::Path(lowered_path(p))),
        None => None,
    }
}

/// Each kind of declaration that the representation knows becomes its item;
/// any other kind is skipped. A module is lowered without its content.
pub open spec fn lowered_item(item: ItemSyntax) -> Option<ItemView> {
    match item {
        ItemSyntax::Fn(f) => Some(ItemView::Function(lowered_function(f))),
        ItemSyntax::Struct { name, vis, fields } => Some(
            ItemView::Struct(
                StructView {
                    name,
                    visibility: lowered_visibility(vis),
                    generics: Seq::empty(),
                    fields: lowered_fields(fields),
                    attributes: Seq::empty(),
                },
            ),
        ),
        ItemSyntax::Enum { name, vis, variants } => Some(
            ItemView::Enum(
                EnumView {
                    name,
                    visibility: lowered_visibility(vis),
                    generics: Seq::empty(),
                    variants: lowered_variants(variants),
                    attributes: Seq::empty(),
                },
            ),
        ),
        ItemSyntax::Impl { self_ty, trait_, items } => Some(
            ItemView::Impl(
                ImplView {
                    target_type: lowered_type(self_ty),
                    trait_: lowered_trait(trait_),
                    generics: Seq::empty(),
                    items: Seq::new(items.len(), |i: int| lowered_impl_item(items[i])),
                },
            ),
        ),
        ItemSyntax::Use { text, vis } => Some(
            ItemView::Use(UseView { path: text, visibility: lowered_visibility(vis) }),
        ),
        ItemSyntax::Mod { name, vis } => Some(
            ItemView::Mod(
                ModuleView { name, visibility: lowered_visibility(vis), items: Seq::empty() },
            ),
        ),
        ItemSyntax::Const { name, vis, ty, value } => Some(
            ItemView::Const(
                ConstView {
                    name,
                    visibility: lowered_visibility(vis),
                    type_: lowered_type(ty),
                    value: lowered_expr(value),
                },
            ),
        ),
        ItemSyntax::Static { name, vis, mutable, ty, value } => Some(
            ItemView::Static(
                StaticView {
                    name,
                    visibility: lowered_visibility(vis),
                    mutable,
                    type_: lowered_type(ty),
                    value: lowered_expr(value),
                },
            ),
        ),
        ItemSyntax::Alias { name, vis, ty } => Some(
            ItemView::Type(
                TypeAliasView {
                    name,
                    visibility: lowered_visibility(vis),
                    generics: Seq::empty(),
                    type_: lowered_type(ty),
                },
            ),
        ),
        ItemSyntax::Other => None,
    }
}

/// A declaration gives an item exactly where it is of a kind that the
/// representation knows, and the item is of that kind. A module gives a
/// module without items, whatever it holds.
pub proof fn lemma_lowered_item_keeps_kind(item: ItemSyntax)
    ensures
        lowered_item(item) is None <==> item is Other,
        item is Fn <==> lowered_item(item) matches Some(ItemView::Function(_)),
        item is Struct <==> lowered_item(item) matches Some(ItemView::Struct(_)),
        item is Enum <==> lowered_item(item) matches Some(ItemView::Enum(_)),
        item is Impl <==> lowered_item(item) matches Some(ItemView::Impl(_)),
        item is Use <==> lowered_item(item) matches Some(ItemView::Use(_)),
        item is Mod <==> lowered_item(item) matches Some(ItemView::Mod(_)),
        item is Const <==> lowered_item(item) matches Some(ItemView::Const(_)),
        item is Static <==> lowered_item(item) matches Some(ItemView::Static(_)),
        item is Alias <==> lowered_item(item) matches Some(ItemView::Type(_)),
        item matches ItemSyntax::Mod { name, vis } ==> lowered_item(item) == Some(
            ItemView::Mod(
                ModuleView { name, visibility: lowered_visibility(vis), items: Seq::empty() },
            ),
        ),
{
}

/// The metadata of every lowered unit: no source file, edition 2021, target
/// version 24.5.
pub open spec fn lowered_metadata() -> CompilationMetadataView {
    CompilationMetadataView {
        source_file: None,
        rust_edition: "2021"@,
        target_mojo_version: "24.5"@,
    }
}

/// What each declaration is lowered to, in order; a declaration that is
/// skipped gives nothing.
pub open spec fn lowered_declarations(declarations: Seq<ItemSyntax>) -> Seq<Option<ItemView>> {
    Seq::new(declarations.len(), |i: int| lowered_item(declarations[i]))
}

/// The items of a sequence of declarations, in the order in which the
/// declarations stand, without those that are skipped.
pub open spec fn lowered_items(declarations: Seq<ItemSyntax>) -> Seq<ItemView> {
    present(lowered_declarations(declarations))
}

/// A file is lowered to the items of its declarations, with the fixed
/// metadata.
pub open spec fn lowered_file(file: FileSyntax) -> CompilationUnitView {
    CompilationUnitView { items: lowered_items(file.declarations), metadata: lowered_metadata() }
}

/// Lowering keeps declaration order: the items of two runs of declarations,
/// one after the other, are the items of the first run followed by those of
/// the second. Nothing is reordered and nothing is grouped by kind.
pub proof fn lemma_lowering_keeps_order(first: Seq<ItemSyntax>, second: Seq<ItemSyntax>)
    ensures
        lowered_items(first + second) == lowered_items(first) + lowered_items(second),
{
    assert(lowered_declarations(first + second) =~= lowered_declarations(first)
        + lowered_declarations(second));
    lemma_present_append(lowered_declarations(first), lowered_declarations(second));
}

/// What lowering makes of a source text: the unit of the parsed file, or a
/// parse error that carries the parser's message.
pub open spec fn lowered_source(source: Seq<char>) -> Result<CompilationUnitView, ErrorView> {
    match parse_outcome(source) {
        Ok(file) => Ok(lowered_file(file)),
        Err(message) => Err(ErrorView::ParseError(message)),
    }
}

/// The view of an optional item.
pub open spec fn optional_item_view(item: Option<Item>) -> Option<ItemView> {
    match item {
        Some(i) => Some(i@),
        None => None,
    }
}

/// The view of the outcome of lowering.
pub open spec fn outcome_view(outcome: Result<CompilationUnit, Error>) -> Result<
    CompilationUnitView,
    ErrorView,
> {
    match outcome {
        Ok(unit) => Ok(unit@),
        Err(err) => Err(err@),
    }
}

/// Lowers the arguments of a function and keeps the plain ones.
fn convert_parameters(inputs: &Vec<&FnArg>) -> (r: Vec<Parameter>)
    ensures
        parameters_view(r@) == lowered_params(args_syntax(inputs@)),
{
    let ghost all = args_syntax(inputs@);
    let ghost lowered = Seq::new(all.len(), |i: int| lowered_param(all[i]));
    let mut out: Vec<Parameter> = Vec::new();
    let mut i: usize = 0;
    assert(parameters_view(out@) =~= present(lowered.take(0)));
    while i < inputs.len()
        invariant
            i <= inputs.len(),
            all == args_syntax(inputs@),
            lowered == Seq::new(all.len(), |i: int| lowered_param(all[i])),
            parameters_view(out@) == present(lowered.take(i as int)),
        decreases inputs.len() - i,
    {
        assert(all[i as int] == arg_syntax(*inputs[i as int]));
        let ghost before = out@;
        proof {
            lemma_present_step(lowered, i as int);
        }
        if let Some((pat, ty)) = arg_as_typed(inputs[i]) {
            if let Some((name, mutable)) = pattern_as_ident(pat) {
                let parameter = Parameter { name, type_: convert_type(ty), mutable };
                out.push(parameter);
                assert(parameters_view(out@) =~= parameters_view(before).push(parameter@));
            }
        }
        i += 1;
    }
    assert(lowered.take(inputs.len() as int) =~= lowered);
    out
}

/// Lowers the return type of a function, where one is written.
fn convert_return_type(output: Option<&SynType>) -> (r: Option<Type>)
    ensures
        optional_type_view(r) == lowered_optional_type(optional_type_syntax(output)),
{
    match output {
        Some(ty) => Some(convert_type(ty)),
        None => None,
    }
}

/// Lowers a function from its visibility, signature and body.
fn convert_function(parts: &FunctionParts) -> (r: Function)
    ensures
        r@ == lowered_function(parts@),
{
    let (name, inputs, output) = signature_parts(parts.sig);
    let r = Function {
        name,
        visibility: convert_visibility(parts.vis),
        generics: Vec::new(),
        parameters: convert_parameters(&inputs),
        return_type: convert_return_type(output),
        body: convert_block(&parts.body),
        attributes: Vec::new(),
    };
    assert(generics_view(r.generics@) =~= Seq::empty());
    assert(attributes_view(r.attributes@) =~= Seq::empty());
    r
}

/// Lowers the fields of a struct with named fields.
fn convert_named_fields(fields: &Vec<&SynField>) -> (r: Vec<Field>)
    ensures
        fields_view(r@) == lowered_fields(FieldsSyntax::Named(field_list_syntax(fields@))),
{
    let ghost all = field_list_syntax(fields@);
    let ghost lowered = Seq::new(all.len(), |i: int| lowered_named_field(all[i]));
    let mut out: Vec<Field> = Vec::new();
    let mut i: usize = 0;
    assert(fields_view(out@) =~= present(lowered.take(0)));
    while i < fields.len()
        invariant
            i <= fields.len(),
            all == field_list_syntax(fields@),
            lowered == Seq::new(all.len(), |i: int| lowered_named_field(all[i])),
            fields_view(out@) == present(lowered.take(i as int)),
        decreases fields.len() - i,
    {
        assert(all[i as int] == field_syntax(*fields[i as int]));
        let ghost before = out@;
        proof {
            lemma_present_step(lowered, i as int);
        }
        let (name, vis, ty) = field_parts(fields[i]);
        if let Some(name) = name {
            let field = Field {
                name,
                type_: convert_type(ty),
                visibility: convert_visibility(vis),
            };
            out.push(field);
            assert(fields_view(out@) =~= fields_view(before).push(field@));
        }
        i += 1;
    }
    assert(lowered.take(fields.len() as int) =~= lowered);
    out
}

/// Lowers the fields of a tuple struct and numbers them.
fn convert_positional_fields(fields: &Vec<&SynField>) -> (r: Vec<Field>)
    ensures
        fields_view(r@) == lowered_fields(FieldsSyntax::Unnamed(field_list_syntax(fields@))),
{
    let ghost all = field_list_syntax(fields@);
    let mut out: Vec<Field> = Vec::new();
    let mut i: usize = 0;
    while i < fields.len()
        invariant
            i <= fields.len(),
            out.len() == i,
            all == field_list_syntax(fields@),
            forall|j: int|
                0 <= j < i ==> (#[trigger] out[j])@ == lowered_positional_field(all[j], j as nat),
        decreases fields.len() - i,
    {
        assert(all[i as int] == field_syntax(*fields[i as int]));
        let (_name, vis, ty) = field_parts(fields[i]);
        let mut name = String::from_str("field_");
        push_decimal(&mut name, i as u64);
        let field = Field { name, type_: convert_type(ty), visibility: convert_visibility(vis) };
        out.push(field);
        i += 1;
    }
    assert(fields_view(out@) =~= lowered_fields(FieldsSyntax::Unnamed(all)));
    out
}

/// Lowers the fields of a struct of any of the three kinds.
fn convert_struct_fields(fields: &Fields) -> (r: Vec<Field>)
    ensures
        fields_view(r@) == lowered_fields(fields_syntax(*fields)),
{
    match fields_shape(fields) {
        FieldsShape::Named(named) => convert_named_fields(&named),
        FieldsShape::Unnamed(unnamed) => convert_positional_fields(&unnamed),
        FieldsShape::Unit => {
            let out: Vec<Field> = Vec::new();
            assert(fields_view(out@) =~= Seq::empty());
            out
        },
    }
}

/// Makes a variant without data for each name.
fn convert_variants(names: &Vec<String>) -> (r: Vec<Variant>)
    ensures
        variants_view(r@) == lowered_variants(texts_view(names@)),
{
    let mut out: Vec<Variant> = Vec::new();
    let mut i: usize = 0;
    while i < names.len()
        invariant
            i <= names.len(),
            out.len() == i,
            forall|j: int|
                0 <= j < i ==> (#[trigger] out[j])@ == (VariantView {
                    name: names[j]@,
                    data: VariantDataView::Unit,
                }),
        decreases names.len() - i,
    {
        out.push(Variant { name: names[i].clone(), data: VariantData::Unit });
        i += 1;
    }
    assert(variants_view(out@) =~= lowered_variants(texts_view(names@)));
    out
}

/// Lowers a member of an implementation block.
fn convert_impl_item(item: &SynImplItem) -> (r: ImplItem)
    ensures
        r@ == lowered_impl_item(impl_item_syntax(*item)),
{
    match impl_item_as_fn(item) {
        Some(parts) => ImplItem::Function(convert_function(&parts)),
        None => {
            let f = Function {
                name: String::from_str("placeholder"),
                visibility: Visibility::Private,
                generics: Vec::new(),
                parameters: Vec::new(),
                return_type: None,
                body: Vec::new(),
                attributes: Vec::new(),
            };
            assert(generics_view(f.generics@) =~= Seq::empty());
            assert(parameters_view(f.parameters@) =~= Seq::empty());
            assert(statements_view(f.body@) =~= Seq::empty());
            assert(attributes_view(f.attributes@) =~= Seq::empty());
            ImplItem::Function(f)
        },
    }
}

/// Lowers an implementation block from the type it is for, the trait it
/// implements and its members.
fn convert_impl(self_ty: &SynType, trait_: Option<&Path>, items: &Vec<&SynImplItem>) -> (r: Impl)
    ensures
        r@ == (ImplView {
            target_type: lowered_type(type_syntax(*self_ty)),
            trait_: lowered_trait(optional_path_syntax(trait_)),
            generics: Seq::empty(),
            items: Seq::new(
                items.len() as nat,
                |i: int| lowered_impl_item(impl_items_syntax(items@)[i]),
            ),
        }),
{
    let ghost all = impl_items_syntax(items@);
    let mut out: Vec<ImplItem> = Vec::new();
    let mut i: usize = 0;
    while i < items.len()
        invariant
            i <= items.len(),
            out.len() == i,
            all == impl_items_syntax(items@),
            forall|j: int| 0 <= j < i ==> (#[trigger] out[j])@ == lowered_impl_item(all[j]),
        decreases items.len() - i,
    {
        assert(all[i as int] == impl_item_syntax(*items[i as int]));
        let converted = convert_impl_item(items[i]);
        out.push(converted);
        i += 1;
    }
    let trait_type = match trait_ {
        Some(path) => Some(convert_path_type(path)),
        None => None,
    };
    let r = Impl {
        target_type: convert_type(self_ty),
        trait_: trait_type,
        generics: Vec::new(),
        items: out,
    };
    assert(generics_view(r.generics@) =~= Seq::empty());
    assert(impl_items_view(r.items@) =~= Seq::new(
        items.len() as nat,
        |i: int| lowered_impl_item(all[i]),
    ));
    r
}

/// Lowers one declaration: an item for each kind that the representation
/// knows, nothing for any other.
fn convert_item(item: &SynItem) -> (r: Option<Item>)
    ensures
        optional_item_view(r) == lowered_item(item_syntax(*item)),
{
    if let Some(parts) = item_as_fn(item) {
        return Some(Item::Function(convert_function(&parts)));
    }
    if let Some((name, vis, fields)) = item_as_struct(item) {
        let r = Struct {
            name,
            visibility: convert_visibility(vis),
            generics: Vec::new(),
            fields: convert_struct_fields(fields),
            attributes: Vec::new(),
        };
        assert(generics_view(r.generics@) =~= Seq::empty());
        assert(attributes_view(r.attributes@) =~= Seq::empty());
        return Some(Item::Struct(r));
    }
    if let Some((name, vis, variants)) = item_as_enum(item) {
        let r = Enum {
            name,
            visibility: convert_visibility(vis),
            generics: Vec::new(),
            variants: convert_variants(&variants),
            attributes: Vec::new(),
        };
        assert(generics_view(r.generics@) =~= Seq::empty());
        assert(attributes_view(r.attributes@) =~= Seq::empty());
        return Some(Item::Enum(r));
    }
    if let Some((self_ty, trait_, items)) = item_as_impl(item) {
        return Some(Item::Impl(convert_impl(self_ty, trait_, &items)));
    }
    if let Some((text, vis)) = item_as_use(item) {
        return Some(Item::Use(Use { path: text, visibility: convert_visibility(vis) }));
    }
    if let Some((name, vis)) = item_as_mod(item) {
        let r = Module { name, visibility: convert_visibility(vis), items: Vec::new() };
        assert(items_view(r.items@) =~= Seq::empty());
        return Some(Item::Mod(r));
    }
    if let Some((name, vis, ty, value)) = item_as_const(item) {
        return Some(
            Item::Const(
                Const {
                    name,
                    visibility: convert_visibility(vis),
                    type_: convert_type(ty),
                    value: convert_expression(value),
                },
            ),
        );
    }
    if let Some((name, vis, mutable, ty, value)) = item_as_static(item) {
        return Some(
            Item::Static(
                Static {
                    name,
                    visibility: convert_visibility(vis),
                    mutable,
                    type_: convert_type(ty),
                    value: convert_expression(value),
                },
            ),
        );
    }
    if let Some((name, vis, ty)) = item_as_alias(item) {
        let r = TypeAlias {
            name,
            visibility: convert_visibility(vis),
            generics: Vec::new(),
            type_: convert_type(ty),
        };
        assert(generics_view(r.generics@) =~= Seq::empty());
        return Some(Item::Type(r));
    }
    None
}

/// Lowers a parsed file: each of its top-level declarations in turn, in the
/// order in which they stand.
pub fn convert_file(file: &File) -> (r: CompilationUnit)
    ensures
        r@ == lowered_file(file_syntax(*file)),
{
    let declarations = file_declarations(file);
    let ghost all = items_syntax(declarations@);
    let ghost lowered = lowered_declarations(all);
    let mut items: Vec<Item> = Vec::new();
    let mut i: usize = 0;
    assert(items_view(items@) =~= present(lowered.take(0)));
    while i < declarations.len()
        invariant
            i <= declarations.len(),
            all == items_syntax(declarations@),
            lowered == lowered_declarations(all),
            items_view(items@) == present(lowered.take(i as int)),
        decreases declarations.len() - i,
    {
        assert(all[i as int] == item_syntax(*declarations[i as int]));
        let ghost before = items@;
        proof {
            lemma_present_step(lowered, i as int);
        }
        if let Some(item) = convert_item(declarations[i]) {
            items.push(item);
            assert(items_view(items@) =~= items_view(before).push(item@));
        }
        i += 1;
    }
    assert(lowered.take(declarations.len() as int) =~= lowered);
    CompilationUnit {
        items,
        metadata: CompilationMetadata {
            source_file: None,
            rust_edition: String::from_str("2021"),
            target_mojo_version: String::from_str("24.5"),
        },
    }
}

/// Parses a source text and lowers it. The outcome is a function of the
/// text: the lowered unit where the text is valid syntax, and otherwise a
/// parse error with the parser's message.
pub fn parse_rust_code(source: &str) -> (r: Result<CompilationUnit, Error>)
    ensures
        outcome_view(r) == lowered_source(source@),
{
    match parse_file(source) {
        Ok(file) => Ok(convert_file(&file)),
        Err(err) => Err(Error::from(err)),
    }
}

} // verus!
