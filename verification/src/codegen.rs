//! Emission: from the intermediate representation to Mojo text.
//!
//! The `render_*` functions say, over the views of `crate::ast`, what text
//! each node stands for. The `emit_*` functions append that text to a buffer
//! and are proved to append exactly it. Emission reads the unit and nothing
//! else, so the same unit always gives the same text.

use crate::ast::{
    expressions_view, field_patterns_view, field_values_view, items_view, match_arms_view,
    parameters_view, patterns_view, statements_view, types_view, BinaryOp, CompilationUnit,
    CompilationUnitView, Const, ConstView, Enum, EnumView, Expression, ExpressionView, Field,
    FieldView, Function, FunctionView, Impl, ImplItem, ImplItemView, ImplView, Item, ItemView,
    Literal, LiteralView, MatchArm, MatchArmView, Parameter, ParameterView, Pattern, PatternView,
    Statement, StatementView, Static, StaticView, Struct, StructView, Type, TypeAlias,
    TypeAliasView, TypeView, UnaryOp, Use, UseView, Variant, VariantView,
};
use crate::error::{Error, ErrorView};
use crate::text::{
    concat_text, contains_text, decimal_text, escaped_char, escaped_text, is_prefix_of, join_text,
    lemma_concat_append, lemma_concat_step, lemma_join_step, occurs_at, occurs_in, push_decimal,
    push_escaped, push_escaped_char, push_signed_decimal, same_text, signed_decimal_text,
};
use vstd::prelude::*;

verus! {

/// The fixed table of primitive types. A name that is not in the table
/// stands for itself.
pub open spec fn mapped_type_name(name: Seq<char>) -> Seq<char> {
    if name == "i8"@ {
        "Int8"@
    } else if name == "i16"@ {
        "Int16"@
    } else if name == "i32"@ {
        "Int32"@
    } else if name == "i64"@ {
        "Int64"@
    } else if name == "u8"@ {
        "UInt8"@
    } else if name == "u16"@ {
        "UInt16"@
    } else if name == "u32"@ {
        "UInt32"@
    } else if name == "u64"@ {
        "UInt64"@
    } else if name == "isize"@ {
        "Int"@
    } else if name == "usize"@ {
        "UInt"@
    } else if name == "f32"@ {
        "Float32"@
    } else if name == "f64"@ {
        "Float64"@
    } else if name == "bool"@ {
        "Bool"@
    } else if name == "str"@ {
        "String"@
    } else {
        name
    }
}

/// The text of a type. A reference is written as the type it refers to.
pub open spec fn render_type(ty: TypeView) -> Seq<char>
    decreases ty,
{
    match ty {
        TypeView::Path(name) => mapped_type_name(name),
        TypeView::Reference { mutable, inner } => render_type(*inner),
        TypeView::Pointer { mutable, inner } => "UnsafePointer["@ + render_type(*inner) + "]"@,
        TypeView::Array { inner, size } => match size {
            Some(n) => "InlineArray["@ + render_type(*inner) + ", "@ + decimal_text(n as nat)
                + "]"@,
            None => "List["@ + render_type(*inner) + "]"@,
        },
        TypeView::Slice(inner) => "List["@ + render_type(*inner) + "]"@,
        TypeView::Tuple(elements) => "Tuple["@ + join_text(rendered_types(elements), ", "@) + "]"@,
        TypeView::Function { params, return_ } => "fn("@ + join_text(
            rendered_types(params),
            ", "@,
        ) + ") -> "@ + render_type(*return_),
        TypeView::Generic(name) => name,
        TypeView::Unit => "None"@,
    }
}

/// The text of each type of a sequence, in order.
pub open spec fn rendered_types(types: Seq<TypeView>) -> Seq<Seq<char>>
    decreases types,
{
    Seq::new(
        types.len(),
        |i: int|
            if 0 <= i < types.len() {
                render_type(types[i])
            } else {
                Seq::empty()
            },
    )
}

/// The text of a literal. Strings and characters are written between double
/// quotes, escaped.
pub open spec fn render_literal(lit: LiteralView) -> Seq<char> {
    match lit {
        LiteralView::String(text) => "\""@ + escaped_text(text) + "\""@,
        LiteralView::Integer(n) => signed_decimal_text(n as int),
        LiteralView::Float(digits) => digits,
        LiteralView::Boolean(b) => if b {
            "True"@
        } else {
            "False"@
        },
        LiteralView::Char(c) => "\""@ + escaped_char(c) + "\""@,
    }
}

/// The text of a binary operator.
pub open spec fn render_binary_op(op: BinaryOp) -> Seq<char> {
    match op {
        BinaryOp::Add => "+"@,
        BinaryOp::Sub => "-"@,
        BinaryOp::Mul => "*"@,
        BinaryOp::Div => "/"@,
        BinaryOp::Mod => "%"@,
        BinaryOp::Eq => "=="@,
        BinaryOp::Ne => "!="@,
        BinaryOp::Lt => "<"@,
        BinaryOp::Le => "<="@,
        BinaryOp::Gt => ">"@,
        BinaryOp::Ge => ">="@,
        BinaryOp::And => "and"@,
        BinaryOp::Or => "or"@,
        BinaryOp::BitAnd => "&"@,
        BinaryOp::BitOr => "|"@,
        BinaryOp::BitXor => "^"@,
        BinaryOp::Shl => "<<"@,
        BinaryOp::Shr => ">>"@,
        BinaryOp::Assign => "="@,
    }
}

/// The text of an expression. An expression that holds statements has no
/// text of its own and is written as `None`.
pub open spec fn render_expr(expr: ExpressionView) -> Seq<char>
    decreases expr, 0nat,
{
    match expr {
        ExpressionView::Literal(lit) => render_literal(lit),
        ExpressionView::Identifier(name) => name,
        ExpressionView::Path(path) => path,
        ExpressionView::Call { function, args } => render_expr(*function) + "("@ + join_text(
            rendered_exprs(args),
            ", "@,
        ) + ")"@,
        ExpressionView::MethodCall { receiver, method, args } => render_operand(*receiver) + "."@
            + method + "("@ + join_text(rendered_exprs(args), ", "@) + ")"@,
        ExpressionView::FieldAccess { object, field } => render_operand(*object) + "."@ + field,
        ExpressionView::Index { object, index } => render_operand(*object) + "["@ + render_expr(
            *index,
        ) + "]"@,
        ExpressionView::Binary { left, op, right } => render_operand(*left) + " "@
            + render_binary_op(op) + " "@ + render_operand(*right),
        ExpressionView::Unary { op, operand } => match op {
            UnaryOp::Not => "not "@ + render_operand(*operand),
            UnaryOp::Neg => "-"@ + render_operand(*operand),
            UnaryOp::Deref => render_operand(*operand) + "[]"@,
        },
        ExpressionView::Cast { expr, type_ } => render_type(type_) + "("@ + render_expr(*expr)
            + ")"@,
        ExpressionView::Reference { mutable, expr } => render_expr(*expr),
        ExpressionView::Dereference(expr) => render_operand(*expr) + "[]"@,
        ExpressionView::Block(statements) => "None"@,
        ExpressionView::Array(elements) => "["@ + join_text(rendered_exprs(elements), ", "@)
            + "]"@,
        ExpressionView::Tuple(elements) => "("@ + join_text(rendered_exprs(elements), ", "@)
            + ")"@,
        ExpressionView::Struct { name, fields } => name + "("@ + join_text(
            rendered_field_values(fields),
            ", "@,
        ) + ")"@,
    }
}

/// The text of an expression that stands inside another: a binary or unary
/// operation is put in parentheses.
pub open spec fn render_operand(expr: ExpressionView) -> Seq<char>
    decreases expr, 1nat,
{
    match expr {
        ExpressionView::Binary { left, op, right } => "("@ + render_expr(expr) + ")"@,
        ExpressionView::Unary { op, operand } => "("@ + render_expr(expr) + ")"@,
        _ => render_expr(expr),
    }
}

/// The text of each expression of a sequence, in order.
pub open spec fn rendered_exprs(exprs: Seq<ExpressionView>) -> Seq<Seq<char>>
    decreases exprs, 0nat,
{
    Seq::new(
        exprs.len(),
        |i: int|
            if 0 <= i < exprs.len() {
                render_expr(exprs[i])
            } else {
                Seq::empty()
            },
    )
}

/// The text of each named value of a struct literal, in order: the name, an
/// equals sign, the value.
pub open spec fn rendered_field_values(fields: Seq<(Seq<char>, ExpressionView)>) -> Seq<
    Seq<char>,
>
    decreases fields, 0nat,
{
    Seq::new(
        fields.len(),
        |i: int|
            if 0 <= i < fields.len() {
                fields[i].0 + "="@ + render_expr(fields[i].1)
            } else {
                Seq::empty()
            },
    )
}

/// The text of a pattern.
pub open spec fn render_pattern(pattern: PatternView) -> Seq<char>
    decreases pattern,
{
    match pattern {
        PatternView::Wildcard => "_"@,
        PatternView::Identifier(name) => name,
        PatternView::Literal(lit) => render_literal(lit),
        PatternView::Tuple(elements) => "("@ + join_text(rendered_patterns(elements), ", "@)
            + ")"@,
        PatternView::Struct { name, fields } => name + "("@ + join_text(
            rendered_field_patterns(fields),
            ", "@,
        ) + ")"@,
        PatternView::Enum { path, variant, fields } => path + "."@ + variant + "("@ + join_text(
            rendered_patterns(fields),
            ", "@,
        ) + ")"@,
    }
}

/// The text of each pattern of a sequence, in order.
pub open spec fn rendered_patterns(patterns: Seq<PatternView>) -> Seq<Seq<char>>
    decreases patterns,
{
    Seq::new(
        patterns.len(),
        |i: int|
            if 0 <= i < patterns.len() {
                render_pattern(patterns[i])
            } else {
                Seq::empty()
            },
    )
}

/// The text of each named pattern of a struct pattern, in order.
pub open spec fn rendered_field_patterns(fields: Seq<(Seq<char>, PatternView)>) -> Seq<
    Seq<char>,
>
    decreases fields,
{
    Seq::new(
        fields.len(),
        |i: int|
            if 0 <= i < fields.len() {
                fields[i].0 + "="@ + render_pattern(fields[i].1)
            } else {
                Seq::empty()
            },
    )
}

/// Looks a type name up in the table of primitive types.
fn primitive_name(name: &str) -> (r: &str)
    ensures
        r@ == mapped_type_name(name@),
{
    if same_text(name, "i8") {
        "Int8"
    } else if same_text(name, "i16") {
        "Int16"
    } else if same_text(name, "i32") {
        "Int32"
    } else if same_text(name, "i64") {
        "Int64"
    } else if same_text(name, "u8") {
        "UInt8"
    } else if same_text(name, "u16") {
        "UInt16"
    } else if same_text(name, "u32") {
        "UInt32"
    } else if same_text(name, "u64") {
        "UInt64"
    } else if same_text(name, "isize") {
        "Int"
    } else if same_text(name, "usize") {
        "UInt"
    } else if same_text(name, "f32") {
        "Float32"
    } else if same_text(name, "f64") {
        "Float64"
    } else if same_text(name, "bool") {
        "Bool"
    } else if same_text(name, "str") {
        "String"
    } else {
        name
    }
}

fn emit_type(out: &mut String, ty: &Type)
    ensures
        final(out)@ == old(out)@ + render_type(ty@),
    decreases ty,
{
    match ty {
        Type::Path(name) => {
            out.append(primitive_name(name.as_str()));
        },
        Type::Reference { mutable, inner } => {
            emit_type(out, inner);
        },
        Type::Pointer { mutable, inner } => {
            out.append("UnsafePointer[");
            emit_type(out, inner);
            out.append("]");
        },
        Type::Array { inner, size } => match size {
            Some(n) => {
                out.append("InlineArray[");
                emit_type(out, inner);
                out.append(", ");
                push_decimal(out, *n as u64);
                out.append("]");
            },
            None => {
                out.append("List[");
                emit_type(out, inner);
                out.append("]");
            },
        },
        Type::Slice(inner) => {
            out.append("List[");
            emit_type(out, inner);
            out.append("]");
        },
        Type::Tuple(elements) => {
            out.append("Tuple[");
            emit_types(out, elements);
            out.append("]");
        },
        Type::Function { params, return_ } => {
            out.append("fn(");
            emit_types(out, params);
            out.append(") -> ");
            emit_type(out, return_);
        },
        Type::Generic(name) => {
            out.append(name.as_str());
        },
        Type::Unit => {
            out.append("None");
        },
    }
    assert(out@ =~= old(out)@ + render_type(ty@));
}

fn emit_types(out: &mut String, types: &Vec<Type>)
    ensures
        final(out)@ == old(out)@ + join_text(rendered_types(types_view(types@)), ", "@),
    decreases types,
{
    let ghost base = out@;
    let ghost parts = rendered_types(types_view(types@));
    let mut i: usize = 0;
    assert(out@ =~= base + join_text(parts.take(0), ", "@));
    while i < types.len()
        invariant
            i <= types.len(),
            parts == rendered_types(types_view(types@)),
            out@ == base + join_text(parts.take(i as int), ", "@),
        decreases types.len() - i,
    {
        if i > 0 {
            out.append(", ");
        }
        emit_type(out, &types[i]);
        proof {
            lemma_join_step(parts, ", "@, i as int);
            assert(parts[i as int] == render_type(types[i as int]@));
            assert(out@ =~= base + join_text(parts.take(i + 1), ", "@));
        }
        i += 1;
    }
    assert(parts.take(types.len() as int) =~= parts);
}

fn emit_literal(out: &mut String, lit: &Literal)
    ensures
        final(out)@ == old(out)@ + render_literal(lit@),
{
    match lit {
        Literal::String(text) => {
            out.append("\"");
            push_escaped(out, text.as_str());
            out.append("\"");
        },
        Literal::Integer(n) => {
            push_signed_decimal(out, *n);
        },
        Literal::Float(digits) => {
            out.append(digits.as_str());
        },
        Literal::Boolean(b) => {
            if *b {
                out.append("True");
            } else {
                out.append("False");
            }
        },
        Literal::Char(c) => {
            out.append("\"");
            push_escaped_char(out, *c);
            out.append("\"");
        },
    }
    assert(out@ =~= old(out)@ + render_literal(lit@));
}

/// The text of a binary operator.
fn binary_op_text(op: BinaryOp) -> (r: &'static str)
    ensures
        r@ == render_binary_op(op),
{
    match op {
        BinaryOp::Add => "+",
        BinaryOp::Sub => "-",
        BinaryOp::Mul => "*",
        BinaryOp::Div => "/",
        BinaryOp::Mod => "%",
        BinaryOp::Eq => "==",
        BinaryOp::Ne => "!=",
        BinaryOp::Lt => "<",
        BinaryOp::Le => "<=",
        BinaryOp::Gt => ">",
        BinaryOp::Ge => ">=",
        BinaryOp::And => "and",
        BinaryOp::Or => "or",
        BinaryOp::BitAnd => "&",
        BinaryOp::BitOr => "|",
        BinaryOp::BitXor => "^",
        BinaryOp::Shl => "<<",
        BinaryOp::Shr => ">>",
        BinaryOp::Assign => "=",
    }
}

fn emit_expr(out: &mut String, expr: &Expression)
    ensures
        final(out)@ == old(out)@ + render_expr(expr@),
    decreases expr, 0nat,
{
    match expr {
        Expression::Literal(lit) => {
            emit_literal(out, lit);
        },
        Expression::Identifier(name) => {
            out.append(name.as_str());
        },
        Expression::Path(path) => {
            out.append(path.as_str());
        },
        Expression::Call { function, args } => {
            emit_expr(out, function);
            out.append("(");
            emit_exprs(out, args);
            out.append(")");
        },
        Expression::MethodCall { receiver, method, args } => {
            emit_operand(out, receiver);
            out.append(".");
            out.append(method.as_str());
            out.append("(");
            emit_exprs(out, args);
            out.append(")");
        },
        Expression::FieldAccess { object, field } => {
            emit_operand(out, object);
            out.append(".");
            out.append(field.as_str());
        },
        Expression::Index { object, index } => {
            emit_operand(out, object);
            out.append("[");
            emit_expr(out, index);
            out.append("]");
        },
        Expression::Binary { left, op, right } => {
            emit_operand(out, left);
            out.append(" ");
            out.append(binary_op_text(*op));
            out.append(" ");
            emit_operand(out, right);
        },
        Expression::Unary { op, operand } => match op {
            UnaryOp::Not => {
                out.append("not ");
                emit_operand(out, operand);
            },
            UnaryOp::Neg => {
                out.append("-");
                emit_operand(out, operand);
            },
            UnaryOp::Deref => {
                emit_operand(out, operand);
                out.append("[]");
            },
        },
        Expression::Cast { expr: inner, type_ } => {
            emit_type(out, type_);
            out.append("(");
            emit_expr(out, inner);
            out.append(")");
        },
        Expression::Reference { mutable, expr: inner } => {
            emit_expr(out, inner);
        },
        Expression::Dereference(inner) => {
            emit_operand(out, inner);
            out.append("[]");
        },
        Expression::Block(statements) => {
            out.append("None");
        },
        Expression::Array(elements) => {
            out.append("[");
            emit_exprs(out, elements);
            out.append("]");
        },
        Expression::Tuple(elements) => {
            out.append("(");
            emit_exprs(out, elements);
            out.append(")");
        },
        Expression::Struct { name, fields } => {
            out.append(name.as_str());
            out.append("(");
            emit_field_values(out, fields);
            out.append(")");
        },
    }
    assert(out@ =~= old(out)@ + render_expr(expr@));
}

fn emit_operand(out: &mut String, expr: &Expression)
    ensures
        final(out)@ == old(out)@ + render_operand(expr@),
    decreases expr, 1nat,
{
    match expr {
        Expression::Binary { left, op, right } => {
            out.append("(");
            emit_expr(out, expr);
            out.append(")");
        },
        Expression::Unary { op, operand } => {
            out.append("(");
            emit_expr(out, expr);
            out.append(")");
        },
        _ => {
            emit_expr(out, expr);
        },
    }
    assert(out@ =~= old(out)@ + render_operand(expr@));
}

fn emit_exprs(out: &mut String, exprs: &Vec<Expression>)
    ensures
        final(out)@ == old(out)@ + join_text(rendered_exprs(expressions_view(exprs@)), ", "@),
    decreases exprs, 0nat,
{
    let ghost base = out@;
    let ghost parts = rendered_exprs(expressions_view(exprs@));
    let mut i: usize = 0;
    assert(out@ =~= base + join_text(parts.take(0), ", "@));
    while i < exprs.len()
        invariant
            i <= exprs.len(),
            parts == rendered_exprs(expressions_view(exprs@)),
            out@ == base + join_text(parts.take(i as int), ", "@),
        decreases exprs.len() - i,
    {
        if i > 0 {
            out.append(", ");
        }
        emit_expr(out, &exprs[i]);
        proof {
            lemma_join_step(parts, ", "@, i as int);
            assert(parts[i as int] == render_expr(exprs[i as int]@));
            assert(out@ =~= base + join_text(parts.take(i + 1), ", "@));
        }
        i += 1;
    }
    assert(parts.take(exprs.len() as int) =~= parts);
}

fn emit_field_values(out: &mut String, fields: &Vec<(String, Expression)>)
    ensures
        final(out)@ == old(out)@ + join_text(
            rendered_field_values(field_values_view(fields@)),
            ", "@,
        ),
    decreases fields, 0nat,
{
    let ghost base = out@;
    let ghost parts = rendered_field_values(field_values_view(fields@));
    let mut i: usize = 0;
    assert(out@ =~= base + join_text(parts.take(0), ", "@));
    while i < fields.len()
        invariant
            i <= fields.len(),
            parts == rendered_field_values(field_values_view(fields@)),
            out@ == base + join_text(parts.take(i as int), ", "@),
        decreases fields.len() - i,
    {
        if i > 0 {
            out.append(", ");
        }
        out.append(fields[i].0.as_str());
        out.append("=");
        emit_expr(out, &fields[i].1);
        proof {
            lemma_join_step(parts, ", "@, i as int);
            assert(parts[i as int] == fields[i as int].0@ + "="@ + render_expr(
                fields[i as int].1@,
            ));
            assert(out@ =~= base + join_text(parts.take(i + 1), ", "@));
        }
        i += 1;
    }
    assert(parts.take(fields.len() as int) =~= parts);
}

fn emit_pattern(out: &mut String, pattern: &Pattern)
    ensures
        final(out)@ == old(out)@ + render_pattern(pattern@),
    decreases pattern,
{
    match pattern {
        Pattern::Wildcard => {
            out.append("_");
        },
        Pattern::Identifier(name) => {
            out.append(name.as_str());
        },
        Pattern::Literal(lit) => {
            emit_literal(out, lit);
        },
        Pattern::Tuple(elements) => {
            out.append("(");
            emit_patterns(out, elements);
            out.append(")");
        },
        Pattern::Struct { name, fields } => {
            out.append(name.as_str());
            out.append("(");
            emit_field_patterns(out, fields);
            out.append(")");
        },
        Pattern::Enum { path, variant, fields } => {
            out.append(path.as_str());
            out.append(".");
            out.append(variant.as_str());
            out.append("(");
            emit_patterns(out, fields);
            out.append(")");
        },
    }
    assert(out@ =~= old(out)@ + render_pattern(pattern@));
}

fn emit_patterns(out: &mut String, patterns: &Vec<Pattern>)
    ensures
        final(out)@ == old(out)@ + join_text(rendered_patterns(patterns_view(patterns@)), ", "@),
    decreases patterns,
{
    let ghost base = out@;
    let ghost parts = rendered_patterns(patterns_view(patterns@));
    let mut i: usize = 0;
    assert(out@ =~= base + join_text(parts.take(0), ", "@));
    while i < patterns.len()
        invariant
            i <= patterns.len(),
            parts == rendered_patterns(patterns_view(patterns@)),
            out@ == base + join_text(parts.take(i as int), ", "@),
        decreases patterns.len() - i,
    {
        if i > 0 {
            out.append(", ");
        }
        emit_pattern(out, &patterns[i]);
        proof {
            lemma_join_step(parts, ", "@, i as int);
            assert(parts[i as int] == render_pattern(patterns[i as int]@));
            assert(out@ =~= base + join_text(parts.take(i + 1), ", "@));
        }
        i += 1;
    }
    assert(parts.take(patterns.len() as int) =~= parts);
}

fn emit_field_patterns(out: &mut String, fields: &Vec<(String, Pattern)>)
    ensures
        final(out)@ == old(out)@ + join_text(
            rendered_field_patterns(field_patterns_view(fields@)),
            ", "@,
        ),
    decreases fields,
{
    let ghost base = out@;
    let ghost parts = rendered_field_patterns(field_patterns_view(fields@));
    let mut i: usize = 0;
    assert(out@ =~= base + join_text(parts.take(0), ", "@));
    while i < fields.len()
        invariant
            i <= fields.len(),
            parts == rendered_field_patterns(field_patterns_view(fields@)),
            out@ == base + join_text(parts.take(i as int), ", "@),
        decreases fields.len() - i,
    {
        if i > 0 {
            out.append(", ");
        }
        out.append(fields[i].0.as_str());
        out.append("=");
        emit_pattern(out, &fields[i].1);
        proof {
            lemma_join_step(parts, ", "@, i as int);
            assert(parts[i as int] == fields[i as int].0@ + "="@ + render_pattern(
                fields[i as int].1@,
            ));
            assert(out@ =~= base + join_text(parts.take(i + 1), ", "@));
        }
        i += 1;
    }
    assert(parts.take(fields.len() as int) =~= parts);
}

/// One line of output: the indentation, the text, a line feed.
pub open spec fn line(indent: Seq<char>, text: Seq<char>) -> Seq<char> {
    indent + text + "\n"@
}

/// The indentation one level further in: four more spaces.
pub open spec fn deeper(indent: Seq<char>) -> Seq<char> {
    indent + "    "@
}

/// The text of a binding: `var`, the name, then the type and the value
/// where there are any.
pub open spec fn render_let(
    name: Seq<char>,
    type_: Option<TypeView>,
    value: Option<ExpressionView>,
) -> Seq<char> {
    "var "@ + name + (match type_ {
        Some(t) => ": "@ + render_type(t),
        None => Seq::empty(),
    }) + (match value {
        Some(v) => " = "@ + render_expr(v),
        None => Seq::empty(),
    })
}

/// The condition under which an arm of a match is taken: always, for a
/// pattern that matches anything, and equality with the pattern otherwise;
/// then the guard, if there is one.
pub open spec fn arm_condition(
    subject: Seq<char>,
    pattern: PatternView,
    guard: Option<ExpressionView>,
) -> Seq<char> {
    (match pattern {
        PatternView::Wildcard => "True"@,
        PatternView::Identifier(name) => "True"@,
        _ => subject + " == "@ + render_pattern(pattern),
    }) + (match guard {
        Some(g) => " and "@ + render_expr(g),
        None => Seq::empty(),
    })
}

/// The lines of a statement at a given indentation. A match becomes a chain
/// of `if` and `elif`, a bare block an `if True:`.
pub open spec fn render_stmt(stmt: StatementView, indent: Seq<char>) -> Seq<char>
    decreases stmt, 0nat,
{
    match stmt {
        StatementView::Expression(e) => line(indent, render_expr(e)),
        StatementView::Let { name, mutable, type_, value } => line(
            indent,
            render_let(name, type_, value),
        ),
        StatementView::Return(value) => match value {
            Some(v) => line(indent, "return "@ + render_expr(v)),
            None => line(indent, "return"@),
        },
        StatementView::If { condition, then_branch, else_branch } => line(
            indent,
            "if "@ + render_expr(condition) + ":"@,
        ) + render_block(then_branch, deeper(indent)) + (match else_branch {
            Some(statements) => line(indent, "else:"@) + render_block(statements, deeper(indent)),
            None => Seq::empty(),
        }),
        StatementView::While { condition, body } => line(
            indent,
            "while "@ + render_expr(condition) + ":"@,
        ) + render_block(body, deeper(indent)),
        StatementView::For { pattern, iterator, body } => line(
            indent,
            "for "@ + pattern + " in "@ + render_expr(iterator) + ":"@,
        ) + render_block(body, deeper(indent)),
        StatementView::Match { expr, arms } => if arms.len() == 0 {
            line(indent, "pass"@)
        } else {
            concat_text(rendered_arms(render_expr(expr), arms, indent))
        },
        StatementView::Block(statements) => line(indent, "if True:"@) + render_block(
            statements,
            deeper(indent),
        ),
    }
}

/// The lines of one arm of a match: `if` for the first arm and `elif` for
/// the others, the condition, then the body one level further in.
pub open spec fn render_arm(
    subject: Seq<char>,
    arm: MatchArmView,
    first: bool,
    indent: Seq<char>,
) -> Seq<char>
    decreases arm, 0nat,
{
    line(
        indent,
        (if first {
            "if "@
        } else {
            "elif "@
        }) + arm_condition(subject, arm.pattern, arm.guard) + ":"@,
    ) + render_block(arm.body, deeper(indent))
}

/// The lines of each arm of a match, in order.
pub open spec fn rendered_arms(
    subject: Seq<char>,
    arms: Seq<MatchArmView>,
    indent: Seq<char>,
) -> Seq<Seq<char>>
    decreases arms, 0nat,
{
    Seq::new(
        arms.len(),
        |i: int|
            if 0 <= i < arms.len() {
                render_arm(subject, arms[i], i == 0, indent)
            } else {
                Seq::empty()
            },
    )
}

/// The lines of each statement of a sequence, in order.
pub open spec fn rendered_stmts(stmts: Seq<StatementView>, indent: Seq<char>) -> Seq<Seq<char>>
    decreases stmts, 0nat,
{
    Seq::new(
        stmts.len(),
        |i: int|
            if 0 <= i < stmts.len() {
                render_stmt(stmts[i], indent)
            } else {
                Seq::empty()
            },
    )
}

/// The lines of a body: its statements in order, or a single `pass` where
/// there are none, since a body may not be empty.
pub open spec fn render_block(stmts: Seq<StatementView>, indent: Seq<char>) -> Seq<char>
    decreases stmts, 1nat,
{
    if stmts.len() == 0 {
        line(indent, "pass"@)
    } else {
        concat_text(rendered_stmts(stmts, indent))
    }
}

/// The indentation one level further in.
fn deeper_indent(indent: &str) -> (r: String)
    ensures
        r@ == deeper(indent@),
{
    let mut inner = String::from_str(indent);
    inner.append("    ");
    inner
}

/// Appends one line: the indentation, the text, a line feed.
fn push_line(out: &mut String, indent: &str, text: &str)
    ensures
        final(out)@ == old(out)@ + line(indent@, text@),
{
    out.append(indent);
    out.append(text);
    out.append("\n");
    assert(out@ =~= old(out)@ + line(indent@, text@));
}

fn emit_stmt(out: &mut String, stmt: &Statement, indent: &str)
    ensures
        final(out)@ == old(out)@ + render_stmt(stmt@, indent@),
    decreases stmt, 1nat,
{
    match stmt {
        Statement::Expression(e) => {
            let mut text = String::new();
            emit_expr(&mut text, e);
            assert(text@ =~= render_expr(e@));
            push_line(out, indent, text.as_str());
        },
        Statement::Let { name, mutable, type_, value } => {
            emit_let(out, stmt, indent);
        },
        Statement::Return(value) => {
            emit_return(out, stmt, indent);
        },
        Statement::If { condition, then_branch, else_branch } => {
            emit_if(out, stmt, indent);
        },
        Statement::While { condition, body } => {
            emit_while(out, stmt, indent);
        },
        Statement::For { pattern, iterator, body } => {
            emit_for(out, stmt, indent);
        },
        Statement::Match { expr, arms } => {
            emit_match(out, stmt, indent);
        },
        Statement::Block(statements) => {
            let inner = deeper_indent(indent);
            push_line(out, indent, "if True:");
            emit_block(out, statements, inner.as_str());
            assert(out@ =~= old(out)@ + render_stmt(stmt@, indent@));
        },
    }
}

fn emit_let(out: &mut String, stmt: &Statement, indent: &str)
    requires
        stmt is Let,
    ensures
        final(out)@ == old(out)@ + render_stmt(stmt@, indent@),
{
    match stmt {
        Statement::Let { name, mutable, type_, value } => {
            let mut text = String::from_str("var ");
            text.append(name.as_str());
            let ghost named = text@;
            match type_ {
                Some(t) => {
                    text.append(": ");
                    emit_type(&mut text, t);
                    assert(text@ =~= named + (": "@ + render_type(t@)));
                },
                None => {
                    assert(text@ =~= named + Seq::<char>::empty());
                },
            }
            let ghost typed = text@;
            match value {
                Some(v) => {
                    text.append(" = ");
                    emit_expr(&mut text, v);
                    assert(text@ =~= typed + (" = "@ + render_expr(v@)));
                },
                None => {
                    assert(text@ =~= typed + Seq::<char>::empty());
                },
            }
            push_line(out, indent, text.as_str());
        },
        _ => {},
    }
}

fn emit_return(out: &mut String, stmt: &Statement, indent: &str)
    requires
        stmt is Return,
    ensures
        final(out)@ == old(out)@ + render_stmt(stmt@, indent@),
{
    match stmt {
        Statement::Return(value) => match value {
            Some(v) => {
                let mut text = String::from_str("return ");
                emit_expr(&mut text, v);
                push_line(out, indent, text.as_str());
            },
            None => {
                push_line(out, indent, "return");
            },
        },
        _ => {},
    }
}

/// Appends the line that opens a block: a keyword, an expression, a colon.
fn emit_opening(out: &mut String, indent: &str, keyword: &str, expr: &Expression)
    ensures
        final(out)@ == old(out)@ + line(indent@, keyword@ + render_expr(expr@) + ":"@),
{
    let mut text = String::from_str(keyword);
    emit_expr(&mut text, expr);
    text.append(":");
    push_line(out, indent, text.as_str());
}

fn emit_if(out: &mut String, stmt: &Statement, indent: &str)
    requires
        stmt is If,
    ensures
        final(out)@ == old(out)@ + render_stmt(stmt@, indent@),
    decreases stmt, 0nat,
{
    match stmt {
        Statement::If { condition, then_branch, else_branch } => {
            let inner = deeper_indent(indent);
            emit_opening(out, indent, "if ", condition);
            emit_block(out, then_branch, inner.as_str());
            let ghost before_else = out@;
            match else_branch {
                Some(statements) => {
                    push_line(out, indent, "else:");
                    emit_block(out, statements, inner.as_str());
                    assert(out@ =~= before_else + (line(indent@, "else:"@) + render_block(
                        statements_view(statements@),
                        deeper(indent@),
                    )));
                },
                None => {
                    assert(out@ =~= before_else + Seq::<char>::empty());
                },
            }
            assert(out@ =~= old(out)@ + render_stmt(stmt@, indent@));
        },
        _ => {},
    }
}

fn emit_while(out: &mut String, stmt: &Statement, indent: &str)
    requires
        stmt is While,
    ensures
        final(out)@ == old(out)@ + render_stmt(stmt@, indent@),
    decreases stmt, 0nat,
{
    match stmt {
        Statement::While { condition, body } => {
            let inner = deeper_indent(indent);
            emit_opening(out, indent, "while ", condition);
            emit_block(out, body, inner.as_str());
            assert(out@ =~= old(out)@ + render_stmt(stmt@, indent@));
        },
        _ => {},
    }
}

fn emit_for(out: &mut String, stmt: &Statement, indent: &str)
    requires
        stmt is For,
    ensures
        final(out)@ == old(out)@ + render_stmt(stmt@, indent@),
    decreases stmt, 0nat,
{
    match stmt {
        Statement::For { pattern, iterator, body } => {
            let inner = deeper_indent(indent);
            let mut keyword = String::from_str("for ");
            keyword.append(pattern.as_str());
            keyword.append(" in ");
            emit_opening(out, indent, keyword.as_str(), iterator);
            emit_block(out, body, inner.as_str());
            assert(keyword@ + render_expr(iterator@) + ":"@ =~= "for "@ + pattern@ + " in "@
                + render_expr(iterator@) + ":"@);
            assert(out@ =~= old(out)@ + render_stmt(stmt@, indent@));
        },
        _ => {},
    }
}

fn emit_match(out: &mut String, stmt: &Statement, indent: &str)
    requires
        stmt is Match,
    ensures
        final(out)@ == old(out)@ + render_stmt(stmt@, indent@),
    decreases stmt, 0nat,
{
    match stmt {
        Statement::Match { expr, arms } => {
            if arms.len() == 0 {
                push_line(out, indent, "pass");
            } else {
                let mut subject = String::new();
                emit_expr(&mut subject, expr);
                assert(subject@ =~= render_expr(expr@));
                emit_arms(out, subject.as_str(), arms, indent);
            }
        },
        _ => {},
    }
}

fn emit_arm_condition(out: &mut String, subject: &str, arm: &MatchArm)
    ensures
        final(out)@ == old(out)@ + arm_condition(subject@, arm@.pattern, arm@.guard),
{
    match &arm.pattern {
        Pattern::Wildcard => {
            out.append("True");
        },
        Pattern::Identifier(name) => {
            out.append("True");
        },
        _ => {
            out.append(subject);
            out.append(" == ");
            emit_pattern(out, &arm.pattern);
            assert(out@ =~= old(out)@ + (subject@ + " == "@ + render_pattern(arm.pattern@)));
        },
    }
    let ghost matched = out@;
    match &arm.guard {
        Some(g) => {
            out.append(" and ");
            emit_expr(out, g);
            assert(out@ =~= matched + (" and "@ + render_expr(g@)));
        },
        None => {
            assert(out@ =~= matched + Seq::<char>::empty());
        },
    }
    assert(out@ =~= old(out)@ + arm_condition(subject@, arm@.pattern, arm@.guard));
}

fn emit_arm(out: &mut String, subject: &str, arm: &MatchArm, first: bool, indent: &str)
    ensures
        final(out)@ == old(out)@ + render_arm(subject@, arm@, first, indent@),
    decreases arm, 0nat,
{
    let inner = deeper_indent(indent);
    let mut text = if first {
        String::from_str("if ")
    } else {
        String::from_str("elif ")
    };
    emit_arm_condition(&mut text, subject, arm);
    text.append(":");
    push_line(out, indent, text.as_str());
    emit_block(out, &arm.body, inner.as_str());
    assert(out@ =~= old(out)@ + render_arm(subject@, arm@, first, indent@));
}

fn emit_arms(out: &mut String, subject: &str, arms: &Vec<MatchArm>, indent: &str)
    ensures
        final(out)@ == old(out)@ + concat_text(
            rendered_arms(subject@, match_arms_view(arms@), indent@),
        ),
    decreases arms, 0nat,
{
    let ghost base = out@;
    let ghost parts = rendered_arms(subject@, match_arms_view(arms@), indent@);
    let mut i: usize = 0;
    assert(out@ =~= base + concat_text(parts.take(0)));
    while i < arms.len()
        invariant
            i <= arms.len(),
            parts == rendered_arms(subject@, match_arms_view(arms@), indent@),
            out@ == base + concat_text(parts.take(i as int)),
        decreases arms.len() - i,
    {
        emit_arm(out, subject, &arms[i], i == 0, indent);
        proof {
            lemma_concat_step(parts, i as int);
            assert(parts[i as int] == render_arm(subject@, arms[i as int]@, i == 0, indent@));
            assert(out@ =~= base + concat_text(parts.take(i + 1)));
        }
        i += 1;
    }
    assert(parts.take(arms.len() as int) =~= parts);
}

fn emit_block(out: &mut String, stmts: &Vec<Statement>, indent: &str)
    ensures
        final(out)@ == old(out)@ + render_block(statements_view(stmts@), indent@),
    decreases stmts, 0nat,
{
    if stmts.len() == 0 {
        push_line(out, indent, "pass");
        return ;
    }
    let ghost base = out@;
    let ghost parts = rendered_stmts(statements_view(stmts@), indent@);
    let mut i: usize = 0;
    assert(out@ =~= base + concat_text(parts.take(0)));
    while i < stmts.len()
        invariant
            i <= stmts.len(),
            parts == rendered_stmts(statements_view(stmts@), indent@),
            out@ == base + concat_text(parts.take(i as int)),
        decreases stmts.len() - i,
    {
        emit_stmt(out, &stmts[i], indent);
        proof {
            lemma_concat_step(parts, i as int);
            assert(parts[i as int] == render_stmt(stmts[i as int]@, indent@));
            assert(out@ =~= base + concat_text(parts.take(i + 1)));
        }
        i += 1;
    }
    assert(parts.take(stmts.len() as int) =~= parts);
}

/// The text of a parameter: `owned` where it is mutable, the name, a colon,
/// the type.
pub open spec fn render_param(param: ParameterView) -> Seq<char> {
    (if param.mutable {
        "owned "@
    } else {
        Seq::empty()
    }) + param.name + ": "@ + render_type(param.type_)
}

/// The text of each parameter of a sequence, in order.
pub open spec fn rendered_params(params: Seq<ParameterView>) -> Seq<Seq<char>> {
    Seq::new(params.len(), |i: int| render_param(params[i]))
}

/// The signature line of a function. The entry point `main` always gets the
/// signature `fn main():`; any other function keeps its name, parameters
/// and return type.
pub open spec fn render_signature(f: FunctionView) -> Seq<char> {
    if f.name == "main"@ {
        "fn main():"@
    } else {
        "fn "@ + f.name + "("@ + join_text(rendered_params(f.parameters), ", "@) + ")"@ + (
        match f.return_type {
            Some(t) => " -> "@ + render_type(t),
            None => Seq::empty(),
        }) + ":"@
    }
}

/// The lines of a function: the signature, then the body one level further
/// in.
pub open spec fn render_function(f: FunctionView, indent: Seq<char>) -> Seq<char> {
    line(indent, render_signature(f)) + render_block(f.body, deeper(indent))
}

/// The line of a field of a struct.
pub open spec fn render_field(field: FieldView, indent: Seq<char>) -> Seq<char> {
    line(indent, "var "@ + field.name + ": "@ + render_type(field.type_))
}

/// The lines of a struct: its name, then its fields one level further in, or
/// `pass` where it has none.
pub open spec fn render_struct(s: StructView, indent: Seq<char>) -> Seq<char> {
    line(indent, "struct "@ + s.name + ":"@) + (if s.fields.len() == 0 {
        line(deeper(indent), "pass"@)
    } else {
        concat_text(Seq::new(s.fields.len(), |i: int| render_field(s.fields[i], deeper(indent))))
    })
}

/// The line of a variant of an enum: a named constant that holds the
/// variant's position.
pub open spec fn render_variant(variant: VariantView, position: nat, indent: Seq<char>) -> Seq<
    char,
> {
    line(indent, "alias "@ + variant.name + " = "@ + decimal_text(position))
}

/// The lines of an enum: a struct that names each variant's position, or
/// `pass` where it has none.
pub open spec fn render_enum(e: EnumView, indent: Seq<char>) -> Seq<char> {
    line(indent, "struct "@ + e.name + ":"@) + (if e.variants.len() == 0 {
        line(deeper(indent), "pass"@)
    } else {
        concat_text(
            Seq::new(
                e.variants.len(),
                |i: int| render_variant(e.variants[i], i as nat, deeper(indent)),
            ),
        )
    })
}

/// The line of a constant.
pub open spec fn render_const(c: ConstView, indent: Seq<char>) -> Seq<char> {
    line(indent, "alias "@ + c.name + ": "@ + render_type(c.type_) + " = "@ + render_expr(c.value))
}

/// The line of a static variable.
pub open spec fn render_static(s: StaticView, indent: Seq<char>) -> Seq<char> {
    line(indent, "var "@ + s.name + ": "@ + render_type(s.type_) + " = "@ + render_expr(s.value))
}

/// The line of a type alias.
pub open spec fn render_type_alias(t: TypeAliasView, indent: Seq<char>) -> Seq<char> {
    line(indent, "alias "@ + t.name + " = "@ + render_type(t.type_))
}

/// The lines of a member of an implementation block.
pub open spec fn render_impl_item(item: ImplItemView, indent: Seq<char>) -> Seq<char> {
    match item {
        ImplItemView::Function(f) => render_function(f, indent),
        ImplItemView::Const(c) => render_const(c, indent),
        ImplItemView::Type(t) => render_type_alias(t, indent),
    }
}

/// The comment line that opens an implementation block.
pub open spec fn render_impl_heading(i: ImplView) -> Seq<char> {
    "# impl "@ + (match i.trait_ {
        Some(t) => render_type(t) + " for "@,
        None => Seq::empty(),
    }) + render_type(i.target_type)
}

/// The lines of an implementation block: a comment that names it, then its
/// members in order.
pub open spec fn render_impl(i: ImplView, indent: Seq<char>) -> Seq<char> {
    line(indent, render_impl_heading(i)) + concat_text(
        Seq::new(i.items.len(), |k: int| render_impl_item(i.items[k], indent)),
    )
}

/// The line of an import: a comment that holds its text.
pub open spec fn render_use(u: UseView, indent: Seq<char>) -> Seq<char> {
    line(indent, "# "@ + u.path)
}

/// The lines of an item. A module is a comment that names it, followed by
/// its items.
pub open spec fn render_item(item: ItemView, indent: Seq<char>) -> Seq<char>
    decreases item, 0nat,
{
    match item {
        ItemView::Function(f) => render_function(f, indent),
        ItemView::Struct(s) => render_struct(s, indent),
        ItemView::Enum(e) => render_enum(e, indent),
        ItemView::Impl(i) => render_impl(i, indent),
        ItemView::Use(u) => render_use(u, indent),
        ItemView::Mod(m) => line(indent, "# mod "@ + m.name) + render_items(m.items, indent),
        ItemView::Const(c) => render_const(c, indent),
        ItemView::Static(s) => render_static(s, indent),
        ItemView::Type(t) => render_type_alias(t, indent),
    }
}

/// The lines of each item of a sequence, in order, each followed by an empty
/// line.
pub open spec fn rendered_items(items: Seq<ItemView>, indent: Seq<char>) -> Seq<Seq<char>>
    decreases items, 0nat,
{
    Seq::new(
        items.len(),
        |i: int|
            if 0 <= i < items.len() {
                render_item(items[i], indent) + "\n"@
            } else {
                Seq::empty()
            },
    )
}

/// The lines of a sequence of items: declaration order is kept.
pub open spec fn render_items(items: Seq<ItemView>, indent: Seq<char>) -> Seq<char>
    decreases items, 1nat,
{
    concat_text(rendered_items(items, indent))
}

/// The line that every output begins with.
pub open spec fn header_line() -> Seq<char> {
    "# Generated Mojo code\n"@
}

/// The import that every output holds.
pub open spec fn import_line() -> Seq<char> {
    "from memory import UnsafePointer\n"@
}

/// The text of a unit: the header line, the import line, an empty line, then
/// the items in declaration order.
pub open spec fn render_unit(unit: CompilationUnitView) -> Seq<char> {
    header_line() + import_line() + "\n"@ + render_items(unit.items, Seq::empty())
}

/// Whether a text holds one of the markers that are reserved for unfinished
/// work.
pub open spec fn has_marker(text: Seq<char>) -> bool {
    occurs_in("TODO"@, text) || occurs_in("FIXME"@, text)
}

/// What emission makes of a unit: its text, or a failure where the text
/// would hold a reserved marker.
pub open spec fn emitted(unit: CompilationUnitView) -> Result<Seq<char>, ErrorView> {
    if has_marker(render_unit(unit)) {
        Err(ErrorView::CodegenError("the output would hold a reserved marker"@))
    } else {
        Ok(render_unit(unit))
    }
}

/// The view of the outcome of emission.
pub open spec fn text_outcome_view(outcome: Result<String, Error>) -> Result<
    Seq<char>,
    ErrorView,
> {
    match outcome {
        Ok(text) => Ok(text@),
        Err(err) => Err(err@),
    }
}

fn emit_params(out: &mut String, params: &Vec<Parameter>)
    ensures
        final(out)@ == old(out)@ + join_text(rendered_params(parameters_view(params@)), ", "@),
{
    let ghost base = out@;
    let ghost parts = rendered_params(parameters_view(params@));
    let mut i: usize = 0;
    assert(out@ =~= base + join_text(parts.take(0), ", "@));
    while i < params.len()
        invariant
            i <= params.len(),
            parts == rendered_params(parameters_view(params@)),
            out@ == base + join_text(parts.take(i as int), ", "@),
        decreases params.len() - i,
    {
        if i > 0 {
            out.append(", ");
        }
        let ghost start = out@;
        if params[i].mutable {
            out.append("owned ");
        }
        out.append(params[i].name.as_str());
        out.append(": ");
        emit_type(out, &params[i].type_);
        proof {
            lemma_join_step(parts, ", "@, i as int);
            assert(parts[i as int] == render_param(params[i as int]@));
            assert(out@ =~= start + render_param(params[i as int]@));
            assert(out@ =~= base + join_text(parts.take(i + 1), ", "@));
        }
        i += 1;
    }
    assert(parts.take(params.len() as int) =~= parts);
}

fn emit_signature(out: &mut String, f: &Function)
    ensures
        final(out)@ == old(out)@ + render_signature(f@),
{
    if same_text(f.name.as_str(), "main") {
        out.append("fn main():");
        return ;
    }
    out.append("fn ");
    out.append(f.name.as_str());
    out.append("(");
    emit_params(out, &f.parameters);
    out.append(")");
    let ghost closed = out@;
    match &f.return_type {
        Some(t) => {
            out.append(" -> ");
            emit_type(out, t);
            assert(out@ =~= closed + (" -> "@ + render_type(t@)));
        },
        None => {
            assert(out@ =~= closed + Seq::<char>::empty());
        },
    }
    out.append(":");
    assert(out@ =~= old(out)@ + render_signature(f@));
}

fn emit_function(out: &mut String, f: &Function, indent: &str)
    ensures
        final(out)@ == old(out)@ + render_function(f@, indent@),
{
    let inner = deeper_indent(indent);
    let mut text = String::new();
    emit_signature(&mut text, f);
    assert(text@ =~= render_signature(f@));
    push_line(out, indent, text.as_str());
    emit_block(out, &f.body, inner.as_str());
    assert(out@ =~= old(out)@ + render_function(f@, indent@));
}

fn emit_field(out: &mut String, field: &Field, indent: &str)
    ensures
        final(out)@ == old(out)@ + render_field(field@, indent@),
{
    let mut text = String::from_str("var ");
    text.append(field.name.as_str());
    text.append(": ");
    emit_type(&mut text, &field.type_);
    push_line(out, indent, text.as_str());
}

fn emit_struct(out: &mut String, s: &Struct, indent: &str)
    ensures
        final(out)@ == old(out)@ + render_struct(s@, indent@),
{
    let inner = deeper_indent(indent);
    let mut text = String::from_str("struct ");
    text.append(s.name.as_str());
    text.append(":");
    push_line(out, indent, text.as_str());
    let ghost base = out@;
    if s.fields.len() == 0 {
        push_line(out, inner.as_str(), "pass");
    } else {
        let ghost parts = Seq::new(
            s@.fields.len(),
            |i: int| render_field(s@.fields[i], deeper(indent@)),
        );
        let mut i: usize = 0;
        assert(out@ =~= base + concat_text(parts.take(0)));
        while i < s.fields.len()
            invariant
                i <= s.fields.len(),
                inner@ == deeper(indent@),
                parts == Seq::new(
                    s@.fields.len(),
                    |i: int| render_field(s@.fields[i], deeper(indent@)),
                ),
                out@ == base + concat_text(parts.take(i as int)),
            decreases s.fields.len() - i,
        {
            emit_field(out, &s.fields[i], inner.as_str());
            proof {
                lemma_concat_step(parts, i as int);
                assert(out@ =~= base + concat_text(parts.take(i + 1)));
            }
            i += 1;
        }
        assert(parts.take(s.fields.len() as int) =~= parts);
    }
    assert(out@ =~= old(out)@ + render_struct(s@, indent@));
}

fn emit_variant(out: &mut String, variant: &Variant, position: usize, indent: &str)
    ensures
        final(out)@ == old(out)@ + render_variant(variant@, position as nat, indent@),
{
    let mut text = String::from_str("alias ");
    text.append(variant.name.as_str());
    text.append(" = ");
    push_decimal(&mut text, position as u64);
    push_line(out, indent, text.as_str());
}

fn emit_enum(out: &mut String, e: &Enum, indent: &str)
    ensures
        final(out)@ == old(out)@ + render_enum(e@, indent@),
{
    let inner = deeper_indent(indent);
    let mut text = String::from_str("struct ");
    text.append(e.name.as_str());
    text.append(":");
    push_line(out, indent, text.as_str());
    let ghost base = out@;
    if e.variants.len() == 0 {
        push_line(out, inner.as_str(), "pass");
    } else {
        let ghost parts = Seq::new(
            e@.variants.len(),
            |i: int| render_variant(e@.variants[i], i as nat, deeper(indent@)),
        );
        let mut i: usize = 0;
        assert(out@ =~= base + concat_text(parts.take(0)));
        while i < e.variants.len()
            invariant
                i <= e.variants.len(),
                inner@ == deeper(indent@),
                parts == Seq::new(
                    e@.variants.len(),
                    |i: int| render_variant(e@.variants[i], i as nat, deeper(indent@)),
                ),
                out@ == base + concat_text(parts.take(i as int)),
            decreases e.variants.len() - i,
        {
            emit_variant(out, &e.variants[i], i, inner.as_str());
            proof {
                lemma_concat_step(parts, i as int);
                assert(out@ =~= base + concat_text(parts.take(i + 1)));
            }
            i += 1;
        }
        assert(parts.take(e.variants.len() as int) =~= parts);
    }
    assert(out@ =~= old(out)@ + render_enum(e@, indent@));
}

/// Appends a line that binds a name with a type to a value.
fn emit_binding(
    out: &mut String,
    keyword: &str,
    name: &str,
    type_: &Type,
    value: &Expression,
    indent: &str,
)
    ensures
        final(out)@ == old(out)@ + line(
            indent@,
            keyword@ + name@ + ": "@ + render_type(type_@) + " = "@ + render_expr(value@),
        ),
{
    let mut text = String::from_str(keyword);
    text.append(name);
    text.append(": ");
    emit_type(&mut text, type_);
    text.append(" = ");
    emit_expr(&mut text, value);
    push_line(out, indent, text.as_str());
}

fn emit_const(out: &mut String, c: &Const, indent: &str)
    ensures
        final(out)@ == old(out)@ + render_const(c@, indent@),
{
    emit_binding(out, "alias ", c.name.as_str(), &c.type_, &c.value, indent);
}

fn emit_static(out: &mut String, s: &Static, indent: &str)
    ensures
        final(out)@ == old(out)@ + render_static(s@, indent@),
{
    emit_binding(out, "var ", s.name.as_str(), &s.type_, &s.value, indent);
}

fn emit_type_alias(out: &mut String, t: &TypeAlias, indent: &str)
    ensures
        final(out)@ == old(out)@ + render_type_alias(t@, indent@),
{
    let mut text = String::from_str("alias ");
    text.append(t.name.as_str());
    text.append(" = ");
    emit_type(&mut text, &t.type_);
    push_line(out, indent, text.as_str());
}

fn emit_impl_item(out: &mut String, item: &ImplItem, indent: &str)
    ensures
        final(out)@ == old(out)@ + render_impl_item(item@, indent@),
{
    match item {
        ImplItem::Function(f) => emit_function(out, f, indent),
        ImplItem::Const(c) => emit_const(out, c, indent),
        ImplItem::Type(t) => emit_type_alias(out, t, indent),
    }
}

fn emit_impl_heading(out: &mut String, i: &Impl)
    ensures
        final(out)@ == old(out)@ + render_impl_heading(i@),
{
    out.append("# impl ");
    let ghost opened = out@;
    match &i.trait_ {
        Some(t) => {
            emit_type(out, t);
            out.append(" for ");
            assert(out@ =~= opened + (render_type(t@) + " for "@));
        },
        None => {
            assert(out@ =~= opened + Seq::<char>::empty());
        },
    }
    emit_type(out, &i.target_type);
    assert(out@ =~= old(out)@ + render_impl_heading(i@));
}

fn emit_impl(out: &mut String, i: &Impl, indent: &str)
    ensures
        final(out)@ == old(out)@ + render_impl(i@, indent@),
{
    let mut text = String::new();
    emit_impl_heading(&mut text, i);
    assert(text@ =~= render_impl_heading(i@));
    push_line(out, indent, text.as_str());
    let ghost base = out@;
    let ghost parts = Seq::new(i@.items.len(), |k: int| render_impl_item(i@.items[k], indent@));
    let mut k: usize = 0;
    assert(out@ =~= base + concat_text(parts.take(0)));
    while k < i.items.len()
        invariant
            k <= i.items.len(),
            parts == Seq::new(i@.items.len(), |k: int| render_impl_item(i@.items[k], indent@)),
            out@ == base + concat_text(parts.take(k as int)),
        decreases i.items.len() - k,
    {
        emit_impl_item(out, &i.items[k], indent);
        proof {
            lemma_concat_step(parts, k as int);
            assert(out@ =~= base + concat_text(parts.take(k + 1)));
        }
        k += 1;
    }
    assert(parts.take(i.items.len() as int) =~= parts);
    assert(out@ =~= old(out)@ + render_impl(i@, indent@));
}

fn emit_use(out: &mut String, u: &Use, indent: &str)
    ensures
        final(out)@ == old(out)@ + render_use(u@, indent@),
{
    let mut text = String::from_str("# ");
    text.append(u.path.as_str());
    push_line(out, indent, text.as_str());
}

fn emit_item(out: &mut String, item: &Item, indent: &str)
    ensures
        final(out)@ == old(out)@ + render_item(item@, indent@),
    decreases item, 0nat,
{
    match item {
        Item::Function(f) => emit_function(out, f, indent),
        Item::Struct(s) => emit_struct(out, s, indent),
        Item::Enum(e) => emit_enum(out, e, indent),
        Item::Impl(i) => emit_impl(out, i, indent),
        Item::Use(u) => emit_use(out, u, indent),
        Item::Mod(m) => {
            let mut text = String::from_str("# mod ");
            text.append(m.name.as_str());
            push_line(out, indent, text.as_str());
            emit_items(out, &m.items, indent);
            assert(out@ =~= old(out)@ + render_item(item@, indent@));
        },
        Item::Const(c) => emit_const(out, c, indent),
        Item::Static(s) => emit_static(out, s, indent),
        Item::Type(t) => emit_type_alias(out, t, indent),
    }
}

fn emit_items(out: &mut String, items: &Vec<Item>, indent: &str)
    ensures
        final(out)@ == old(out)@ + render_items(items_view(items@), indent@),
    decreases items, 1nat,
{
    let ghost base = out@;
    let ghost parts = rendered_items(items_view(items@), indent@);
    let mut i: usize = 0;
    assert(out@ =~= base + concat_text(parts.take(0)));
    while i < items.len()
        invariant
            i <= items.len(),
            parts == rendered_items(items_view(items@), indent@),
            out@ == base + concat_text(parts.take(i as int)),
        decreases items.len() - i,
    {
        emit_item(out, &items[i], indent);
        out.append("\n");
        proof {
            lemma_concat_step(parts, i as int);
            assert(parts[i as int] == render_item(items[i as int]@, indent@) + "\n"@);
            assert(out@ =~= base + concat_text(parts.take(i + 1)));
        }
        i += 1;
    }
    assert(parts.take(items.len() as int) =~= parts);
}

/// Emission keeps declaration order: the text of two runs of items, one
/// after the other, is the text of the first run followed by that of the
/// second. Nothing is reordered and nothing is grouped by kind.
pub proof fn lemma_emission_keeps_order(
    first: Seq<ItemView>,
    second: Seq<ItemView>,
    indent: Seq<char>,
)
    ensures
        render_items(first + second, indent) == render_items(first, indent) + render_items(
            second,
            indent,
        ),
{
    assert(rendered_items(first + second, indent) =~= rendered_items(first, indent)
        + rendered_items(second, indent));
    lemma_concat_append(rendered_items(first, indent), rendered_items(second, indent));
}

/// A function named `main` gets the canonical signature of the entry point,
/// whatever its parameters and return type.
pub proof fn lemma_entry_point_signature(f: FunctionView)
    requires
        f.name == "main"@,
    ensures
        render_signature(f) == "fn main():"@,
{
}

/// A function with an empty body is its signature line followed by a single
/// `pass` one level further in.
pub proof fn lemma_empty_body_is_pass(f: FunctionView, indent: Seq<char>)
    requires
        f.body.len() == 0,
    ensures
        render_function(f, indent) == line(indent, render_signature(f)) + line(
            deeper(indent),
            "pass"@,
        ),
{
}

/// The table of primitive types maps the 32-bit and 64-bit signed integers,
/// the two floating-point types and the boolean type to their Mojo names.
pub proof fn lemma_type_table()
    ensures
        mapped_type_name("i32"@) == "Int32"@,
        mapped_type_name("i64"@) == "Int64"@,
        mapped_type_name("f32"@) == "Float32"@,
        mapped_type_name("f64"@) == "Float64"@,
        mapped_type_name("bool"@) == "Bool"@,
{
    reveal_strlit("i8");
    reveal_strlit("i16");
    reveal_strlit("i32");
    reveal_strlit("i64");
    reveal_strlit("u8");
    reveal_strlit("u16");
    reveal_strlit("u32");
    reveal_strlit("u64");
    reveal_strlit("isize");
    reveal_strlit("usize");
    reveal_strlit("f32");
    reveal_strlit("f64");
    reveal_strlit("bool");
    assert("i32"@.len() == 3 && "i32"@[0] == 'i' && "i32"@[1] == '3' && "i32"@[2] == '2');
    assert("i64"@.len() == 3 && "i64"@[0] == 'i' && "i64"@[1] == '6');
    assert("f32"@.len() == 3 && "f32"@[0] == 'f' && "f32"@[1] == '3');
    assert("f64"@.len() == 3 && "f64"@[0] == 'f' && "f64"@[1] == '6');
    assert("bool"@.len() == 4 && "bool"@[0] == 'b');
    assert("i8"@.len() == 2 && "u8"@.len() == 2);
    assert("i16"@[1] == '1' && "u16"@[0] == 'u' && "u32"@[0] == 'u' && "u64"@[0] == 'u');
    assert("isize"@.len() == 5 && "usize"@.len() == 5);
}

/// A concatenation of parts that each end with a line feed is empty or ends
/// with a line feed.
pub proof fn lemma_concat_ends_with_line_feed(parts: Seq<Seq<char>>)
    requires
        forall|i: int|
            0 <= i < parts.len() ==> (#[trigger] parts[i]).len() > 0 && parts[i].last() == '\n',
    ensures
        concat_text(parts).len() == 0 || concat_text(parts).last() == '\n',
    decreases parts.len(),
{
    if parts.len() > 0 {
        assert(parts.last().len() > 0 && parts.last().last() == '\n');
        assert(concat_text(parts).last() == parts.last().last());
    }
}

/// Every rendered unit begins with the header line, holds the import line,
/// and ends with a line feed.
pub proof fn lemma_output_structure(unit: CompilationUnitView)
    ensures
        is_prefix_of(header_line(), render_unit(unit)),
        occurs_in(import_line(), render_unit(unit)),
        render_unit(unit).len() > 0,
        render_unit(unit).last() == '\n',
{
    reveal_strlit("\n");
    let text = render_unit(unit);
    let items = render_items(unit.items, Seq::empty());
    assert(text.subrange(0, header_line().len() as int) =~= header_line());
    assert(text.subrange(
        header_line().len() as int,
        (header_line().len() + import_line().len()) as int,
    ) =~= import_line());
    assert(occurs_at(import_line(), text, header_line().len() as int));
    let parts = rendered_items(unit.items, Seq::empty());
    assert forall|i: int| 0 <= i < parts.len() implies (#[trigger] parts[i]).len() > 0
        && parts[i].last() == '\n' by {
        assert(parts[i] == render_item(unit.items[i], Seq::empty()) + "\n"@);
    }
    lemma_concat_ends_with_line_feed(parts);
    assert(text =~= (header_line() + import_line() + "\n"@) + items);
    if items.len() == 0 {
        assert(text.last() == '\n');
    } else {
        assert(text.last() == items.last());
    }
}

/// Renders a unit as Mojo text. The text is a function of the unit alone. It
/// is handed out unless it would hold one of the reserved markers, in which
/// case emission fails. Text that is handed out begins with the header line,
/// holds the import line, ends with a line feed and holds no reserved
/// marker.
pub fn generate_mojo(unit: &CompilationUnit) -> (r: Result<String, Error>)
    ensures
        text_outcome_view(r) == emitted(unit@),
        r matches Ok(text) ==> {
            &&& is_prefix_of(header_line(), text@)
            &&& occurs_in(import_line(), text@)
            &&& text@.len() > 0 && text@.last() == '\n'
            &&& !occurs_in("TODO"@, text@)
            &&& !occurs_in("FIXME"@, text@)
        },
{
    let mut out = String::from_str("# Generated Mojo code\n");
    out.append("from memory import UnsafePointer\n");
    out.append("\n");
    emit_items(&mut out, &unit.items, "");
    proof {
        assert(""@ =~= Seq::<char>::empty()) by {
            reveal_strlit("");
        }
        assert(out@ =~= render_unit(unit@));
        lemma_output_structure(unit@);
    }
    if contains_text(out.as_str(), "TODO") || contains_text(out.as_str(), "FIXME") {
        Err(Error::CodegenError(String::from_str("the output would hold a reserved marker")))
    } else {
        Ok(out)
    }
}

} // verus!
