//! The boundary with the `syn` parser.
//!
//! A tree that `syn` has parsed is opaque to the verifier. This module gives
//! each kind of node a mathematical description (`ExprSyntax`, `TypeSyntax`
//! and so on) that holds exactly what lowering reads from it, and a small
//! set of accessors that hand out a node's parts one level at a time. Every
//! accessor is trusted: its contract says how the parts it hands out make up
//! the description of the node it was given, and nothing here is proved.

use crate::text::texts_view;
use quote::ToTokens;
use syn::Error as SynError;
use syn::Field as SynField;
use syn::ImplItem as SynImplItem;
use syn::Item as SynItem;
use syn::Type as SynType;
use syn::Visibility as SynVisibility;
use syn::{Expr, Fields, File, FnArg, Lit, Pat, Path, Signature, Stmt};
use vstd::prelude::*;

verus! {

/// `syn::File`, a parsed source file. Values of it are carried through
/// unopened.
#[verifier::external_type_specification]
#[verifier::external_body]
pub struct ExFile(File);

/// `syn::Item`, a declaration. Values of it are carried through unopened.
#[verifier::external_type_specification]
#[verifier::external_body]
pub struct ExSynItem(SynItem);

/// `syn::ImplItem`, a member of an implementation block. Values of it are
/// carried through unopened.
#[verifier::external_type_specification]
#[verifier::external_body]
pub struct ExSynImplItem(SynImplItem);

/// `syn::Signature`, the signature of a function. Values of it are carried
/// through unopened.
#[verifier::external_type_specification]
#[verifier::external_body]
pub struct ExSignature(Signature);

/// `syn::FnArg`, an argument of a function. Values of it are carried through
/// unopened.
#[verifier::external_type_specification]
#[verifier::external_body]
pub struct ExFnArg(FnArg);

/// `syn::Pat`, a pattern. Values of it are carried through unopened.
#[verifier::external_type_specification]
#[verifier::external_body]
pub struct ExPat(Pat);

/// `syn::Stmt`, a statement. Values of it are carried through unopened.
#[verifier::external_type_specification]
#[verifier::external_body]
pub struct ExStmt(Stmt);

/// `syn::Expr`, an expression. Values of it are carried through unopened.
#[verifier::external_type_specification]
#[verifier::external_body]
pub struct ExExpr(Expr);

/// `syn::Lit`, a literal. Values of it are carried through unopened.
#[verifier::external_type_specification]
#[verifier::external_body]
pub struct ExLit(Lit);

/// `syn::Type`, a type. Values of it are carried through unopened.
#[verifier::external_type_specification]
#[verifier::external_body]
pub struct ExSynType(SynType);

/// `syn::Path`, a path. Values of it are carried through unopened.
#[verifier::external_type_specification]
#[verifier::external_body]
pub struct ExPath(Path);

/// `syn::Visibility`, the visibility of a declaration or a field. Values of it
/// are carried through unopened.
#[verifier::external_type_specification]
#[verifier::external_body]
pub struct ExSynVisibility(SynVisibility);

/// `syn::Fields`, the fields of a struct. Values of it are carried through
/// unopened.
#[verifier::external_type_specification]
#[verifier::external_body]
pub struct ExFields(Fields);

/// `syn::Field`, one field of a struct. Values of it are carried through
/// unopened.
#[verifier::external_type_specification]
#[verifier::external_body]
pub struct ExSynField(SynField);

/// `syn::Error`, a syntax error. Values of it are carried through unopened.
#[verifier::external_type_specification]
#[verifier::external_body]
pub struct ExSynError(SynError);

/// How a visibility is written: `pub`, `pub(...)`, or nothing.
#[derive(Debug, Clone, Copy, PartialEq, Eq, Structural)]
pub enum VisibilitySyntax {
    Public,
    Restricted,
    Inherited,
}

/// A path: the identifiers of its segments, and whether it is a single bare
/// identifier (one segment, no leading `::`, no arguments).
pub struct PathSyntax {
    pub segments: Seq<Seq<char>>,
    pub single: bool,
}

/// A literal. An integer literal is described by what its decimal digits
/// parse to, as an `i64` and as a `usize`, where they fit; a floating-point
/// literal by its decimal digits.
pub enum LiteralSyntax {
    Str(Seq<char>),
    Int { value: Option<i64>, size: Option<usize> },
    Float(Seq<char>),
    Bool(bool),
    Char(char),
    Other,
}

/// A pattern: a plain identifier binding, a pattern with a type annotation,
/// or anything else.
pub enum PatternSyntax {
    Ident { name: Seq<char>, mutable: bool },
    Typed { pat: Box<PatternSyntax>, ty: Box<TypeSyntax> },
    Other,
}

/// A type as written.
pub enum TypeSyntax {
    Path(PathSyntax),
    Reference { mutable: bool, elem: Box<TypeSyntax> },
    Pointer { mutable: bool, elem: Box<TypeSyntax> },
    Array { elem: Box<TypeSyntax>, len: Box<ExprSyntax> },
    Slice(Box<TypeSyntax>),
    Tuple(Seq<TypeSyntax>),
    Other,
}

/// An expression as written. `op` is the operator's text.
pub enum ExprSyntax {
    Lit(LiteralSyntax),
    Path(PathSyntax),
    Binary { left: Box<ExprSyntax>, op: Seq<char>, right: Box<ExprSyntax> },
    Call { func: Box<ExprSyntax>, args: Seq<ExprSyntax> },
    Return(Option<Box<ExprSyntax>>),
    If {
        cond: Box<ExprSyntax>,
        then_branch: Seq<StmtSyntax>,
        else_branch: Option<Box<ExprSyntax>>,
    },
    Block(Seq<StmtSyntax>),
    Assign { left: Box<ExprSyntax>, right: Box<ExprSyntax> },
    Field { base: Box<ExprSyntax>, member: Option<Seq<char>> },
    Index,
    Unary,
    While { cond: Box<ExprSyntax>, body: Seq<StmtSyntax> },
    ForLoop { pat: PatternSyntax, iter: Box<ExprSyntax>, body: Seq<StmtSyntax> },
    Other,
}

/// A statement as written.
pub enum StmtSyntax {
    Local { pat: PatternSyntax, init: Option<ExprSyntax> },
    Item,
    Expr(ExprSyntax),
    Macro,
}

/// A function argument: a pattern with its type, or a receiver.
pub enum ArgSyntax {
    Typed { pat: PatternSyntax, ty: TypeSyntax },
    Receiver,
}

/// A function signature.
pub struct SignatureSyntax {
    pub name: Seq<char>,
    pub inputs: Seq<ArgSyntax>,
    pub output: Option<TypeSyntax>,
}

/// A function: free, or a method of an implementation block.
pub struct FunctionSyntax {
    pub vis: VisibilitySyntax,
    pub sig: SignatureSyntax,
    pub body: Seq<StmtSyntax>,
}

/// A field of a struct. A field of a tuple struct has no name.
pub struct FieldSyntax {
    pub name: Option<Seq<char>>,
    pub vis: VisibilitySyntax,
    pub ty: TypeSyntax,
}

/// The fields of a struct.
pub enum FieldsSyntax {
    Named(Seq<FieldSyntax>),
    Unnamed(Seq<FieldSyntax>),
    Unit,
}

/// A member of an implementation block.
pub enum ImplItemSyntax {
    Fn(FunctionSyntax),
    Other,
}

/// A declaration. `Use` holds the text of the whole declaration as its
/// tokens print.
pub enum ItemSyntax {
    Fn(FunctionSyntax),
    Struct { name: Seq<char>, vis: VisibilitySyntax, fields: FieldsSyntax },
    Enum { name: Seq<char>, vis: VisibilitySyntax, variants: Seq<Seq<char>> },
    Impl { self_ty: TypeSyntax, trait_: Option<PathSyntax>, items: Seq<ImplItemSyntax> },
    Use { text: Seq<char>, vis: VisibilitySyntax },
    Mod { name: Seq<char>, vis: VisibilitySyntax },
    Const { name: Seq<char>, vis: VisibilitySyntax, ty: TypeSyntax, value: ExprSyntax },
    Static {
        name: Seq<char>,
        vis: VisibilitySyntax,
        mutable: bool,
        ty: TypeSyntax,
        value: ExprSyntax,
    },
    Alias { name: Seq<char>, vis: VisibilitySyntax, ty: TypeSyntax },
    Other,
}

/// A source file: its top-level declarations, in the order in which they
/// stand. What a declaration holds inside it is not part of this list.
pub struct FileSyntax {
    pub declarations: Seq<ItemSyntax>,
}

/// What `syn::parse_str::<syn::File>` makes of a text: the file, or the
/// message of the syntax error.
pub uninterp spec fn parse_outcome(source: Seq<char>) -> Result<FileSyntax, Seq<char>>;

/// The message that a `syn::Error` displays.
pub uninterp spec fn error_text(err: SynError) -> Seq<char>;

/// The description of a parsed file.
pub uninterp spec fn file_syntax(file: File) -> FileSyntax;

/// The description of a parsed declaration.
pub uninterp spec fn item_syntax(item: SynItem) -> ItemSyntax;

/// The description of a member of an implementation block.
pub uninterp spec fn impl_item_syntax(item: SynImplItem) -> ImplItemSyntax;

/// The description of a signature.
pub uninterp spec fn signature_syntax(sig: Signature) -> SignatureSyntax;

/// The description of a function argument.
pub uninterp spec fn arg_syntax(arg: FnArg) -> ArgSyntax;

/// The description of a pattern.
pub uninterp spec fn pattern_syntax(pat: Pat) -> PatternSyntax;

/// The description of a statement.
pub uninterp spec fn stmt_syntax(stmt: Stmt) -> StmtSyntax;

/// The description of an expression.
pub uninterp spec fn expr_syntax(expr: Expr) -> ExprSyntax;

/// The description of a literal.
pub uninterp spec fn literal_syntax(lit: Lit) -> LiteralSyntax;

/// The description of a type.
pub uninterp spec fn type_syntax(ty: SynType) -> TypeSyntax;

/// The description of a path.
pub uninterp spec fn path_syntax(path: Path) -> PathSyntax;

/// The description of a visibility.
pub uninterp spec fn visibility_syntax(vis: SynVisibility) -> VisibilitySyntax;

/// The description of the fields of a struct.
pub uninterp spec fn fields_syntax(fields: Fields) -> FieldsSyntax;

/// The description of one field.
pub uninterp spec fn field_syntax(field: SynField) -> FieldSyntax;

pub open spec fn items_syntax(items: Seq<&SynItem>) -> Seq<ItemSyntax> {
    Seq::new(items.len(), |i: int| item_syntax(*items[i]))
}

pub open spec fn impl_items_syntax(items: Seq<&SynImplItem>) -> Seq<ImplItemSyntax> {
    Seq::new(items.len(), |i: int| impl_item_syntax(*items[i]))
}

pub open spec fn args_syntax(args: Seq<&FnArg>) -> Seq<ArgSyntax> {
    Seq::new(args.len(), |i: int| arg_syntax(*args[i]))
}

pub open spec fn stmts_syntax(stmts: Seq<&Stmt>) -> Seq<StmtSyntax> {
    Seq::new(stmts.len(), |i: int| stmt_syntax(*stmts[i]))
}

pub open spec fn exprs_syntax(exprs: Seq<&Expr>) -> Seq<ExprSyntax> {
    Seq::new(exprs.len(), |i: int| expr_syntax(*exprs[i]))
}

pub open spec fn types_syntax(types: Seq<&SynType>) -> Seq<TypeSyntax> {
    Seq::new(types.len(), |i: int| type_syntax(*types[i]))
}

pub open spec fn field_list_syntax(fields: Seq<&SynField>) -> Seq<FieldSyntax> {
    Seq::new(fields.len(), |i: int| field_syntax(*fields[i]))
}

pub open spec fn optional_expr_syntax(expr: Option<&Expr>) -> Option<ExprSyntax> {
    match expr {
        Some(e) => Some(expr_syntax(*e)),
        None => None,
    }
}

pub open spec fn optional_boxed_expr_syntax(expr: Option<&Expr>) -> Option<Box<ExprSyntax>> {
    match expr {
        Some(e) => Some(Box::new(expr_syntax(*e))),
        None => None,
    }
}

pub open spec fn optional_type_syntax(ty: Option<&SynType>) -> Option<TypeSyntax> {
    match ty {
        Some(t) => Some(type_syntax(*t)),
        None => None,
    }
}

pub open spec fn optional_path_syntax(path: Option<&Path>) -> Option<PathSyntax> {
    match path {
        Some(p) => Some(path_syntax(*p)),
        None => None,
    }
}

pub open spec fn optional_string_view(s: Option<String>) -> Option<Seq<char>> {
    match s {
        Some(text) => Some(text@),
        None => None,
    }
}

/// The parts of a function that lowering reads.
pub struct FunctionParts<'a> {
    pub vis: &'a SynVisibility,
    pub sig: &'a Signature,
    pub body: Vec<&'a Stmt>,
}

impl<'a> FunctionParts<'a> {
    pub open spec fn view(&self) -> FunctionSyntax {
        FunctionSyntax {
            vis: visibility_syntax(*self.vis),
            sig: signature_syntax(*self.sig),
            body: stmts_syntax(self.body@),
        }
    }
}

/// One level of a statement.
pub enum StmtShape<'a> {
    Local { pat: &'a Pat, init: Option<&'a Expr> },
    Item,
    Expr(&'a Expr),
    Macro,
}

impl<'a> StmtShape<'a> {
    pub open spec fn view(&self) -> StmtSyntax {
        match self {
            StmtShape::Local { pat, init } => StmtSyntax::Local {
                pat: pattern_syntax(**pat),
                init: optional_expr_syntax(*init),
            },
            StmtShape::Item => StmtSyntax::Item,
            StmtShape::Expr(e) => StmtSyntax::Expr(expr_syntax(**e)),
            StmtShape::Macro => StmtSyntax::Macro,
        }
    }
}

/// One level of a type.
pub enum TypeShape<'a> {
    Path(&'a Path),
    Reference { mutable: bool, elem: &'a SynType },
    Pointer { mutable: bool, elem: &'a SynType },
    Array { elem: &'a SynType, len: &'a Expr },
    Slice(&'a SynType),
    Tuple(Vec<&'a SynType>),
    Other,
}

impl<'a> TypeShape<'a> {
    pub open spec fn view(&self) -> TypeSyntax {
        match self {
            TypeShape::Path(p) => TypeSyntax::Path(path_syntax(**p)),
            TypeShape::Reference { mutable, elem } => TypeSyntax::Reference {
                mutable: *mutable,
                elem: Box::new(type_syntax(**elem)),
            },
            TypeShape::Pointer { mutable, elem } => TypeSyntax::Pointer {
                mutable: *mutable,
                elem: Box::new(type_syntax(**elem)),
            },
            TypeShape::Array { elem, len } => TypeSyntax::Array {
                elem: Box::new(type_syntax(**elem)),
                len: Box::new(expr_syntax(**len)),
            },
            TypeShape::Slice(elem) => TypeSyntax::Slice(Box::new(type_syntax(**elem))),
            TypeShape::Tuple(elems) => TypeSyntax::Tuple(types_syntax(elems@)),
            TypeShape::Other => TypeSyntax::Other,
        }
    }
}

/// One level of the fields of a struct.
pub enum FieldsShape<'a> {
    Named(Vec<&'a SynField>),
    Unnamed(Vec<&'a SynField>),
    Unit,
}

impl<'a> FieldsShape<'a> {
    pub open spec fn view(&self) -> FieldsSyntax {
        match self {
            FieldsShape::Named(fields) => FieldsSyntax::Named(field_list_syntax(fields@)),
            FieldsShape::Unnamed(fields) => FieldsSyntax::Unnamed(field_list_syntax(fields@)),
            FieldsShape::Unit => FieldsSyntax::Unit,
        }
    }
}

/// Calls `syn::parse_str::<syn::File>`. The contract names the outcome: it
/// is a function of the text alone, and the file or error handed back is the
/// one that the outcome describes.
#[verifier::external_body]
pub(crate) fn parse_file(source: &str) -> (r: Result<File, SynError>)
    ensures
        match r {
            Ok(file) => parse_outcome(source@) == Ok::<FileSyntax, Seq<char>>(file_syntax(file)),
            Err(err) => parse_outcome(source@) == Err::<FileSyntax, Seq<char>>(error_text(err)),
        },
{
    syn::parse_str::<File>(source)
}

/// Calls `to_string` on a `syn::Error`, which writes the error's first
/// message. The contract names that text.
#[verifier::external_body]
pub(crate) fn error_message(err: &SynError) -> (r: String)
    ensures
        r@ == error_text(*err),
{
    err.to_string()
}

/// Hands out the `items` of a `syn::File`, in order. The contract says that
/// they are the declarations of the file's description.
#[verifier::external_body]
pub(crate) fn file_declarations<'a>(file: &'a File) -> (r: Vec<&'a SynItem>)
    ensures
        items_syntax(r@) == file_syntax(*file).declarations,
{
    file.items.iter().collect()
}

/// Tells `syn::Item::Fn` from the other declarations and hands out its
/// visibility, signature and the statements of its block.
#[verifier::external_body]
pub(crate) fn item_as_fn<'a>(item: &'a SynItem) -> (r: Option<FunctionParts<'a>>)
    ensures
        match r {
            Some(parts) => item_syntax(*item) == ItemSyntax::Fn(parts@),
            None => !(item_syntax(*item) is Fn),
        },
{
    match item {
        SynItem::Fn(f) => Some(
            FunctionParts { vis: &f.vis, sig: &f.sig, body: f.block.stmts.iter().collect() },
        ),
        _ => None,
    }
}

/// Tells `syn::Item::Struct` from the other declarations and hands out its
/// name (`Ident::to_string`), visibility and fields.
#[verifier::external_body]
pub(crate) fn item_as_struct<'a>(item: &'a SynItem) -> (r: Option<
    (String, &'a SynVisibility, &'a Fields),
>)
    ensures
        match r {
            Some((name, vis, fields)) => item_syntax(*item) == (ItemSyntax::Struct {
                name: name@,
                vis: visibility_syntax(*vis),
                fields: fields_syntax(*fields),
            }),
            None => !(item_syntax(*item) is Struct),
        },
{
    match item {
        SynItem::Struct(s) => Some((s.ident.to_string(), &s.vis, &s.fields)),
        _ => None,
    }
}

/// Tells `syn::Item::Enum` from the other declarations and hands out its
/// name, visibility and the names of its variants, in order.
#[verifier::external_body]
pub(crate) fn item_as_enum<'a>(item: &'a SynItem) -> (r: Option<
    (String, &'a SynVisibility, Vec<String>),
>)
    ensures
        match r {
            Some((name, vis, variants)) => item_syntax(*item) == (ItemSyntax::Enum {
                name: name@,
                vis: visibility_syntax(*vis),
                variants: texts_view(variants@),
            }),
            None => !(item_syntax(*item) is Enum),
        },
{
    match item {
        SynItem::Enum(e) => Some(
            (e.ident.to_string(), &e.vis, e.variants.iter().map(|v| v.ident.to_string()).collect()),
        ),
        _ => None,
    }
}

/// Tells `syn::Item::Impl` from the other declarations and hands out the
/// type it is for, the path of the trait it implements, if any, and its
/// members, in order.
#[verifier::external_body]
pub(crate) fn item_as_impl<'a>(item: &'a SynItem) -> (r: Option<
    (&'a SynType, Option<&'a Path>, Vec<&'a SynImplItem>),
>)
    ensures
        match r {
            Some((self_ty, trait_, items)) => item_syntax(*item) == (ItemSyntax::Impl {
                self_ty: type_syntax(*self_ty),
                trait_: optional_path_syntax(trait_),
                items: impl_items_syntax(items@),
            }),
            None => !(item_syntax(*item) is Impl),
        },
{
    match item {
        SynItem::Impl(i) => Some(
            (&*i.self_ty, i.trait_.as_ref().map(|t| &t.1), i.items.iter().collect()),
        ),
        _ => None,
    }
}

/// Tells `syn::Item::Use` from the other declarations and hands out the text
/// that its tokens print (`ToTokens::to_token_stream`, then `to_string`) and
/// its visibility.
#[verifier::external_body]
pub(crate) fn item_as_use<'a>(item: &'a SynItem) -> (r: Option<(String, &'a SynVisibility)>)
    ensures
        match r {
            Some((text, vis)) => item_syntax(*item) == (ItemSyntax::Use {
                text: text@,
                vis: visibility_syntax(*vis),
            }),
            None => !(item_syntax(*item) is Use),
        },
{
    match item {
        SynItem::Use(u) => Some((u.to_token_stream().to_string(), &u.vis)),
        _ => None,
    }
}

/// Tells `syn::Item::Mod` from the other declarations and hands out its name
/// and visibility.
#[verifier::external_body]
pub(crate) fn item_as_mod<'a>(item: &'a SynItem) -> (r: Option<(String, &'a SynVisibility)>)
    ensures
        match r {
            Some((name, vis)) => item_syntax(*item) == (ItemSyntax::Mod {
                name: name@,
                vis: visibility_syntax(*vis),
            }),
            None => !(item_syntax(*item) is Mod),
        },
{
    match item {
        SynItem::Mod(m) => Some((m.ident.to_string(), &m.vis)),
        _ => None,
    }
}

/// Tells `syn::Item::Const` from the other declarations and hands out its
/// name, visibility, type and value.
#[verifier::external_body]
pub(crate) fn item_as_const<'a>(item: &'a SynItem) -> (r: Option<
    (String, &'a SynVisibility, &'a SynType, &'a Expr),
>)
    ensures
        match r {
            Some((name, vis, ty, value)) => item_syntax(*item) == (ItemSyntax::Const {
                name: name@,
                vis: visibility_syntax(*vis),
                ty: type_syntax(*ty),
                value: expr_syntax(*value),
            }),
            None => !(item_syntax(*item) is Const),
        },
{
    match item {
        SynItem::Const(c) => Some((c.ident.to_string(), &c.vis, &*c.ty, &*c.expr)),
        _ => None,
    }
}

/// Tells `syn::Item::Static` from the other declarations and hands out its
/// name, visibility, whether it is `static mut`, its type and its value.
#[verifier::external_body]
pub(crate) fn item_as_static<'a>(item: &'a SynItem) -> (r: Option<
    (String, &'a SynVisibility, bool, &'a SynType, &'a Expr),
>)
    ensures
        match r {
            Some((name, vis, mutable, ty, value)) => item_syntax(*item) == (ItemSyntax::Static {
                name: name@,
                vis: visibility_syntax(*vis),
                mutable,
                ty: type_syntax(*ty),
                value: expr_syntax(*value),
            }),
            None => !(item_syntax(*item) is Static),
        },
{
    match item {
        SynItem::Static(s) => {
            let mutable = matches!(s.mutability, syn::StaticMutability::Mut(_));
            Some((s.ident.to_string(), &s.vis, mutable, &*s.ty, &*s.expr))
        },
        _ => None,
    }
}

/// Tells `syn::Item::Type` from the other declarations and hands out its
/// name, visibility and the type it stands for.
#[verifier::external_body]
pub(crate) fn item_as_alias<'a>(item: &'a SynItem) -> (r: Option<
    (String, &'a SynVisibility, &'a SynType),
>)
    ensures
        match r {
            Some((name, vis, ty)) => item_syntax(*item) == (ItemSyntax::Alias {
                name: name@,
                vis: visibility_syntax(*vis),
                ty: type_syntax(*ty),
            }),
            None => !(item_syntax(*item) is Alias),
        },
{
    match item {
        SynItem::Type(t) => Some((t.ident.to_string(), &t.vis, &*t.ty)),
        _ => None,
    }
}

/// Tells `syn::ImplItem::Fn` from the other members and hands out its
/// visibility, signature and the statements of its block.
#[verifier::external_body]
pub(crate) fn impl_item_as_fn<'a>(item: &'a SynImplItem) -> (r: Option<FunctionParts<'a>>)
    ensures
        match r {
            Some(parts) => impl_item_syntax(*item) == ImplItemSyntax::Fn(parts@),
            None => !(impl_item_syntax(*item) is Fn),
        },
{
    match item {
        SynImplItem::Fn(f) => Some(
            FunctionParts { vis: &f.vis, sig: &f.sig, body: f.block.stmts.iter().collect() },
        ),
        _ => None,
    }
}

/// Hands out a signature's name, its arguments in order, and its return
/// type where one is written (`syn::ReturnType::Type`).
#[verifier::external_body]
pub(crate) fn signature_parts<'a>(sig: &'a Signature) -> (r: (
    String,
    Vec<&'a FnArg>,
    Option<&'a SynType>,
))
    ensures
        signature_syntax(*sig) == (SignatureSyntax {
            name: r.0@,
            inputs: args_syntax(r.1@),
            output: optional_type_syntax(r.2),
        }),
{
    let output = match &sig.output {
        syn::ReturnType::Default => None,
        syn::ReturnType::Type(_, ty) => Some(&**ty),
    };
    (sig.ident.to_string(), sig.inputs.iter().collect(), output)
}

/// Tells `syn::FnArg::Typed` from a receiver and hands out its pattern and
/// type.
#[verifier::external_body]
pub(crate) fn arg_as_typed<'a>(arg: &'a FnArg) -> (r: Option<(&'a Pat, &'a SynType)>)
    ensures
        match r {
            Some((pat, ty)) => arg_syntax(*arg) == (ArgSyntax::Typed {
                pat: pattern_syntax(*pat),
                ty: type_syntax(*ty),
            }),
            None => arg_syntax(*arg) == ArgSyntax::Receiver,
        },
{
    match arg {
        FnArg::Typed(t) => Some((&*t.pat, &*t.ty)),
        FnArg::Receiver(_) => None,
    }
}

/// Tells `syn::Pat::Ident` from the other patterns and hands out the
/// identifier and whether it is bound `mut`.
#[verifier::external_body]
pub(crate) fn pattern_as_ident(pat: &Pat) -> (r: Option<(String, bool)>)
    ensures
        match r {
            Some((name, mutable)) => pattern_syntax(*pat) == (PatternSyntax::Ident {
                name: name@,
                mutable,
            }),
            None => !(pattern_syntax(*pat) is Ident),
        },
{
    match pat {
        Pat::Ident(p) => Some((p.ident.to_string(), p.mutability.is_some())),
        _ => None,
    }
}

/// Tells `syn::Pat::Type` from the other patterns and hands out the pattern
/// that is annotated and the type it is annotated with.
#[verifier::external_body]
pub(crate) fn pattern_as_typed<'a>(pat: &'a Pat) -> (r: Option<(&'a Pat, &'a SynType)>)
    ensures
        match r {
            Some((inner, ty)) => pattern_syntax(*pat) == (PatternSyntax::Typed {
                pat: Box::new(pattern_syntax(*inner)),
                ty: Box::new(type_syntax(*ty)),
            }),
            None => !(pattern_syntax(*pat) is Typed),
        },
{
    match pat {
        Pat::Type(t) => Some((&*t.pat, &*t.ty)),
        _ => None,
    }
}

/// Tells the four variants of `syn::Stmt` apart and hands out the pattern
/// and initializer of a `let`, or the expression of an expression statement.
#[verifier::external_body]
pub(crate) fn stmt_shape<'a>(stmt: &'a Stmt) -> (r: StmtShape<'a>)
    ensures
        r@ == stmt_syntax(*stmt),
{
    match stmt {
        Stmt::Local(l) => StmtShape::Local { pat: &l.pat, init: l.init.as_ref().map(|i| &*i.expr) },
        Stmt::Item(_) => StmtShape::Item,
        Stmt::Expr(e, _) => StmtShape::Expr(e),
        Stmt::Macro(_) => StmtShape::Macro,
    }
}

/// Tells `syn::Expr::Lit` from the other expressions and hands out the
/// literal.
#[verifier::external_body]
pub(crate) fn expr_as_lit<'a>(expr: &'a Expr) -> (r: Option<&'a Lit>)
    ensures
        match r {
            Some(lit) => expr_syntax(*expr) == ExprSyntax::Lit(literal_syntax(*lit)),
            None => !(expr_syntax(*expr) is Lit),
        },
{
    match expr {
        Expr::Lit(l) => Some(&l.lit),
        _ => None,
    }
}

/// Tells `syn::Expr::Path` from the other expressions and hands out the
/// path.
#[verifier::external_body]
pub(crate) fn expr_as_path<'a>(expr: &'a Expr) -> (r: Option<&'a Path>)
    ensures
        match r {
            Some(path) => expr_syntax(*expr) == ExprSyntax::Path(path_syntax(*path)),
            None => !(expr_syntax(*expr) is Path),
        },
{
    match expr {
        Expr::Path(p) => Some(&p.path),
        _ => None,
    }
}

/// Tells `syn::Expr::Binary` from the other expressions and hands out both
/// operands and the text that the operator's token prints.
#[verifier::external_body]
pub(crate) fn expr_as_binary<'a>(expr: &'a Expr) -> (r: Option<(&'a Expr, String, &'a Expr)>)
    ensures
        match r {
            Some((left, op, right)) => expr_syntax(*expr) == (ExprSyntax::Binary {
                left: Box::new(expr_syntax(*left)),
                op: op@,
                right: Box::new(expr_syntax(*right)),
            }),
            None => !(expr_syntax(*expr) is Binary),
        },
{
    match expr {
        Expr::Binary(b) => Some((&*b.left, b.op.to_token_stream().to_string(), &*b.right)),
        _ => None,
    }
}

/// Tells `syn::Expr::Call` from the other expressions and hands out the
/// callee and the arguments, in order.
#[verifier::external_body]
pub(crate) fn expr_as_call<'a>(expr: &'a Expr) -> (r: Option<(&'a Expr, Vec<&'a Expr>)>)
    ensures
        match r {
            Some((func, args)) => expr_syntax(*expr) == (ExprSyntax::Call {
                func: Box::new(expr_syntax(*func)),
                args: exprs_syntax(args@),
            }),
            None => !(expr_syntax(*expr) is Call),
        },
{
    match expr {
        Expr::Call(c) => Some((&*c.func, c.args.iter().collect())),
        _ => None,
    }
}

/// Tells `syn::Expr::Return` from the other expressions and hands out the
/// returned expression, if one is written.
#[verifier::external_body]
pub(crate) fn expr_as_return<'a>(expr: &'a Expr) -> (r: Option<Option<&'a Expr>>)
    ensures
        match r {
            Some(value) => expr_syntax(*expr) == ExprSyntax::Return(
                optional_boxed_expr_syntax(value),
            ),
            None => !(expr_syntax(*expr) is Return),
        },
{
    match expr {
        Expr::Return(r) => Some(r.expr.as_ref().map(|e| &**e)),
        _ => None,
    }
}

/// Tells `syn::Expr::If` from the other expressions and hands out the
/// condition, the statements of the `then` block, and the expression after
/// `else`, if there is one.
#[verifier::external_body]
pub(crate) fn expr_as_if<'a>(expr: &'a Expr) -> (r: Option<
    (&'a Expr, Vec<&'a Stmt>, Option<&'a Expr>),
>)
    ensures
        match r {
            Some((cond, then_branch, else_branch)) => expr_syntax(*expr) == (ExprSyntax::If {
                cond: Box::new(expr_syntax(*cond)),
                then_branch: stmts_syntax(then_branch@),
                else_branch: optional_boxed_expr_syntax(else_branch),
            }),
            None => !(expr_syntax(*expr) is If),
        },
{
    match expr {
        Expr::If(i) => Some(
            (
                &*i.cond,
                i.then_branch.stmts.iter().collect(),
                i.else_branch.as_ref().map(|e| &*e.1),
            ),
        ),
        _ => None,
    }
}

/// Tells `syn::Expr::Block` from the other expressions and hands out the
/// statements of the block.
#[verifier::external_body]
pub(crate) fn expr_as_block<'a>(expr: &'a Expr) -> (r: Option<Vec<&'a Stmt>>)
    ensures
        match r {
            Some(stmts) => expr_syntax(*expr) == ExprSyntax::Block(stmts_syntax(stmts@)),
            None => !(expr_syntax(*expr) is Block),
        },
{
    match expr {
        Expr::Block(b) => Some(b.block.stmts.iter().collect()),
        _ => None,
    }
}

/// Tells `syn::Expr::Assign` from the other expressions and hands out both
/// sides.
#[verifier::external_body]
pub(crate) fn expr_as_assign<'a>(expr: &'a Expr) -> (r: Option<(&'a Expr, &'a Expr)>)
    ensures
        match r {
            Some((left, right)) => expr_syntax(*expr) == (ExprSyntax::Assign {
                left: Box::new(expr_syntax(*left)),
                right: Box::new(expr_syntax(*right)),
            }),
            None => !(expr_syntax(*expr) is Assign),
        },
{
    match expr {
        Expr::Assign(a) => Some((&*a.left, &*a.right)),
        _ => None,
    }
}

/// Tells `syn::Expr::Field` from the other expressions and hands out the
/// base and, where the member is named (`syn::Member::Named`), its name.
#[verifier::external_body]
pub(crate) fn expr_as_field<'a>(expr: &'a Expr) -> (r: Option<(&'a Expr, Option<String>)>)
    ensures
        match r {
            Some((base, member)) => expr_syntax(*expr) == (ExprSyntax::Field {
                base: Box::new(expr_syntax(*base)),
                member: optional_string_view(member),
            }),
            None => !(expr_syntax(*expr) is Field),
        },
{
    match expr {
        Expr::Field(f) => match &f.member {
            syn::Member::Named(name) => Some((&*f.base, Some(name.to_string()))),
            syn::Member::Unnamed(_) => Some((&*f.base, None)),
        },
        _ => None,
    }
}

/// Tells `syn::Expr::Index` from the other expressions.
#[verifier::external_body]
pub(crate) fn expr_is_index(expr: &Expr) -> (r: bool)
    ensures
        r == (expr_syntax(*expr) is Index),
{
    matches!(expr, Expr::Index(_))
}

/// Tells `syn::Expr::Unary` from the other expressions.
#[verifier::external_body]
pub(crate) fn expr_is_unary(expr: &Expr) -> (r: bool)
    ensures
        r == (expr_syntax(*expr) is Unary),
{
    matches!(expr, Expr::Unary(_))
}

/// Tells `syn::Expr::While` from the other expressions and hands out the
/// condition and the statements of the body.
#[verifier::external_body]
pub(crate) fn expr_as_while<'a>(expr: &'a Expr) -> (r: Option<(&'a Expr, Vec<&'a Stmt>)>)
    ensures
        match r {
            Some((cond, body)) => expr_syntax(*expr) == (ExprSyntax::While {
                cond: Box::new(expr_syntax(*cond)),
                body: stmts_syntax(body@),
            }),
            None => !(expr_syntax(*expr) is While),
        },
{
    match expr {
        Expr::While(w) => Some((&*w.cond, w.body.stmts.iter().collect())),
        _ => None,
    }
}

/// Tells `syn::Expr::ForLoop` from the other expressions and hands out the
/// pattern, the iterated expression and the statements of the body.
#[verifier::external_body]
pub(crate) fn expr_as_for<'a>(expr: &'a Expr) -> (r: Option<(&'a Pat, &'a Expr, Vec<&'a Stmt>)>)
    ensures
        match r {
            Some((pat, iter, body)) => expr_syntax(*expr) == (ExprSyntax::ForLoop {
                pat: pattern_syntax(*pat),
                iter: Box::new(expr_syntax(*iter)),
                body: stmts_syntax(body@),
            }),
            None => !(expr_syntax(*expr) is ForLoop),
        },
{
    match expr {
        Expr::ForLoop(f) => Some((&*f.pat, &*f.expr, f.body.stmts.iter().collect())),
        _ => None,
    }
}

/// Tells `syn::Lit::Str` from the other literals and hands out
/// `LitStr::value`, the string with its escapes resolved.
#[verifier::external_body]
pub(crate) fn literal_as_str(lit: &Lit) -> (r: Option<String>)
    ensures
        match r {
            Some(text) => literal_syntax(*lit) == LiteralSyntax::Str(text@),
            None => !(literal_syntax(*lit) is Str),
        },
{
    match lit {
        Lit::Str(s) => Some(s.value()),
        _ => None,
    }
}

/// Tells `syn::Lit::Int` from the other literals and hands out what
/// `LitInt::base10_parse::<i64>` makes of it, `None` where that fails.
#[verifier::external_body]
pub(crate) fn literal_as_int(lit: &Lit) -> (r: Option<Option<i64>>)
    ensures
        match r {
            Some(v) => literal_syntax(*lit) is Int && literal_syntax(*lit)->Int_value == v,
            None => !(literal_syntax(*lit) is Int),
        },
{
    match lit {
        Lit::Int(i) => Some(i.base10_parse::<i64>().ok()),
        _ => None,
    }
}

/// Tells `syn::Lit::Int` from the other literals and hands out what
/// `LitInt::base10_parse::<usize>` makes of it, `None` where that fails.
#[verifier::external_body]
pub(crate) fn literal_as_size(lit: &Lit) -> (r: Option<Option<usize>>)
    ensures
        match r {
            Some(v) => literal_syntax(*lit) is Int && literal_syntax(*lit)->Int_size == v,
            None => !(literal_syntax(*lit) is Int),
        },
{
    match lit {
        Lit::Int(i) => Some(i.base10_parse::<usize>().ok()),
        _ => None,
    }
}

/// Tells `syn::Lit::Float` from the other literals and hands out
/// `LitFloat::base10_digits`, the literal's digits without its suffix.
#[verifier::external_body]
pub(crate) fn literal_as_float(lit: &Lit) -> (r: Option<String>)
    ensures
        match r {
            Some(digits) => literal_syntax(*lit) == LiteralSyntax::Float(digits@),
            None => !(literal_syntax(*lit) is Float),
        },
{
    match lit {
        Lit::Float(f) => Some(f.base10_digits().to_string()),
        _ => None,
    }
}

/// Tells `syn::Lit::Bool` from the other literals and hands out its value.
#[verifier::external_body]
pub(crate) fn literal_as_bool(lit: &Lit) -> (r: Option<bool>)
    ensures
        match r {
            Some(b) => literal_syntax(*lit) == LiteralSyntax::Bool(b),
            None => !(literal_syntax(*lit) is Bool),
        },
{
    match lit {
        Lit::Bool(b) => Some(b.value),
        _ => None,
    }
}

/// Tells `syn::Lit::Char` from the other literals and hands out
/// `LitChar::value`.
#[verifier::external_body]
pub(crate) fn literal_as_char(lit: &Lit) -> (r: Option<char>)
    ensures
        match r {
            Some(c) => literal_syntax(*lit) == LiteralSyntax::Char(c),
            None => !(literal_syntax(*lit) is Char),
        },
{
    match lit {
        Lit::Char(c) => Some(c.value()),
        _ => None,
    }
}

/// Tells the variants of `syn::Type` that lowering knows apart and hands
/// out their parts; every other variant is `Other`.
#[verifier::external_body]
pub(crate) fn type_shape<'a>(ty: &'a SynType) -> (r: TypeShape<'a>)
    ensures
        r@ == type_syntax(*ty),
{
    match ty {
        SynType::Path(p) => TypeShape::Path(&p.path),
        SynType::Reference(r) => TypeShape::Reference {
            mutable: r.mutability.is_some(),
            elem: &r.elem,
        },
        SynType::Ptr(p) => TypeShape::Pointer { mutable: p.mutability.is_some(), elem: &p.elem },
        SynType::Array(a) => TypeShape::Array { elem: &a.elem, len: &a.len },
        SynType::Slice(s) => TypeShape::Slice(&s.elem),
        SynType::Tuple(t) => TypeShape::Tuple(t.elems.iter().collect()),
        _ => TypeShape::Other,
    }
}

/// Hands out the identifiers of a path's segments, in order, and whether
/// `Path::get_ident` finds it to be a single bare identifier.
#[verifier::external_body]
pub(crate) fn path_parts(path: &Path) -> (r: (Vec<String>, bool))
    ensures
        path_syntax(*path) == (PathSyntax { segments: texts_view(r.0@), single: r.1 }),
{
    (path.segments.iter().map(|s| s.ident.to_string()).collect(), path.get_ident().is_some())
}

/// Tells the three variants of `syn::Visibility` apart.
#[verifier::external_body]
pub(crate) fn visibility_kind(vis: &SynVisibility) -> (r: VisibilitySyntax)
    ensures
        r == visibility_syntax(*vis),
{
    match vis {
        SynVisibility::Public(_) => VisibilitySyntax::Public,
        SynVisibility::Restricted(_) => VisibilitySyntax::Restricted,
        SynVisibility::Inherited => VisibilitySyntax::Inherited,
    }
}

/// Tells the three variants of `syn::Fields` apart and hands out the
/// fields, in order.
#[verifier::external_body]
pub(crate) fn fields_shape<'a>(fields: &'a Fields) -> (r: FieldsShape<'a>)
    ensures
        r@ == fields_syntax(*fields),
{
    match fields {
        Fields::Named(f) => FieldsShape::Named(f.named.iter().collect()),
        Fields::Unnamed(f) => FieldsShape::Unnamed(f.unnamed.iter().collect()),
        Fields::Unit => FieldsShape::Unit,
    }
}

/// Hands out a field's name, if it has one, its visibility and its type.
#[verifier::external_body]
pub(crate) fn field_parts<'a>(field: &'a SynField) -> (r: (
    Option<String>,
    &'a SynVisibility,
    &'a SynType,
))
    ensures
        field_syntax(*field) == (FieldSyntax {
            name: optional_string_view(r.0),
            vis: visibility_syntax(*r.1),
            ty: type_syntax(*r.2),
        }),
{
    (field.ident.as_ref().map(|i| i.to_string()), &field.vis, &field.ty)
}

} // verus!
