//! The intermediate representation that stands between the input syntax and
//! the emitted text.
//!
//! Every type here is plain owned data: a compilation unit is a finite tree in
//! which each node has exactly one parent. Beside each type stands its
//! mathematical view, in which strings are sequences of characters and
//! vectors are sequences of views. Contracts elsewhere in the crate speak of
//! the views only.

use vstd::prelude::*;

verus! {

/// Binary operators.
#[derive(Debug, Clone, Copy, PartialEq, Eq, Structural)]
pub enum BinaryOp {
    Add,
    Sub,
    Mul,
    Div,
    Mod,
    Eq,
    Ne,
    Lt,
    Le,
    Gt,
    Ge,
    And,
    Or,
    BitAnd,
    BitOr,
    BitXor,
    Shl,
    Shr,
    Assign,
}

/// Unary operators.
#[derive(Debug, Clone, Copy, PartialEq, Eq, Structural)]
pub enum UnaryOp {
    Not,
    Neg,
    Deref,
}

/// Visibility of an item or a field. `InPath` carries the path as written; it
/// is never resolved.
#[derive(Debug, Clone)]
pub enum Visibility {
    Public,
    Private,
    Crate,
    Super,
    InPath(String),
}

pub enum VisibilityView {
    Public,
    Private,
    Crate,
    Super,
    InPath(Seq<char>),
}

impl Visibility {
    pub open spec fn view(&self) -> VisibilityView {
        match self {
            Visibility::Public => VisibilityView::Public,
            Visibility::Private => VisibilityView::Private,
            Visibility::Crate => VisibilityView::Crate,
            Visibility::Super => VisibilityView::Super,
            Visibility::InPath(p) => VisibilityView::InPath(p@),
        }
    }
}

/// A type as written in a signature, a field or a binding.
#[derive(Debug)]
pub enum Type {
    Path(String),
    Reference { mutable: bool, inner: Box<Type> },
    Pointer { mutable: bool, inner: Box<Type> },
    Array { inner: Box<Type>, size: Option<usize> },
    Slice(Box<Type>),
    Tuple(Vec<Type>),
    Function { params: Vec<Type>, return_: Box<Type> },
    Generic(String),
    Unit,
}

pub enum TypeView {
    Path(Seq<char>),
    Reference { mutable: bool, inner: Box<TypeView> },
    Pointer { mutable: bool, inner: Box<TypeView> },
    Array { inner: Box<TypeView>, size: Option<usize> },
    Slice(Box<TypeView>),
    Tuple(Seq<TypeView>),
    Function { params: Seq<TypeView>, return_: Box<TypeView> },
    Generic(Seq<char>),
    Unit,
}

impl Type {
    pub open spec fn view(&self) -> TypeView
        decreases self,
    {
        match self {
            Type::Path(name) => TypeView::Path(name@),
            Type::Reference { mutable, inner } => TypeView::Reference {
                mutable: *mutable,
                inner: Box::new(inner.view()),
            },
            Type::Pointer { mutable, inner } => TypeView::Pointer {
                mutable: *mutable,
                inner: Box::new(inner.view()),
            },
            Type::Array { inner, size } => TypeView::Array {
                inner: Box::new(inner.view()),
                size: *size,
            },
            Type::Slice(inner) => TypeView::Slice(Box::new(inner.view())),
            Type::Tuple(elements) => TypeView::Tuple(types_view(elements@)),
            Type::Function { params, return_ } => TypeView::Function {
                params: types_view(params@),
                return_: Box::new(return_.view()),
            },
            Type::Generic(name) => TypeView::Generic(name@),
            Type::Unit => TypeView::Unit,
        }
    }
}

/// The views of a sequence of types, in order.
pub open spec fn types_view(types: Seq<Type>) -> Seq<TypeView>
    decreases types,
{
    Seq::new(
        types.len(),
        |i: int|
            if 0 <= i < types.len() {
                types[i].view()
            } else {
                TypeView::Unit
            },
    )
}

/// The view of an optional type.
pub open spec fn optional_type_view(ty: Option<Type>) -> Option<TypeView> {
    match ty {
        Some(t) => Some(t@),
        None => None,
    }
}

/// A generic parameter with its bounds.
#[derive(Debug)]
pub struct Generic {
    pub name: String,
    pub bounds: Vec<Type>,
}

pub struct GenericView {
    pub name: Seq<char>,
    pub bounds: Seq<TypeView>,
}

impl Generic {
    pub open spec fn view(&self) -> GenericView {
        GenericView { name: self.name@, bounds: types_view(self.bounds@) }
    }
}

pub open spec fn generics_view(generics: Seq<Generic>) -> Seq<GenericView> {
    Seq::new(generics.len(), |i: int| generics[i]@)
}

/// An attribute attached to an item.
#[derive(Debug, Clone)]
pub struct Attribute {
    pub path: String,
    pub tokens: String,
}

pub struct AttributeView {
    pub path: Seq<char>,
    pub tokens: Seq<char>,
}

impl Attribute {
    pub open spec fn view(&self) -> AttributeView {
        AttributeView { path: self.path@, tokens: self.tokens@ }
    }
}

pub open spec fn attributes_view(attributes: Seq<Attribute>) -> Seq<AttributeView> {
    Seq::new(attributes.len(), |i: int| attributes[i]@)
}

/// A function parameter.
#[derive(Debug)]
pub struct Parameter {
    pub name: String,
    pub type_: Type,
    pub mutable: bool,
}

pub struct ParameterView {
    pub name: Seq<char>,
    pub type_: TypeView,
    pub mutable: bool,
}

impl Parameter {
    pub open spec fn view(&self) -> ParameterView {
        ParameterView { name: self.name@, type_: self.type_@, mutable: self.mutable }
    }
}

pub open spec fn parameters_view(parameters: Seq<Parameter>) -> Seq<ParameterView> {
    Seq::new(parameters.len(), |i: int| parameters[i]@)
}

/// A field of a struct or of a struct-like variant.
#[derive(Debug)]
pub struct Field {
    pub name: String,
    pub visibility: Visibility,
    pub type_: Type,
}

pub struct FieldView {
    pub name: Seq<char>,
    pub visibility: VisibilityView,
    pub type_: TypeView,
}

impl Field {
    pub open spec fn view(&self) -> FieldView {
        FieldView { name: self.name@, visibility: self.visibility@, type_: self.type_@ }
    }
}

pub open spec fn fields_view(fields: Seq<Field>) -> Seq<FieldView> {
    Seq::new(fields.len(), |i: int| fields[i]@)
}

/// What an enum variant carries.
#[derive(Debug)]
pub enum VariantData {
    Unit,
    Tuple(Vec<Type>),
    Struct(Vec<Field>),
}

pub enum VariantDataView {
    Unit,
    Tuple(Seq<TypeView>),
    Struct(Seq<FieldView>),
}

impl VariantData {
    pub open spec fn view(&self) -> VariantDataView {
        match self {
            VariantData::Unit => VariantDataView::Unit,
            VariantData::Tuple(types) => VariantDataView::Tuple(types_view(types@)),
            VariantData::Struct(fields) => VariantDataView::Struct(fields_view(fields@)),
        }
    }
}

/// An enum variant.
#[derive(Debug)]
pub struct Variant {
    pub name: String,
    pub data: VariantData,
}

pub struct VariantView {
    pub name: Seq<char>,
    pub data: VariantDataView,
}

impl Variant {
    pub open spec fn view(&self) -> VariantView {
        VariantView { name: self.name@, data: self.data@ }
    }
}

pub open spec fn variants_view(variants: Seq<Variant>) -> Seq<VariantView> {
    Seq::new(variants.len(), |i: int| variants[i]@)
}

/// A literal value. A floating-point literal is kept as its decimal text.
#[derive(Debug, Clone)]
pub enum Literal {
    String(String),
    Integer(i64),
    Float(String),
    Boolean(bool),
    Char(char),
}

pub enum LiteralView {
    String(Seq<char>),
    Integer(i64),
    Float(Seq<char>),
    Boolean(bool),
    Char(char),
}

impl Literal {
    pub open spec fn view(&self) -> LiteralView {
        match self {
            Literal::String(s) => LiteralView::String(s@),
            Literal::Integer(n) => LiteralView::Integer(*n),
            Literal::Float(digits) => LiteralView::Float(digits@),
            Literal::Boolean(b) => LiteralView::Boolean(*b),
            Literal::Char(c) => LiteralView::Char(*c),
        }
    }
}

/// A pattern of a match arm.
#[derive(Debug)]
pub enum Pattern {
    Wildcard,
    Identifier(String),
    Literal(Literal),
    Tuple(Vec<Pattern>),
    Struct { name: String, fields: Vec<(String, Pattern)> },
    Enum { path: String, variant: String, fields: Vec<Pattern> },
}

pub enum PatternView {
    Wildcard,
    Identifier(Seq<char>),
    Literal(LiteralView),
    Tuple(Seq<PatternView>),
    Struct { name: Seq<char>, fields: Seq<(Seq<char>, PatternView)> },
    Enum { path: Seq<char>, variant: Seq<char>, fields: Seq<PatternView> },
}

impl Pattern {
    pub open spec fn view(&self) -> PatternView
        decreases self,
    {
        match self {
            Pattern::Wildcard => PatternView::Wildcard,
            Pattern::Identifier(name) => PatternView::Identifier(name@),
            Pattern::Literal(lit) => PatternView::Literal(lit@),
            Pattern::Tuple(elements) => PatternView::Tuple(
                patterns_view(elements@),
            ),
            Pattern::Struct { name, fields } => PatternView::Struct {
                name: name@,
                fields: field_patterns_view(fields@),
            },
            Pattern::Enum { path, variant, fields } => PatternView::Enum {
                path: path@,
                variant: variant@,
                fields: patterns_view(fields@),
            },
        }
    }
}

/// The views of a sequence of patterns, in order.
pub open spec fn patterns_view(patterns: Seq<Pattern>) -> Seq<PatternView>
    decreases patterns,
{
    Seq::new(
        patterns.len(),
        |i: int|
            if 0 <= i < patterns.len() {
                patterns[i].view()
            } else {
                PatternView::Wildcard
            },
    )
}

/// The views of the named fields of a struct pattern, in order.
pub open spec fn field_patterns_view(fields: Seq<(String, Pattern)>) -> Seq<
    (Seq<char>, PatternView),
>
    decreases fields,
{
    Seq::new(
        fields.len(),
        |i: int|
            if 0 <= i < fields.len() {
                (fields[i].0@, fields[i].1.view())
            } else {
                (Seq::empty(), PatternView::Wildcard)
            },
    )
}

/// An expression.
#[derive(Debug)]
pub enum Expression {
    Literal(Literal),
    Identifier(String),
    Path(String),
    Call { function: Box<Expression>, args: Vec<Expression> },
    MethodCall { receiver: Box<Expression>, method: String, args: Vec<Expression> },
    FieldAccess { object: Box<Expression>, field: String },
    Index { object: Box<Expression>, index: Box<Expression> },
    Binary { left: Box<Expression>, op: BinaryOp, right: Box<Expression> },
    Unary { op: UnaryOp, operand: Box<Expression> },
    Cast { expr: Box<Expression>, type_: Type },
    Reference { mutable: bool, expr: Box<Expression> },
    Dereference(Box<Expression>),
    Block(Vec<Statement>),
    Array(Vec<Expression>),
    Tuple(Vec<Expression>),
    Struct { name: String, fields: Vec<(String, Expression)> },
}

pub enum ExpressionView {
    Literal(LiteralView),
    Identifier(Seq<char>),
    Path(Seq<char>),
    Call { function: Box<ExpressionView>, args: Seq<ExpressionView> },
    MethodCall { receiver: Box<ExpressionView>, method: Seq<char>, args: Seq<ExpressionView> },
    FieldAccess { object: Box<ExpressionView>, field: Seq<char> },
    Index { object: Box<ExpressionView>, index: Box<ExpressionView> },
    Binary { left: Box<ExpressionView>, op: BinaryOp, right: Box<ExpressionView> },
    Unary { op: UnaryOp, operand: Box<ExpressionView> },
    Cast { expr: Box<ExpressionView>, type_: TypeView },
    Reference { mutable: bool, expr: Box<ExpressionView> },
    Dereference(Box<ExpressionView>),
    Block(Seq<StatementView>),
    Array(Seq<ExpressionView>),
    Tuple(Seq<ExpressionView>),
    Struct { name: Seq<char>, fields: Seq<(Seq<char>, ExpressionView)> },
}

/// A statement.
#[derive(Debug)]
pub enum Statement {
    Expression(Expression),
    Let { name: String, mutable: bool, type_: Option<Type>, value: Option<Expression> },
    Return(Option<Expression>),
    If { condition: Expression, then_branch: Vec<Statement>, else_branch: Option<Vec<Statement>> },
    While { condition: Expression, body: Vec<Statement> },
    For { pattern: String, iterator: Expression, body: Vec<Statement> },
    Match { expr: Expression, arms: Vec<MatchArm> },
    Block(Vec<Statement>),
}

pub enum StatementView {
    Expression(ExpressionView),
    Let { name: Seq<char>, mutable: bool, type_: Option<TypeView>, value: Option<ExpressionView> },
    Return(Option<ExpressionView>),
    If {
        condition: ExpressionView,
        then_branch: Seq<StatementView>,
        else_branch: Option<Seq<StatementView>>,
    },
    While { condition: ExpressionView, body: Seq<StatementView> },
    For { pattern: Seq<char>, iterator: ExpressionView, body: Seq<StatementView> },
    Match { expr: ExpressionView, arms: Seq<MatchArmView> },
    Block(Seq<StatementView>),
}

/// One arm of a match.
#[derive(Debug)]
pub struct MatchArm {
    pub pattern: Pattern,
    pub guard: Option<Expression>,
    pub body: Vec<Statement>,
}

pub struct MatchArmView {
    pub pattern: PatternView,
    pub guard: Option<ExpressionView>,
    pub body: Seq<StatementView>,
}

impl Expression {
    pub open spec fn view(&self) -> ExpressionView
        decreases self,
    {
        match self {
            Expression::Literal(lit) => ExpressionView::Literal(lit@),
            Expression::Identifier(name) => ExpressionView::Identifier(name@),
            Expression::Path(path) => ExpressionView::Path(path@),
            Expression::Call { function, args } => ExpressionView::Call {
                function: Box::new(function.view()),
                args: expressions_view(args@),
            },
            Expression::MethodCall { receiver, method, args } => ExpressionView::MethodCall {
                receiver: Box::new(receiver.view()),
                method: method@,
                args: expressions_view(args@),
            },
            Expression::FieldAccess { object, field } => ExpressionView::FieldAccess {
                object: Box::new(object.view()),
                field: field@,
            },
            Expression::Index { object, index } => ExpressionView::Index {
                object: Box::new(object.view()),
                index: Box::new(index.view()),
            },
            Expression::Binary { left, op, right } => ExpressionView::Binary {
                left: Box::new(left.view()),
                op: *op,
                right: Box::new(right.view()),
            },
            Expression::Unary { op, operand } => ExpressionView::Unary {
                op: *op,
                operand: Box::new(operand.view()),
            },
            Expression::Cast { expr, type_ } => ExpressionView::Cast {
                expr: Box::new(expr.view()),
                type_: type_@,
            },
            Expression::Reference { mutable, expr } => ExpressionView::Reference {
                mutable: *mutable,
                expr: Box::new(expr.view()),
            },
            Expression::Dereference(expr) => ExpressionView::Dereference(Box::new(expr.view())),
            Expression::Block(statements) => ExpressionView::Block(
                statements_view(statements@),
            ),
            Expression::Array(elements) => ExpressionView::Array(
                expressions_view(elements@),
            ),
            Expression::Tuple(elements) => ExpressionView::Tuple(
                expressions_view(elements@),
            ),
            Expression::Struct { name, fields } => ExpressionView::Struct {
                name: name@,
                fields: field_values_view(fields@),
            },
        }
    }
}

impl Statement {
    pub open spec fn view(&self) -> StatementView
        decreases self,
    {
        match self {
            Statement::Expression(expr) => StatementView::Expression(expr.view()),
            Statement::Let { name, mutable, type_, value } => StatementView::Let {
                name: name@,
                mutable: *mutable,
                type_: optional_type_view(*type_),
                value: match value {
                    Some(e) => Some(e.view()),
                    None => None,
                },
            },
            Statement::Return(value) => StatementView::Return(
                match value {
                    Some(e) => Some(e.view()),
                    None => None,
                },
            ),
            Statement::If { condition, then_branch, else_branch } => StatementView::If {
                condition: condition.view(),
                then_branch: statements_view(then_branch@),
                else_branch: match else_branch {
                    Some(statements) => Some(
                        statements_view(statements@),
                    ),
                    None => None,
                },
            },
            Statement::While { condition, body } => StatementView::While {
                condition: condition.view(),
                body: statements_view(body@),
            },
            Statement::For { pattern, iterator, body } => StatementView::For {
                pattern: pattern@,
                iterator: iterator.view(),
                body: statements_view(body@),
            },
            Statement::Match { expr, arms } => StatementView::Match {
                expr: expr.view(),
                arms: match_arms_view(arms@),
            },
            Statement::Block(statements) => StatementView::Block(
                statements_view(statements@),
            ),
        }
    }
}

impl MatchArm {
    pub open spec fn view(&self) -> MatchArmView
        decreases self,
    {
        MatchArmView {
            pattern: self.pattern@,
            guard: match self.guard {
                Some(e) => Some(e.view()),
                None => None,
            },
            body: statements_view(self.body@),
        }
    }
}

/// The views of a sequence of expressions, in order.
pub open spec fn expressions_view(expressions: Seq<Expression>) -> Seq<ExpressionView>
    decreases expressions,
{
    Seq::new(
        expressions.len(),
        |i: int|
            if 0 <= i < expressions.len() {
                expressions[i].view()
            } else {
                ExpressionView::Tuple(Seq::empty())
            },
    )
}

/// The views of the named fields of a struct literal, in order.
pub open spec fn field_values_view(fields: Seq<(String, Expression)>) -> Seq<
    (Seq<char>, ExpressionView),
>
    decreases fields,
{
    Seq::new(
        fields.len(),
        |i: int|
            if 0 <= i < fields.len() {
                (fields[i].0@, fields[i].1.view())
            } else {
                (Seq::empty(), ExpressionView::Tuple(Seq::empty()))
            },
    )
}

/// The views of a sequence of statements, in order.
pub open spec fn statements_view(statements: Seq<Statement>) -> Seq<StatementView>
    decreases statements,
{
    Seq::new(
        statements.len(),
        |i: int|
            if 0 <= i < statements.len() {
                statements[i].view()
            } else {
                StatementView::Return(None)
            },
    )
}

/// The views of the arms of a match, in order.
pub open spec fn match_arms_view(arms: Seq<MatchArm>) -> Seq<MatchArmView>
    decreases arms,
{
    Seq::new(
        arms.len(),
        |i: int|
            if 0 <= i < arms.len() {
                arms[i].view()
            } else {
                MatchArmView { pattern: PatternView::Wildcard, guard: None, body: Seq::empty() }
            },
    )
}

/// The view of an optional expression.
pub open spec fn optional_expression_view(expr: Option<Expression>) -> Option<ExpressionView> {
    match expr {
        Some(e) => Some(e@),
        None => None,
    }
}

/// A function with its signature and body.
#[derive(Debug)]
pub struct Function {
    pub name: String,
    pub visibility: Visibility,
    pub generics: Vec<Generic>,
    pub parameters: Vec<Parameter>,
    pub return_type: Option<Type>,
    pub body: Vec<Statement>,
    pub attributes: Vec<Attribute>,
}

pub struct FunctionView {
    pub name: Seq<char>,
    pub visibility: VisibilityView,
    pub generics: Seq<GenericView>,
    pub parameters: Seq<ParameterView>,
    pub return_type: Option<TypeView>,
    pub body: Seq<StatementView>,
    pub attributes: Seq<AttributeView>,
}

impl Function {
    pub open spec fn view(&self) -> FunctionView {
        FunctionView {
            name: self.name@,
            visibility: self.visibility@,
            generics: generics_view(self.generics@),
            parameters: parameters_view(self.parameters@),
            return_type: optional_type_view(self.return_type),
            body: statements_view(self.body@),
            attributes: attributes_view(self.attributes@),
        }
    }
}

/// A struct declaration.
#[derive(Debug)]
pub struct Struct {
    pub name: String,
    pub visibility: Visibility,
    pub generics: Vec<Generic>,
    pub fields: Vec<Field>,
    pub attributes: Vec<Attribute>,
}

pub struct StructView {
    pub name: Seq<char>,
    pub visibility: VisibilityView,
    pub generics: Seq<GenericView>,
    pub fields: Seq<FieldView>,
    pub attributes: Seq<AttributeView>,
}

impl Struct {
    pub open spec fn view(&self) -> StructView {
        StructView {
            name: self.name@,
            visibility: self.visibility@,
            generics: generics_view(self.generics@),
            fields: fields_view(self.fields@),
            attributes: attributes_view(self.attributes@),
        }
    }
}

/// An enum declaration.
#[derive(Debug)]
pub struct Enum {
    pub name: String,
    pub visibility: Visibility,
    pub generics: Vec<Generic>,
    pub variants: Vec<Variant>,
    pub attributes: Vec<Attribute>,
}

pub struct EnumView {
    pub name: Seq<char>,
    pub visibility: VisibilityView,
    pub generics: Seq<GenericView>,
    pub variants: Seq<VariantView>,
    pub attributes: Seq<AttributeView>,
}

impl Enum {
    pub open spec fn view(&self) -> EnumView {
        EnumView {
            name: self.name@,
            visibility: self.visibility@,
            generics: generics_view(self.generics@),
            variants: variants_view(self.variants@),
            attributes: attributes_view(self.attributes@),
        }
    }
}

/// A constant.
#[derive(Debug)]
pub struct Const {
    pub name: String,
    pub visibility: Visibility,
    pub type_: Type,
    pub value: Expression,
}

pub struct ConstView {
    pub name: Seq<char>,
    pub visibility: VisibilityView,
    pub type_: TypeView,
    pub value: ExpressionView,
}

impl Const {
    pub open spec fn view(&self) -> ConstView {
        ConstView {
            name: self.name@,
            visibility: self.visibility@,
            type_: self.type_@,
            value: self.value@,
        }
    }
}

/// A static variable.
#[derive(Debug)]
pub struct Static {
    pub name: String,
    pub visibility: Visibility,
    pub mutable: bool,
    pub type_: Type,
    pub value: Expression,
}

pub struct StaticView {
    pub name: Seq<char>,
    pub visibility: VisibilityView,
    pub mutable: bool,
    pub type_: TypeView,
    pub value: ExpressionView,
}

impl Static {
    pub open spec fn view(&self) -> StaticView {
        StaticView {
            name: self.name@,
            visibility: self.visibility@,
            mutable: self.mutable,
            type_: self.type_@,
            value: self.value@,
        }
    }
}

/// A type alias.
#[derive(Debug)]
pub struct TypeAlias {
    pub name: String,
    pub visibility: Visibility,
    pub generics: Vec<Generic>,
    pub type_: Type,
}

pub struct TypeAliasView {
    pub name: Seq<char>,
    pub visibility: VisibilityView,
    pub generics: Seq<GenericView>,
    pub type_: TypeView,
}

impl TypeAlias {
    pub open spec fn view(&self) -> TypeAliasView {
        TypeAliasView {
            name: self.name@,
            visibility: self.visibility@,
            generics: generics_view(self.generics@),
            type_: self.type_@,
        }
    }
}

/// A member of an implementation block.
#[derive(Debug)]
pub enum ImplItem {
    Function(Function),
    Const(Const),
    Type(TypeAlias),
}

pub enum ImplItemView {
    Function(FunctionView),
    Const(ConstView),
    Type(TypeAliasView),
}

impl ImplItem {
    pub open spec fn view(&self) -> ImplItemView {
        match self {
            ImplItem::Function(f) => ImplItemView::Function(f@),
            ImplItem::Const(c) => ImplItemView::Const(c@),
            ImplItem::Type(t) => ImplItemView::Type(t@),
        }
    }
}

pub open spec fn impl_items_view(items: Seq<ImplItem>) -> Seq<ImplItemView> {
    Seq::new(items.len(), |i: int| items[i]@)
}

/// An implementation block.
#[derive(Debug)]
pub struct Impl {
    pub target_type: Type,
    pub trait_: Option<Type>,
    pub generics: Vec<Generic>,
    pub items: Vec<ImplItem>,
}

pub struct ImplView {
    pub target_type: TypeView,
    pub trait_: Option<TypeView>,
    pub generics: Seq<GenericView>,
    pub items: Seq<ImplItemView>,
}

impl Impl {
    pub open spec fn view(&self) -> ImplView {
        ImplView {
            target_type: self.target_type@,
            trait_: optional_type_view(self.trait_),
            generics: generics_view(self.generics@),
            items: impl_items_view(self.items@),
        }
    }
}

/// An import.
#[derive(Debug, Clone)]
pub struct Use {
    pub path: String,
    pub visibility: Visibility,
}

pub struct UseView {
    pub path: Seq<char>,
    pub visibility: VisibilityView,
}

impl Use {
    pub open spec fn view(&self) -> UseView {
        UseView { path: self.path@, visibility: self.visibility@ }
    }
}

/// A module and the items inside it.
#[derive(Debug)]
pub struct Module {
    pub name: String,
    pub visibility: Visibility,
    pub items: Vec<Item>,
}

pub struct ModuleView {
    pub name: Seq<char>,
    pub visibility: VisibilityView,
    pub items: Seq<ItemView>,
}

/// A top-level item of a compilation unit.
#[derive(Debug)]
pub enum Item {
    Function(Function),
    Struct(Struct),
    Enum(Enum),
    Impl(Impl),
    Use(Use),
    Mod(Module),
    Const(Const),
    Static(Static),
    Type(TypeAlias),
}

pub enum ItemView {
    Function(FunctionView),
    Struct(StructView),
    Enum(EnumView),
    Impl(ImplView),
    Use(UseView),
    Mod(ModuleView),
    Const(ConstView),
    Static(StaticView),
    Type(TypeAliasView),
}

impl Module {
    pub open spec fn view(&self) -> ModuleView
        decreases self,
    {
        ModuleView {
            name: self.name@,
            visibility: self.visibility@,
            items: items_view(self.items@),
        }
    }
}

impl Item {
    pub open spec fn view(&self) -> ItemView
        decreases self,
    {
        match self {
            Item::Function(f) => ItemView::Function(f@),
            Item::Struct(s) => ItemView::Struct(s@),
            Item::Enum(e) => ItemView::Enum(e@),
            Item::Impl(i) => ItemView::Impl(i@),
            Item::Use(u) => ItemView::Use(u@),
            Item::Mod(m) => ItemView::Mod(m.view()),
            Item::Const(c) => ItemView::Const(c@),
            Item::Static(s) => ItemView::Static(s@),
            Item::Type(t) => ItemView::Type(t@),
        }
    }
}

/// The views of a sequence of items, in order.
pub open spec fn items_view(items: Seq<Item>) -> Seq<ItemView>
    decreases items,
{
    Seq::new(
        items.len(),
        |i: int|
            if 0 <= i < items.len() {
                items[i].view()
            } else {
                ItemView::Use(UseView { path: Seq::empty(), visibility: VisibilityView::Private })
            },
    )
}

/// Where a compilation unit came from and which language versions it is
/// tagged with.
#[derive(Debug, Clone)]
pub struct CompilationMetadata {
    pub source_file: Option<String>,
    pub rust_edition: String,
    pub target_mojo_version: String,
}

pub struct CompilationMetadataView {
    pub source_file: Option<Seq<char>>,
    pub rust_edition: Seq<char>,
    pub target_mojo_version: Seq<char>,
}

impl CompilationMetadata {
    pub open spec fn view(&self) -> CompilationMetadataView {
        CompilationMetadataView {
            source_file: match self.source_file {
                Some(s) => Some(s@),
                None => None,
            },
            rust_edition: self.rust_edition@,
            target_mojo_version: self.target_mojo_version@,
        }
    }
}

/// The root of the tree: the items of one source text, in declaration order.
#[derive(Debug)]
pub struct CompilationUnit {
    pub items: Vec<Item>,
    pub metadata: CompilationMetadata,
}

pub struct CompilationUnitView {
    pub items: Seq<ItemView>,
    pub metadata: CompilationMetadataView,
}

impl CompilationUnit {
    pub open spec fn view(&self) -> CompilationUnitView {
        CompilationUnitView { items: items_view(self.items@), metadata: self.metadata@ }
    }
}

} // verus!
