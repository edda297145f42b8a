//! The text that emission gives, character for character.

use rust2mojo::ast::{
    BinaryOp, CompilationMetadata, CompilationUnit, Const, Enum, Expression, Field, Function,
    Impl, ImplItem, Item, Literal, MatchArm, Module, Parameter, Pattern, Statement, Static,
    Struct, Type, TypeAlias, UnaryOp, Use, Variant, VariantData, Visibility,
};
use rust2mojo::codegen::generate_mojo;
use rust2mojo::error::Error;
use rust2mojo::Compiler;

const HEAD: &str = "# Generated Mojo code\nfrom memory import UnsafePointer\n\n";

fn unit_of(items: Vec<Item>) -> CompilationUnit {
    CompilationUnit {
        items,
        metadata: CompilationMetadata {
            source_file: None,
            rust_edition: "2021".to_string(),
            target_mojo_version: "24.5".to_string(),
        },
    }
}

fn emit(items: Vec<Item>) -> String {
    match generate_mojo(&unit_of(items)) {
        Ok(text) => text,
        Err(e) => panic!("{}", e.to_string()),
    }
}

fn compile(source: &str) -> String {
    match Compiler::new().compile_str(source) {
        Ok(text) => text,
        Err(e) => panic!("{}", e.to_string()),
    }
}

fn function(name: &str, parameters: Vec<Parameter>, return_type: Option<Type>, body: Vec<Statement>) -> Function {
    Function {
        name: name.to_string(),
        visibility: Visibility::Private,
        generics: Vec::new(),
        parameters,
        return_type,
        body,
        attributes: Vec::new(),
    }
}

/// The lines that the statements give as the body of a function `f`.
fn body_text(body: Vec<Statement>) -> String {
    let text = emit(vec![Item::Function(function("f", Vec::new(), None, body))]);
    let start = format!("{}fn f():\n", HEAD);
    assert!(text.starts_with(&start));
    assert!(text.ends_with("\n\n"));
    text[start.len()..text.len() - 1].to_string()
}

/// The text of an expression, taken from an expression statement.
fn expr_text(e: Expression) -> String {
    let text = body_text(vec![Statement::Expression(e)]);
    assert!(text.starts_with("    "));
    assert!(text.ends_with('\n'));
    text[4..text.len() - 1].to_string()
}

/// The text of a type, taken from a type alias.
fn type_text(t: Type) -> String {
    let text = emit(vec![Item::Type(TypeAlias {
        name: "A".to_string(),
        visibility: Visibility::Private,
        generics: Vec::new(),
        type_: t,
    })]);
    let start = format!("{}alias A = ", HEAD);
    assert!(text.starts_with(&start));
    text[start.len()..text.len() - 2].to_string()
}

fn id(name: &str) -> Expression {
    Expression::Identifier(name.to_string())
}

fn integer(n: i64) -> Expression {
    Expression::Literal(Literal::Integer(n))
}

fn path(name: &str) -> Type {
    Type::Path(name.to_string())
}

fn boxed(e: Expression) -> Box<Expression> {
    Box::new(e)
}

#[test]
fn empty_unit_is_header_and_import() {
    assert_eq!(emit(Vec::new()), HEAD);
    assert_eq!(compile(""), HEAD);
    assert_eq!(compile("   \n// nothing here\n"), HEAD);
}

#[test]
fn output_begins_with_header_and_ends_with_line_feed() {
    for source in ["", "fn a() {}", "struct S { x: i32 }\nfn main() { let x = 1; }"] {
        let text = compile(source);
        assert!(text.starts_with("# Generated Mojo code\n"));
        assert!(text.contains("from memory import UnsafePointer\n"));
        assert!(text.ends_with('\n'));
        assert!(!text.contains("TODO"));
        assert!(!text.contains("FIXME"));
    }
}

#[test]
fn compiling_twice_gives_the_same_text() {
    let compiler = Compiler::new();
    for source in ["", "fn f(a: i32) -> i32 { a * 2 }", "fn broken(", "fn TODO() {}"] {
        let first = compiler.compile_str(source);
        let second = Compiler::new().compile_str(source);
        match (first, second) {
            (Ok(a), Ok(b)) => assert_eq!(a, b),
            (Err(a), Err(b)) => assert_eq!(a.to_string(), b.to_string()),
            _ => panic!("the two outcomes differ"),
        }
    }
}

#[test]
fn function_with_parameters_and_return_type() {
    assert_eq!(
        compile("fn add(a: i32, b: i32) -> i32 { a + b }"),
        format!("{}fn add(a: Int32, b: Int32) -> Int32:\n    a + b\n\n", HEAD)
    );
}

#[test]
fn empty_body_is_pass() {
    assert_eq!(compile("fn empty() {}"), format!("{}fn empty():\n    pass\n\n", HEAD));
}

#[test]
fn entry_point_has_the_canonical_signature() {
    assert_eq!(
        compile("fn main() { let x = 42; }"),
        format!("{}fn main():\n    var x = 42\n\n", HEAD)
    );
    assert_eq!(
        emit(vec![Item::Function(function(
            "main",
            vec![Parameter { name: "argc".to_string(), type_: path("i32"), mutable: false }],
            Some(path("i32")),
            Vec::new(),
        ))]),
        format!("{}fn main():\n    pass\n\n", HEAD)
    );
    assert_eq!(compile("fn main2() {}"), format!("{}fn main2():\n    pass\n\n", HEAD));
}

#[test]
fn binding_with_a_type_keeps_the_type() {
    assert_eq!(
        compile("fn f() { let x: i32 = 42; let mut y: f64; }"),
        format!("{}fn f():\n    var x: Int32 = 42\n    var y: Float64\n\n", HEAD)
    );
}

#[test]
fn declarations_inside_others_are_not_emitted() {
    assert_eq!(
        compile("mod m { fn inner() {} }\nfn outer() { fn nested() {} }"),
        format!("{}# mod m\n\nfn outer():\n    pass\n\n", HEAD)
    );
}

#[test]
fn field_access_in_the_output() {
    assert_eq!(
        compile("fn f() { a.b; a.b.c; }"),
        format!("{}fn f():\n    a.b\n    \"field_access_placeholder\"\n\n", HEAD)
    );
}

#[test]
fn mutable_parameter_is_owned() {
    assert_eq!(
        compile("fn f(mut n: usize, s: &str) {}"),
        format!("{}fn f(owned n: UInt, s: String):\n    pass\n\n", HEAD)
    );
}

#[test]
fn struct_with_fields() {
    assert_eq!(
        compile("struct Point { x: i32, y: i32 }"),
        format!("{}struct Point:\n    var x: Int32\n    var y: Int32\n\n", HEAD)
    );
    assert_eq!(
        compile("struct Pair(u8, f64);"),
        format!("{}struct Pair:\n    var field_0: UInt8\n    var field_1: Float64\n\n", HEAD)
    );
}

#[test]
fn struct_without_fields_is_pass() {
    assert_eq!(compile("struct Unit;"), format!("{}struct Unit:\n    pass\n\n", HEAD));
    assert_eq!(
        emit(vec![Item::Struct(Struct {
            name: "E".to_string(),
            visibility: Visibility::Public,
            generics: Vec::new(),
            fields: Vec::new(),
            attributes: Vec::new(),
        })]),
        format!("{}struct E:\n    pass\n\n", HEAD)
    );
}

#[test]
fn struct_field_of_any_type() {
    assert_eq!(
        emit(vec![Item::Struct(Struct {
            name: "S".to_string(),
            visibility: Visibility::Private,
            generics: Vec::new(),
            fields: vec![Field {
                name: "data".to_string(),
                visibility: Visibility::Private,
                type_: Type::Slice(Box::new(path("Thing"))),
            }],
            attributes: Vec::new(),
        })]),
        format!("{}struct S:\n    var data: List[Thing]\n\n", HEAD)
    );
}

#[test]
fn enum_variants_are_numbered() {
    assert_eq!(
        compile("enum Color { Red, Green, Blue }"),
        format!("{}struct Color:\n    alias Red = 0\n    alias Green = 1\n    alias Blue = 2\n\n", HEAD)
    );
    let many: Vec<Variant> = (0..11)
        .map(|i| Variant { name: format!("V{}", i), data: VariantData::Unit })
        .collect();
    let text = emit(vec![Item::Enum(Enum {
        name: "Many".to_string(),
        visibility: Visibility::Private,
        generics: Vec::new(),
        variants: many,
        attributes: Vec::new(),
    })]);
    assert!(text.ends_with("    alias V9 = 9\n    alias V10 = 10\n\n"));
    assert_eq!(
        emit(vec![Item::Enum(Enum {
            name: "Never".to_string(),
            visibility: Visibility::Private,
            generics: Vec::new(),
            variants: Vec::new(),
            attributes: Vec::new(),
        })]),
        format!("{}struct Never:\n    pass\n\n", HEAD)
    );
}

#[test]
fn primitive_type_table() {
    let table = [
        ("i8", "Int8"),
        ("i16", "Int16"),
        ("i32", "Int32"),
        ("i64", "Int64"),
        ("u8", "UInt8"),
        ("u16", "UInt16"),
        ("u32", "UInt32"),
        ("u64", "UInt64"),
        ("isize", "Int"),
        ("usize", "UInt"),
        ("f32", "Float32"),
        ("f64", "Float64"),
        ("bool", "Bool"),
        ("str", "String"),
    ];
    for (from, to) in table {
        assert_eq!(type_text(path(from)), to);
    }
}

#[test]
fn unmapped_type_names_pass_through() {
    for name in ["String", "Point", "i128", "char", "std::vec::Vec", "I32", "i32 ", ""] {
        assert_eq!(type_text(path(name)), name);
    }
    assert_eq!(type_text(Type::Generic("T".to_string())), "T");
    assert_eq!(type_text(Type::Generic("i32".to_string())), "i32");
}

#[test]
fn compound_types() {
    assert_eq!(type_text(Type::Unit), "None");
    assert_eq!(type_text(Type::Reference { mutable: true, inner: Box::new(path("i32")) }), "Int32");
    assert_eq!(
        type_text(Type::Pointer { mutable: false, inner: Box::new(path("u8")) }),
        "UnsafePointer[UInt8]"
    );
    assert_eq!(
        type_text(Type::Array { inner: Box::new(path("f32")), size: Some(16) }),
        "InlineArray[Float32, 16]"
    );
    assert_eq!(
        type_text(Type::Array { inner: Box::new(path("f32")), size: Some(0) }),
        "InlineArray[Float32, 0]"
    );
    assert_eq!(type_text(Type::Array { inner: Box::new(path("f32")), size: None }), "List[Float32]");
    assert_eq!(type_text(Type::Slice(Box::new(Type::Slice(Box::new(path("bool")))))), "List[List[Bool]]");
    assert_eq!(type_text(Type::Tuple(Vec::new())), "Tuple[]");
    assert_eq!(type_text(Type::Tuple(vec![path("i32")])), "Tuple[Int32]");
    assert_eq!(
        type_text(Type::Tuple(vec![path("i32"), Type::Unit, path("X")])),
        "Tuple[Int32, None, X]"
    );
    assert_eq!(
        type_text(Type::Function {
            params: vec![path("i32"), Type::Generic("T".to_string())],
            return_: Box::new(Type::Slice(Box::new(path("bool")))),
        }),
        "fn(Int32, T) -> List[Bool]"
    );
    assert_eq!(
        type_text(Type::Function { params: Vec::new(), return_: Box::new(Type::Unit) }),
        "fn() -> None"
    );
}

#[test]
fn literals() {
    assert_eq!(expr_text(integer(0)), "0");
    assert_eq!(expr_text(integer(-17)), "-17");
    assert_eq!(expr_text(integer(i64::MIN)), "-9223372036854775808");
    assert_eq!(expr_text(integer(i64::MAX)), "9223372036854775807");
    assert_eq!(expr_text(Expression::Literal(Literal::Float("2.50".to_string()))), "2.50");
    assert_eq!(expr_text(Expression::Literal(Literal::Boolean(true))), "True");
    assert_eq!(expr_text(Expression::Literal(Literal::Boolean(false))), "False");
    assert_eq!(expr_text(Expression::Literal(Literal::String("hi".to_string()))), "\"hi\"");
    assert_eq!(
        expr_text(Expression::Literal(Literal::String("a\"b\\c\nd".to_string()))),
        "\"a\\\"b\\\\c\\nd\""
    );
    assert_eq!(expr_text(Expression::Literal(Literal::String(String::new()))), "\"\"");
    assert_eq!(expr_text(Expression::Literal(Literal::Char('x'))), "\"x\"");
    assert_eq!(expr_text(Expression::Literal(Literal::Char('"'))), "\"\\\"\"");
    assert_eq!(expr_text(Expression::Literal(Literal::Char('\n'))), "\"\\n\"");
}

#[test]
fn binary_operators() {
    let table = [
        (BinaryOp::Add, "+"),
        (BinaryOp::Sub, "-"),
        (BinaryOp::Mul, "*"),
        (BinaryOp::Div, "/"),
        (BinaryOp::Mod, "%"),
        (BinaryOp::Eq, "=="),
        (BinaryOp::Ne, "!="),
        (BinaryOp::Lt, "<"),
        (BinaryOp::Le, "<="),
        (BinaryOp::Gt, ">"),
        (BinaryOp::Ge, ">="),
        (BinaryOp::And, "and"),
        (BinaryOp::Or, "or"),
        (BinaryOp::BitAnd, "&"),
        (BinaryOp::BitOr, "|"),
        (BinaryOp::BitXor, "^"),
        (BinaryOp::Shl, "<<"),
        (BinaryOp::Shr, ">>"),
        (BinaryOp::Assign, "="),
    ];
    for (op, symbol) in table {
        assert_eq!(
            expr_text(Expression::Binary { left: boxed(id("a")), op, right: boxed(id("b")) }),
            format!("a {} b", symbol)
        );
    }
}

#[test]
fn nested_operations_are_parenthesized() {
    let sum = Expression::Binary { left: boxed(id("a")), op: BinaryOp::Add, right: boxed(id("b")) };
    let negated = Expression::Unary { op: UnaryOp::Neg, operand: boxed(id("c")) };
    assert_eq!(
        expr_text(Expression::Binary { left: boxed(sum), op: BinaryOp::Mul, right: boxed(negated) }),
        "(a + b) * (-c)"
    );
    assert_eq!(compile("fn f() { 1 + 2 * 3 }"), format!("{}fn f():\n    1 + (2 * 3)\n\n", HEAD));
    let inner = Expression::Unary { op: UnaryOp::Not, operand: boxed(id("a")) };
    assert_eq!(expr_text(Expression::Unary { op: UnaryOp::Not, operand: boxed(inner) }), "not (not a)");
}

#[test]
fn unary_operators() {
    assert_eq!(expr_text(Expression::Unary { op: UnaryOp::Not, operand: boxed(id("a")) }), "not a");
    assert_eq!(expr_text(Expression::Unary { op: UnaryOp::Neg, operand: boxed(integer(5)) }), "-5");
    assert_eq!(expr_text(Expression::Unary { op: UnaryOp::Deref, operand: boxed(id("p")) }), "p[]");
}

#[test]
fn calls_and_accesses() {
    assert_eq!(expr_text(id("x")), "x");
    assert_eq!(expr_text(Expression::Path("a::b".to_string())), "a::b");
    assert_eq!(expr_text(Expression::Call { function: boxed(id("f")), args: Vec::new() }), "f()");
    assert_eq!(
        expr_text(Expression::Call { function: boxed(id("f")), args: vec![integer(1), id("y"), integer(3)] }),
        "f(1, y, 3)"
    );
    assert_eq!(
        expr_text(Expression::MethodCall {
            receiver: boxed(id("v")),
            method: "push".to_string(),
            args: vec![Expression::Literal(Literal::String("x\"y".to_string()))],
        }),
        "v.push(\"x\\\"y\")"
    );
    assert_eq!(
        expr_text(Expression::FieldAccess {
            object: boxed(Expression::Call { function: boxed(id("f")), args: Vec::new() }),
            field: "x".to_string(),
        }),
        "f().x"
    );
    assert_eq!(
        expr_text(Expression::Index {
            object: boxed(id("v")),
            index: boxed(Expression::Binary { left: boxed(id("i")), op: BinaryOp::Add, right: boxed(integer(1)) }),
        }),
        "v[i + 1]"
    );
    assert_eq!(expr_text(Expression::Cast { expr: boxed(id("n")), type_: path("f64") }), "Float64(n)");
    assert_eq!(expr_text(Expression::Reference { mutable: true, expr: boxed(id("r")) }), "r");
    assert_eq!(expr_text(Expression::Dereference(boxed(id("q")))), "q[]");
    assert_eq!(expr_text(Expression::Block(vec![Statement::Return(None)])), "None");
    assert_eq!(expr_text(Expression::Array(Vec::new())), "[]");
    assert_eq!(expr_text(Expression::Array(vec![integer(1), integer(-2)])), "[1, -2]");
    assert_eq!(expr_text(Expression::Tuple(vec![id("a")])), "(a)");
    assert_eq!(
        expr_text(Expression::Tuple(vec![
            Expression::Literal(Literal::Char('c')),
            Expression::Literal(Literal::Float("2.5".to_string())),
        ])),
        "(\"c\", 2.5)"
    );
    assert_eq!(
        expr_text(Expression::Struct {
            name: "P".to_string(),
            fields: vec![("x".to_string(), integer(1)), ("y".to_string(), id("z"))],
        }),
        "P(x=1, y=z)"
    );
    assert_eq!(expr_text(Expression::Struct { name: "P".to_string(), fields: Vec::new() }), "P()");
}

#[test]
fn bindings_and_returns() {
    assert_eq!(
        body_text(vec![
            Statement::Let {
                name: "a".to_string(),
                mutable: true,
                type_: Some(Type::Array { inner: Box::new(path("i64")), size: Some(3) }),
                value: Some(Expression::Array(vec![integer(1), integer(2), integer(3)])),
            },
            Statement::Let { name: "b".to_string(), mutable: false, type_: None, value: None },
            Statement::Let { name: "c".to_string(), mutable: false, type_: Some(path("bool")), value: None },
            Statement::Let { name: "d".to_string(), mutable: false, type_: None, value: Some(id("a")) },
            Statement::Return(Some(id("d"))),
            Statement::Return(None),
        ]),
        "    var a: InlineArray[Int64, 3] = [1, 2, 3]\n    var b\n    var c: Bool\n    var d = a\n    return d\n    return\n"
    );
}

#[test]
fn blocks_are_indented_one_level_further() {
    assert_eq!(
        body_text(vec![
            Statement::While { condition: Expression::Literal(Literal::Boolean(true)), body: Vec::new() },
            Statement::For {
                pattern: "i".to_string(),
                iterator: id("v"),
                body: vec![Statement::Expression(id("i"))],
            },
            Statement::If {
                condition: id("c"),
                then_branch: Vec::new(),
                else_branch: Some(vec![Statement::Return(None)]),
            },
            Statement::If { condition: id("d"), then_branch: vec![Statement::Expression(id("e"))], else_branch: None },
            Statement::If { condition: id("g"), then_branch: Vec::new(), else_branch: Some(Vec::new()) },
            Statement::Block(vec![Statement::Expression(id("k"))]),
            Statement::Block(Vec::new()),
        ]),
        concat_lines(&[
            "    while True:",
            "        pass",
            "    for i in v:",
            "        i",
            "    if c:",
            "        pass",
            "    else:",
            "        return",
            "    if d:",
            "        e",
            "    if g:",
            "        pass",
            "    else:",
            "        pass",
            "    if True:",
            "        k",
            "    if True:",
            "        pass",
        ])
    );
}

fn concat_lines(lines: &[&str]) -> String {
    let mut out = String::new();
    for l in lines {
        out.push_str(l);
        out.push('\n');
    }
    out
}

#[test]
fn nesting_adds_four_spaces_per_level() {
    assert_eq!(
        compile("fn f() { if a { while b { for i in c { return i; } } } else if d { e; } else { g; } }"),
        format!(
            "{}{}",
            HEAD,
            concat_lines(&[
                "fn f():",
                "    if a:",
                "        while b:",
                "            for i in c:",
                "                return i",
                "    else:",
                "        if d:",
                "            e",
                "        else:",
                "            g",
                "",
            ])
        )
    );
}

#[test]
fn match_is_a_chain_of_conditions() {
    let arms = vec![
        MatchArm { pattern: Pattern::Literal(Literal::Integer(1)), guard: None, body: Vec::new() },
        MatchArm {
            pattern: Pattern::Enum {
                path: "Option".to_string(),
                variant: "Some".to_string(),
                fields: vec![Pattern::Identifier("x".to_string())],
            },
            guard: Some(id("g")),
            body: vec![Statement::Expression(id("x"))],
        },
        MatchArm {
            pattern: Pattern::Tuple(vec![
                Pattern::Wildcard,
                Pattern::Struct {
                    name: "S".to_string(),
                    fields: vec![
                        ("a".to_string(), Pattern::Wildcard),
                        ("b".to_string(), Pattern::Literal(Literal::Boolean(true))),
                    ],
                },
            ]),
            guard: None,
            body: Vec::new(),
        },
        MatchArm { pattern: Pattern::Identifier("other".to_string()), guard: Some(id("h")), body: Vec::new() },
        MatchArm { pattern: Pattern::Wildcard, guard: None, body: vec![Statement::Return(None)] },
    ];
    assert_eq!(
        body_text(vec![Statement::Match {
            expr: Expression::Call { function: boxed(id("m")), args: Vec::new() },
            arms,
        }]),
        concat_lines(&[
            "    if m() == 1:",
            "        pass",
            "    elif m() == Option.Some(x) and g:",
            "        x",
            "    elif m() == (_, S(a=_, b=True)):",
            "        pass",
            "    elif True and h:",
            "        pass",
            "    elif True:",
            "        return",
        ])
    );
}

#[test]
fn match_without_arms_is_pass() {
    assert_eq!(body_text(vec![Statement::Match { expr: id("m"), arms: Vec::new() }]), "    pass\n");
}

#[test]
fn implementation_block_lists_its_members() {
    let method = function(
        "area",
        vec![Parameter { name: "scale".to_string(), type_: path("f64"), mutable: false }],
        Some(path("f64")),
        vec![Statement::Return(Some(id("scale")))],
    );
    let text = emit(vec![Item::Impl(Impl {
        target_type: path("Point"),
        trait_: Some(path("Shape")),
        generics: Vec::new(),
        items: vec![
            ImplItem::Function(method),
            ImplItem::Const(Const {
                name: "K".to_string(),
                visibility: Visibility::Private,
                type_: path("i32"),
                value: integer(1),
            }),
            ImplItem::Type(TypeAlias {
                name: "T".to_string(),
                visibility: Visibility::Private,
                generics: Vec::new(),
                type_: path("u8"),
            }),
        ],
    })]);
    assert_eq!(
        text,
        format!(
            "{}{}",
            HEAD,
            concat_lines(&[
                "# impl Shape for Point",
                "fn area(scale: Float64) -> Float64:",
                "    return scale",
                "alias K: Int32 = 1",
                "alias T = UInt8",
                "",
            ])
        )
    );
    assert_eq!(
        emit(vec![Item::Impl(Impl {
            target_type: path("Point"),
            trait_: None,
            generics: Vec::new(),
            items: Vec::new(),
        })]),
        format!("{}# impl Point\n\n", HEAD)
    );
}

#[test]
fn imports_constants_statics_and_aliases() {
    assert_eq!(
        emit(vec![
            Item::Use(Use { path: "use a :: b ;".to_string(), visibility: Visibility::Private }),
            Item::Const(Const {
                name: "A".to_string(),
                visibility: Visibility::Public,
                type_: path("i32"),
                value: integer(42),
            }),
            Item::Static(Static {
                name: "B".to_string(),
                visibility: Visibility::Private,
                mutable: true,
                type_: path("bool"),
                value: Expression::Literal(Literal::Boolean(true)),
            }),
            Item::Type(TypeAlias {
                name: "D".to_string(),
                visibility: Visibility::Private,
                generics: Vec::new(),
                type_: Type::Array { inner: Box::new(path("u8")), size: Some(4) },
            }),
        ]),
        format!(
            "{}{}",
            HEAD,
            concat_lines(&[
                "# use a :: b ;",
                "",
                "alias A: Int32 = 42",
                "",
                "var B: Bool = True",
                "",
                "alias D = InlineArray[UInt8, 4]",
                "",
            ])
        )
    );
    assert_eq!(
        compile("use std::fmt;\nconst VALUE: i32 = 42;\nstatic GLOBAL: i32 = 7;\ntype Id = u64;"),
        format!(
            "{}{}",
            HEAD,
            concat_lines(&[
                "# use std :: fmt ;",
                "",
                "alias VALUE: Int32 = 42",
                "",
                "var GLOBAL: Int32 = 7",
                "",
                "alias Id = UInt64",
                "",
            ])
        )
    );
}

#[test]
fn module_is_followed_by_its_items() {
    let inner = Module {
        name: "inner".to_string(),
        visibility: Visibility::Private,
        items: vec![Item::Function(function("g", Vec::new(), None, Vec::new()))],
    };
    let outer = Module {
        name: "outer".to_string(),
        visibility: Visibility::Public,
        items: vec![
            Item::Struct(Struct {
                name: "U".to_string(),
                visibility: Visibility::Private,
                generics: Vec::new(),
                fields: Vec::new(),
                attributes: Vec::new(),
            }),
            Item::Mod(inner),
        ],
    };
    assert_eq!(
        emit(vec![Item::Mod(outer), Item::Function(function("h", Vec::new(), None, Vec::new()))]),
        format!(
            "{}{}",
            HEAD,
            concat_lines(&[
                "# mod outer",
                "struct U:",
                "    pass",
                "",
                "# mod inner",
                "fn g():",
                "    pass",
                "",
                "",
                "",
                "fn h():",
                "    pass",
                "",
            ])
        )
    );
}

#[test]
fn items_keep_declaration_order() {
    assert_eq!(
        compile("fn b() {}\nstruct A;\nfn a() {}\nenum E { X }"),
        format!(
            "{}{}",
            HEAD,
            concat_lines(&[
                "fn b():",
                "    pass",
                "",
                "struct A:",
                "    pass",
                "",
                "fn a():",
                "    pass",
                "",
                "struct E:",
                "    alias X = 0",
                "",
            ])
        )
    );
}

fn codegen_detail(result: Result<String, Error>) -> String {
    match result {
        Err(Error::CodegenError(detail)) => detail,
        Err(e) => panic!("another error: {}", e.to_string()),
        Ok(text) => panic!("no error: {}", text),
    }
}

#[test]
fn reserved_marker_in_the_output_is_a_codegen_error() {
    let expected = "the output would hold a reserved marker";
    assert_eq!(codegen_detail(Compiler::new().compile_str("fn TODO() {}")), expected);
    assert_eq!(codegen_detail(Compiler::new().compile_str("struct XFIXMEX;")), expected);
    assert_eq!(
        codegen_detail(Compiler::new().compile_str("fn f() { let s = \"a TODO here\"; }")),
        expected
    );
    assert_eq!(
        codegen_detail(generate_mojo(&unit_of(vec![Item::Use(Use {
            path: "FIXME".to_string(),
            visibility: Visibility::Private,
        })]))),
        expected
    );
}

#[test]
fn text_close_to_a_marker_is_accepted() {
    assert_eq!(compile("fn todo() {}"), format!("{}fn todo():\n    pass\n\n", HEAD));
    assert_eq!(compile("fn TODQ() {}"), format!("{}fn TODQ():\n    pass\n\n", HEAD));
    assert_eq!(compile("fn FIXM() {}"), format!("{}fn FIXM():\n    pass\n\n", HEAD));
    assert_eq!(
        compile("fn f() { TOD; O; }"),
        format!("{}fn f():\n    TOD\n    O\n\n", HEAD)
    );
}

#[test]
fn error_messages_name_the_stage() {
    assert_eq!(
        Error::ParseError("x".to_string()).to_string(),
        "Failed to parse Rust code: x"
    );
    assert_eq!(
        Error::CodegenError("x".to_string()).to_string(),
        "Failed to generate Mojo code: x"
    );
    assert_eq!(Error::IoError("x".to_string()).to_string(), "I/O error: x");
    assert_eq!(
        Error::UnsupportedFeature("x".to_string()).to_string(),
        "Unsupported Rust feature: x"
    );
    assert_eq!(
        Error::InternalError(String::new()).to_string(),
        "Internal compiler error: "
    );
}

#[test]
fn parse_error_carries_the_message_of_the_parser() {
    let e = Compiler::new().compile_str("fn incomplete_function(").unwrap_err();
    assert!(matches!(e, Error::ParseError(_)));
    let message = e.to_string();
    assert!(message.starts_with("Failed to parse Rust code: "));
    assert!(message.len() > "Failed to parse Rust code: ".len());
    let e = Compiler::new().compile_str("struct S { x: }").unwrap_err();
    let expected = syn::parse_str::<syn::File>("struct S { x: }").err().unwrap().to_string();
    assert_eq!(e.to_string(), format!("Failed to parse Rust code: {}", expected));
}
