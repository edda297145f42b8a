//! The compiler can be created and compiles a trivial function.

use rust2mojo::Compiler;

#[test]
fn test_compiler_creation() {
    let compiler = Compiler::new();
    let default_compiler = Compiler::default();

    // Just ensure they can be created without panicking
    assert_eq!(
        std::mem::size_of_val(&compiler),
        std::mem::size_of_val(&default_compiler)
    );
}

#[test]
fn test_simple_function() {
    let compiler = Compiler::new();
    let rust_code = "fn test() {}";
    let result = compiler.compile_str(rust_code);
    assert!(result.is_ok());
}
