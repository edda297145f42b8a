//! A source-to-source compiler from Rust to Mojo.
//!
//! A source text is parsed, lowered into an intermediate representation
//! ([`ast`]) and rendered as Mojo text ([`codegen`]). The stages are strictly
//! linear and keep no state between calls.

pub mod ast;
pub mod codegen;
pub mod comparison;
pub mod error;
pub mod parser;
pub mod syntax;
pub mod text;

pub use crate::error::Error;

use crate::codegen::{emitted, generate_mojo, header_line, import_line, text_outcome_view};
use crate::error::ErrorView;
use crate::parser::{lowered_source, parse_rust_code};
use crate::text::{is_prefix_of, occurs_in};
use vstd::prelude::*;

verus! {

/// What compiling a source text gives: the text of the lowered unit, or the
/// first failure, from lowering or from emission.
pub open spec fn compiled(source: Seq<char>) -> Result<Seq<char>, ErrorView> {
    match lowered_source(source) {
        Ok(unit) => emitted(unit),
        Err(err) => Err(err),
    }
}

/// Compiling a text twice gives the same outcome: any two results that
/// `Compiler::compile_str` may hand back for one text both succeed or both
/// fail, and where they succeed they hold the same text.
pub proof fn lemma_compile_is_deterministic(
    source: Seq<char>,
    first: Result<String, Error>,
    second: Result<String, Error>,
)
    requires
        text_outcome_view(first) == compiled(source),
        text_outcome_view(second) == compiled(source),
    ensures
        first is Ok <==> second is Ok,
        first is Ok ==> first->Ok_0@ == second->Ok_0@,
        first is Err ==> first->Err_0@ == second->Err_0@,
{
}

/// The compiler. It has no configuration and holds no state.
pub struct Compiler {}

impl Compiler {
    /// Creates a compiler.
    pub fn new() -> (c: Compiler)
        ensures
            c == (Compiler {}),
    {
        Compiler {}
    }

    /// Compiles a source text to Mojo text. Any text is accepted: one that is
    /// not valid syntax gives a parse error. The outcome is a function of
    /// the text alone. Text that is handed out begins with the header line,
    /// holds the import line, ends with a line feed and holds no reserved
    /// marker.
    pub fn compile_str(&self, rust_code: &str) -> (r: Result<String, Error>)
        ensures
            text_outcome_view(r) == compiled(rust_code@),
            r matches Ok(text) ==> {
                &&& is_prefix_of(header_line(), text@)
                &&& occurs_in(import_line(), text@)
                &&& text@.len() > 0 && text@.last() == '\n'
                &&& !occurs_in("TODO"@, text@)
                &&& !occurs_in("FIXME"@, text@)
            },
    {
        match parse_rust_code(rust_code) {
            Ok(unit) => generate_mojo(&unit),
            Err(err) => Err(err),
        }
    }
}

impl Default for Compiler {
    fn default() -> (c: Compiler)
        ensures
            c == (Compiler {}),
    {
        Compiler::new()
    }
}

} // verus!
