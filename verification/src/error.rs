//! The failures that the compiler reports.

use crate::syntax::{error_message, error_text};
use crate::text::{occurs_at, occurs_in};
use syn::Error as SynError;
use vstd::prelude::*;

verus! {

/// A failure of the compiler, tagged with the stage it came from. Each
/// variant carries the detail of what went wrong.
#[derive(Debug)]
pub enum Error {
    /// The source text is not valid syntax.
    ParseError(String),
    /// The intermediate representation could not be rendered.
    CodegenError(String),
    /// A file could not be read or written.
    IoError(String),
    /// A construct that the compiler declines to translate.
    UnsupportedFeature(String),
    /// An invariant of the compiler itself was broken.
    InternalError(String),
}

pub enum ErrorView {
    ParseError(Seq<char>),
    CodegenError(Seq<char>),
    IoError(Seq<char>),
    UnsupportedFeature(Seq<char>),
    InternalError(Seq<char>),
}

impl ErrorView {
    /// The message of an error: what kind it is, then the detail.
    pub open spec fn message(self) -> Seq<char> {
        match self {
            ErrorView::ParseError(detail) => "Failed to parse Rust code: "@ + detail,
            ErrorView::CodegenError(detail) => "Failed to generate Mojo code: "@ + detail,
            ErrorView::IoError(detail) => "I/O error: "@ + detail,
            ErrorView::UnsupportedFeature(detail) => "Unsupported Rust feature: "@ + detail,
            ErrorView::InternalError(detail) => "Internal compiler error: "@ + detail,
        }
    }
}

/// The message of a parse error is never empty and says that parsing
/// failed, whatever the detail.
pub proof fn lemma_parse_error_names_parsing(detail: Seq<char>)
    ensures
        ErrorView::ParseError(detail).message().len() > 0,
        occurs_in("parse"@, ErrorView::ParseError(detail).message()),
{
    reveal_strlit("Failed to parse Rust code: ");
    reveal_strlit("parse");
    let message = ErrorView::ParseError(detail).message();
    assert(message.subrange(10, 15) =~= "parse"@);
    assert(occurs_at("parse"@, message, 10));
}

impl Error {
    pub open spec fn view(&self) -> ErrorView {
        match self {
            Error::ParseError(detail) => ErrorView::ParseError(detail@),
            Error::CodegenError(detail) => ErrorView::CodegenError(detail@),
            Error::IoError(detail) => ErrorView::IoError(detail@),
            Error::UnsupportedFeature(detail) => ErrorView::UnsupportedFeature(detail@),
            Error::InternalError(detail) => ErrorView::InternalError(detail@),
        }
    }

    /// A syntax error of the parser becomes a parse error with the parser's
    /// message as its detail.
    pub fn from(err: SynError) -> (r: Error)
        ensures
            r@ == ErrorView::ParseError(error_text(err)),
    {
        Error::ParseError(error_message(&err))
    }

    /// The message of the error.
    pub fn to_string(&self) -> (r: String)
        ensures
            r@ == self@.message(),
    {
        let (mut out, detail) = match self {
            Error::ParseError(detail) => (String::from_str("Failed to parse Rust code: "), detail),
            Error::CodegenError(detail) => (
                String::from_str("Failed to generate Mojo code: "),
                detail,
            ),
            Error::IoError(detail) => (String::from_str("I/O error: "), detail),
            Error::UnsupportedFeature(detail) => (
                String::from_str("Unsupported Rust feature: "),
                detail,
            ),
            Error::InternalError(detail) => (
                String::from_str("Internal compiler error: "),
                detail,
            ),
        };
        out.append(detail.as_str());
        out
    }
}

} // verus!
