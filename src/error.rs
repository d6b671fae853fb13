use vstd::prelude::*;
use vstd::utf8::encode_utf8;

verus! {

/// Why a translation failed. The first failure met in a depth-first walk ends
/// the translation.
#[derive(Debug)]
pub enum TranslateError {
    /// A node kind or operator with no rendering, with the source text of the
    /// node it was met in.
    UnsupportedConstruct { kind: String, source: String },
    /// A node that lacks a part the output needs (a function's name, a
    /// declaration's initializer).
    MissingRequiredOperand { context: String },
    /// An assignment whose left-hand side is not an identifier or a member access.
    InvalidAssignmentTarget { kind: String },
}

/// What a `TranslateError` holds, with the offending source text as UTF-8 bytes.
pub enum ErrorView {
    Unsupported { kind: Seq<char>, source: Seq<u8> },
    Missing { context: Seq<char> },
    InvalidTarget { kind: Seq<char> },
}

impl View for TranslateError {
    type V = ErrorView;

    open spec fn view(&self) -> ErrorView {
        match self {
            TranslateError::UnsupportedConstruct { kind, source } => ErrorView::Unsupported {
                kind: kind@,
                source: encode_utf8(source@),
            },
            TranslateError::MissingRequiredOperand { context } => ErrorView::Missing {
                context: context@,
            },
            TranslateError::InvalidAssignmentTarget { kind } => ErrorView::InvalidTarget {
                kind: kind@,
            },
        }
    }
}

} // verus!
