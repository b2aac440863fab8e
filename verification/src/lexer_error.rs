use crate::span::Span;
use crate::token::Keyword;
use vstd::prelude::*;

verus! {

/// What went wrong while reading source characters or keywords.
#[derive(Debug, Clone, Copy, PartialEq, Eq, Structural)]
pub enum ErrorKind {
    /// The reader ran past the last character of its input.
    EndOfFile,
    /// A keyword was used as an identifier where it is reserved.
    ForbiddenIdentifier(Keyword),
    /// A character that starts no token.
    UnrecognizedCodePoint(char),
}

/// An error of the lexer: its kind and where in the source it occurred.
#[derive(Debug, Clone, Copy, PartialEq, Eq, Structural)]
pub struct Error {
    pub kind: ErrorKind,
    pub span: Span,
}

impl Error {
    pub open spec fn spec_kind(self) -> ErrorKind {
        self.kind
    }

    pub open spec fn spec_span(self) -> Span {
        self.span
    }

    pub open spec fn spec_of(kind: ErrorKind) -> Error {
        Error { kind, span: Span::spec_empty() }
    }

    /// An error of the given kind, with an empty span.
    pub fn of(kind: ErrorKind) -> (error: Error)
        ensures
            error == Error::spec_of(kind),
            error.spec_kind() == kind,
            error.spec_span() == Span::spec_empty(),
    {
        Error { kind, span: Span::empty() }
    }

    /// An error of the given kind at the given span.
    pub fn new(kind: ErrorKind, span: Span) -> (error: Error)
        ensures
            error.spec_kind() == kind,
            error.spec_span() == span,
    {
        Error { kind, span }
    }

    pub fn kind(&self) -> (kind: &ErrorKind)
        ensures
            *kind == self.spec_kind(),
    {
        &self.kind
    }

    pub fn span(&self) -> (span: &Span)
        ensures
            *span == self.spec_span(),
    {
        &self.span
    }
}

} // verus!
