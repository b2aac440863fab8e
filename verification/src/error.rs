use crate::ast::{Ident, IdentView};
use crate::lexer_error::Error as LexerError;
use crate::span::Span;
use crate::text::{debug_lexer_error, lexer_error_debug};
use crate::token::{token_value_text, Token};
use crate::token_reader::ReadError;
use vstd::prelude::*;
use vstd::string::*;

verus! {

/// A parse error: what went wrong, where, and an optional diagnostic.
#[derive(Debug, PartialEq)]
pub struct Error {
    kind: ErrorKind,
    span: Span,
    pub diagnostic: Option<Diagnostic>,
}

/// A label for a span of the source, to show with an error.
#[derive(Debug, PartialEq)]
pub struct Diagnostic {
    pub label: String,
    pub span: Span,
}

/// What went wrong while parsing.
#[derive(Debug, PartialEq)]
#[non_exhaustive]
pub enum ErrorKind {
    EndOfStream,
    LexerError(LexerError),
    SyntaxError(String, Span),
    UnexpectedToken(Token),
    UnexpectedIdent(Ident),
    ForbiddenIdentifier(String),
}

/// An error kind as a value: strings as their characters, identifiers by
/// their views.
pub enum ErrorKindView {
    EndOfStream,
    LexerError(LexerError),
    SyntaxError(Seq<char>, Span),
    UnexpectedToken(Token),
    UnexpectedIdent(IdentView),
    ForbiddenIdentifier(Seq<char>),
}

/// An error as a value.
pub struct ErrorView {
    pub kind: ErrorKindView,
    pub span: Span,
    pub diagnostic: Option<(Seq<char>, Span)>,
}

impl View for ErrorKind {
    type V = ErrorKindView;

    open spec fn view(&self) -> ErrorKindView {
        match self {
            ErrorKind::EndOfStream => ErrorKindView::EndOfStream,
            ErrorKind::LexerError(e) => ErrorKindView::LexerError(*e),
            ErrorKind::SyntaxError(m, s) => ErrorKindView::SyntaxError(m@, *s),
            ErrorKind::UnexpectedToken(t) => ErrorKindView::UnexpectedToken(*t),
            ErrorKind::UnexpectedIdent(i) => ErrorKindView::UnexpectedIdent(i@),
            ErrorKind::ForbiddenIdentifier(s) => ErrorKindView::ForbiddenIdentifier(s@),
        }
    }
}

impl ErrorKind {
    /// The description of the error kind, where it has one.
    pub fn get_description(&self) -> (text: Option<String>)
        ensures
            match description(self@) {
                Some(d) => text matches Some(t) && t@ == d,
                None => text is None,
            },
    {
        match self {
            ErrorKind::ForbiddenIdentifier(keyword) => {
                let mut text = String::from_str("`");
                text.append(keyword.as_str());
                text.append("` is not allowed as an identifier in this context");
                Some(text)
            },
            ErrorKind::UnexpectedToken(_) => Some(String::from_str("Unexpected token")),
            _ => None,
        }
    }

}

impl View for Error {
    type V = ErrorView;

    closed spec fn view(&self) -> ErrorView {
        ErrorView {
            kind: self.kind@,
            span: self.span,
            diagnostic: match self.diagnostic {
                Some(d) => Some((d.label@, d.span)),
                None => None,
            },
        }
    }
}

/// The error of the given kind at the given span, without diagnostic.
pub open spec fn error_at(kind: ErrorKindView, span: Span) -> ErrorView {
    ErrorView { kind, span, diagnostic: None }
}

/// The error for a token that may not stand where it stands.
pub open spec fn unexpected_token_error(token: Token) -> ErrorView {
    error_at(ErrorKindView::UnexpectedToken(token), token.span)
}

/// The error for running out of tokens at position `pos`.
pub open spec fn end_of_stream_error(pos: usize) -> ErrorView {
    error_at(ErrorKindView::EndOfStream, Span { start: pos, end: pos })
}

/// The error for a lexer error.
pub open spec fn lexer_error_error(error: LexerError) -> ErrorView {
    error_at(ErrorKindView::LexerError(error), error.span)
}

/// The description of an error kind, where it has one.
pub open spec fn description(kind: ErrorKindView) -> Option<Seq<char>> {
    match kind {
        ErrorKindView::ForbiddenIdentifier(keyword) => Some(
            "`"@ + keyword + "` is not allowed as an identifier in this context"@,
        ),
        ErrorKindView::UnexpectedToken(_) => Some("Unexpected token"@),
        _ => None,
    }
}

/// The message that an error is shown with. A token's value is shown by its
/// text (see `token_value_text`), a lexer error in its derived `Debug` form.
pub open spec fn error_message(kind: ErrorKindView) -> Seq<char> {
    match kind {
        ErrorKindView::EndOfStream => "Syntax error: Unexpected end of input"@,
        ErrorKindView::LexerError(e) => "Lexer error '"@ + lexer_error_debug(e) + "'"@,
        ErrorKindView::SyntaxError(message, _) => "Syntax error: "@ + message,
        ErrorKindView::UnexpectedToken(token) => "Syntax error: Unexpected token `"@
            + token_value_text(token.value) + "`"@,
        ErrorKindView::UnexpectedIdent(ident) => "Syntax Error: Unexpected identifier `"@
            + ident.name + "`"@,
        ErrorKindView::ForbiddenIdentifier(identifier) => "Syntax error: Forbidden identifier `"@
            + identifier + "`"@,
    }
}

impl Error {
    /// An error of the given kind with an empty span.
    pub fn of(kind: ErrorKind) -> (error: Error)
        ensures
            error@ == error_at(kind@, Span::spec_empty()),
    {
        Error { kind, span: Span::empty(), diagnostic: None }
    }

    pub fn lexer_error(error: LexerError, span: Span) -> (result: Error)
        ensures
            result@ == error_at(ErrorKindView::LexerError(error), span),
    {
        Error { kind: ErrorKind::LexerError(error), span, diagnostic: None }
    }

    pub fn syntax_error(message: String, span: Span) -> (error: Error)
        ensures
            error@ == error_at(ErrorKindView::SyntaxError(message@, Span::spec_empty()), span),
    {
        Error { kind: ErrorKind::SyntaxError(message, Span::empty()), span, diagnostic: None }
    }

    pub fn unexpected_identifier(ident: Ident) -> (error: Error)
        ensures
            error@ == error_at(ErrorKindView::UnexpectedIdent(ident@), ident.span),
    {
        let span = ident.span;
        Error { kind: ErrorKind::UnexpectedIdent(ident), span, diagnostic: None }
    }

    pub fn unexpected_token(token: Token) -> (error: Error)
        ensures
            error@ == unexpected_token_error(token),
    {
        let span = token.span;
        Error { kind: ErrorKind::UnexpectedToken(token), span, diagnostic: None }
    }

    pub fn forbidden_identifier(identifier: String, span: Span) -> (error: Error)
        ensures
            error@ == error_at(ErrorKindView::ForbiddenIdentifier(identifier@), span),
    {
        Error { kind: ErrorKind::ForbiddenIdentifier(identifier), span, diagnostic: None }
    }

    pub fn end_of_stream(pos: usize) -> (error: Error)
        ensures
            error@ == end_of_stream_error(pos),
    {
        Error { kind: ErrorKind::EndOfStream, span: Span::new(pos, pos), diagnostic: None }
    }

    pub fn kind(&self) -> (kind: &ErrorKind)
        ensures
            kind@ == self@.kind,
    {
        &self.kind
    }

    /// The message that the error is shown with.
    pub fn message(&self) -> (text: String)
        ensures
            text@ == error_message(self@.kind),
    {
        match &self.kind {
            ErrorKind::EndOfStream => String::from_str("Syntax error: Unexpected end of input"),
            ErrorKind::LexerError(e) => {
                let mut text = String::from_str("Lexer error '");
                let shown = debug_lexer_error(e);
                text.append(shown.as_str());
                text.append("'");
                text
            },
            ErrorKind::SyntaxError(message, _) => {
                let mut text = String::from_str("Syntax error: ");
                text.append(message.as_str());
                text
            },
            ErrorKind::UnexpectedToken(token) => {
                let mut text = String::from_str("Syntax error: Unexpected token `");
                let shown = token.value.to_string();
                text.append(shown.as_str());
                text.append("`");
                text
            },
            ErrorKind::UnexpectedIdent(ident) => {
                let mut text = String::from_str("Syntax Error: Unexpected identifier `");
                text.append(ident.name.as_str());
                text.append("`");
                text
            },
            ErrorKind::ForbiddenIdentifier(identifier) => {
                let mut text = String::from_str("Syntax error: Forbidden identifier `");
                text.append(identifier.as_str());
                text.append("`");
                text
            },
        }
    }

    pub closed spec fn spec_from_lexer_error(error: LexerError) -> Error {
        Error { kind: ErrorKind::LexerError(error), span: error.span, diagnostic: None }
    }

    /// The parse error for a lexer error, at the lexer error's span.
    pub fn from_lexer_error(error: LexerError) -> (result: Error)
        ensures
            result@ == lexer_error_error(error),
            result == Error::spec_from_lexer_error(error),
    {
        let span = error.span;
        Error::lexer_error(error, span)
    }

    /// The parse error for an error of the token reader: the end of the
    /// stream, or the lexer's error.
    pub fn from_read_error(error: ReadError) -> (result: Error)
        ensures
            result@ == match error {
                ReadError::EndOfStream(pos) => end_of_stream_error(pos),
                ReadError::ReaderError(e) => lexer_error_error(e),
            },
    {
        match error {
            ReadError::EndOfStream(pos) => Error::end_of_stream(pos),
            ReadError::ReaderError(e) => Error::from_lexer_error(e),
        }
    }
}

impl From<LexerError> for Error {
    fn from(error: LexerError) -> (result: Error) {
        Error::from_lexer_error(error)
    }
}

impl vstd::std_specs::convert::FromSpecImpl<LexerError> for Error {
    open spec fn obeys_from_spec() -> bool {
        true
    }

    open spec fn from_spec(error: LexerError) -> Error {
        Error::spec_from_lexer_error(error)
    }
}

} // verus!
