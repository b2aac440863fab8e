use crate::error::{Error, ErrorKind, ErrorKindView, ErrorView};
use crate::parser::statement::Stmt;
use crate::span::Span;
use crate::text::{debug_token_value, token_value_debug};
use crate::token::{Base as LexerBase, Keyword, Literal as LexerLiteral, Number as LexerNumber, Token, TokenValue};
use vstd::prelude::*;
use vstd::string::*;

verus! {

/// Whether a source text is a script, a module, or not known yet.
#[derive(Debug, Clone, Copy, PartialEq, Eq, Structural)]
pub enum SourceType {
    Script,
    Module,
    Unknown,
}

/// A body of items and where it stands in the source.
#[derive(Debug, PartialEq)]
pub struct Body<T> {
    span: Span,
    body: Vec<T>,
}

impl<T> Body<T> {
    pub closed spec fn spec_span(&self) -> Span {
        self.span
    }

    pub closed spec fn items(&self) -> Seq<T> {
        self.body@
    }
}

/// A program: a script of statements, or a module of module items.
#[derive(Debug, PartialEq)]
pub enum Program {
    Script(Body<Stmt>),
    Module(Body<ModuleItem>),
}

/// An item of a module.
#[derive(Debug, PartialEq)]
pub enum ModuleItem {
    ImportDeclaration(),
    ExportDeclaration(),
    Statement(Stmt),
}

impl Program {
    /// The script of the given statements, at the span `0..0`.
    pub fn from_body(body: Vec<Stmt>) -> (program: Program)
        ensures
            program matches Program::Script(b) && b.items() == body@ && b.spec_span()
                == Span::spec_empty(),
    {
        Program::Script(Body { span: Span::empty(), body })
    }
}

/// An identifier: its name and where it stands in the source.
#[derive(Debug, PartialEq)]
pub struct Ident {
    pub span: Span,
    pub name: String,
}

/// An identifier as a value: its span and the characters of its name.
pub struct IdentView {
    pub span: Span,
    pub name: Seq<char>,
}

impl View for Ident {
    type V = IdentView;

    open spec fn view(&self) -> IdentView {
        IdentView { span: self.span, name: self.name@ }
    }
}

impl Clone for Ident {
    fn clone(&self) -> (copy: Self)
        ensures
            copy == *self,
    {
        Ident { span: self.span, name: self.name.clone() }
    }
}

/// A token value as the message for a token that is no identifier shows it:
/// in its derived `Debug` form, where the keyword `set` (the variant
/// `SetKeyword`) reads as `Keyword(Set)`.
pub open spec fn debug_shown(value: TokenValue) -> Seq<char> {
    match value {
        TokenValue::Keyword(Keyword::SetKeyword) => "Keyword(Set)"@,
        _ => token_value_debug(value),
    }
}

/// The error that `Ident::try_from` gives for a token that is no identifier:
/// a syntax error whose message shows the token's value (see `debug_shown`).
pub open spec fn not_an_identifier(token: Token) -> ErrorView {
    ErrorView {
        kind: ErrorKindView::SyntaxError(
            "Tried to use '"@ + debug_shown(token.value) + "' as an identifier."@,
            token.span,
        ),
        span: Span::spec_empty(),
        diagnostic: None,
    }
}

impl Ident {
    pub fn new(name: String, span: Span) -> (ident: Ident)
        ensures
            ident == (Ident { span, name }),
    {
        Ident { name, span }
    }

    /// Turns a token into an identifier: an identifier token, or the keywords
    /// `await` and `yield`, which the parser may use as identifiers. Any other
    /// token gives a syntax error.
    pub fn try_from(token: Token) -> (result: Result<Ident, Error>)
        ensures
            match token.value {
                TokenValue::Identifier(name) => result == Ok::<Ident, Error>(
                    Ident { span: token.span, name },
                ),
                TokenValue::Keyword(Keyword::Await) => result matches Ok(ident) && ident@ == (
                IdentView { span: token.span, name: "await"@ }),
                TokenValue::Keyword(Keyword::Yield) => result matches Ok(ident) && ident@ == (
                IdentView { span: token.span, name: "yield"@ }),
                _ => result matches Err(e) && e@ == not_an_identifier(token),
            },
    {
        match token.value {
            TokenValue::Identifier(name) => Ok(Ident { span: token.span, name }),
            TokenValue::Keyword(Keyword::Await) => Ok(
                Ident { name: String::from_str("await"), span: token.span },
            ),
            TokenValue::Keyword(Keyword::Yield) => Ok(
                Ident { name: String::from_str("yield"), span: token.span },
            ),
            _ => {
                let mut message = String::from_str("Tried to use '");
                let shown = match token.value {
                    TokenValue::Keyword(Keyword::SetKeyword) => String::from_str("Keyword(Set)"),
                    _ => debug_token_value(&token.value),
                };
                message.append(shown.as_str());
                message.append("' as an identifier.");
                Err(Error::of(ErrorKind::SyntaxError(message, token.span)))
            },
        }
    }
}

/// The base an integer literal is written in.
#[derive(Debug, Clone, Copy, PartialEq, Eq, Structural)]
pub enum Base {
    Binary,
    Decimal,
    Hex,
    Octal,
}

/// A numeric literal; a decimal (floating point) one is held by the bit
/// pattern of its IEEE 754 double value.
#[derive(Debug, Clone, Copy, PartialEq, Eq, Structural)]
pub enum Number {
    Integer(i64, Base),
    Decimal(u64),
}

/// A literal of the syntax tree.
#[derive(Debug, PartialEq)]
pub enum Literal {
    Null,
    Boolean(bool),
    String(String, char),
    Number(Number),
}

pub open spec fn base_from(base: LexerBase) -> Base {
    match base {
        LexerBase::Binary => Base::Binary,
        LexerBase::Decimal => Base::Decimal,
        LexerBase::Hex => Base::Hex,
        LexerBase::Octal => Base::Octal,
    }
}

impl Base {
    /// The base of the syntax tree for the base of a literal token.
    pub fn from(base: LexerBase) -> (ast_base: Base)
        ensures
            ast_base == base_from(base),
    {
        match base {
            LexerBase::Binary => Base::Binary,
            LexerBase::Decimal => Base::Decimal,
            LexerBase::Hex => Base::Hex,
            LexerBase::Octal => Base::Octal,
        }
    }
}

impl Literal {
    /// The literal of the syntax tree for a literal token: the same number
    /// or string.
    pub fn from(lexer_literal: LexerLiteral) -> (literal: Literal)
        ensures
            literal == match lexer_literal {
                LexerLiteral::Number(LexerNumber::Integer(i, b)) => Literal::Number(
                    Number::Integer(i, base_from(b)),
                ),
                LexerLiteral::Number(LexerNumber::Decimal(f)) => Literal::Number(Number::Decimal(f)),
                LexerLiteral::String(s, d) => Literal::String(s, d),
            },
    {
        match lexer_literal {
            LexerLiteral::Number(LexerNumber::Integer(i, b)) => Literal::Number(
                Number::Integer(i, Base::from(b)),
            ),
            LexerLiteral::Number(LexerNumber::Decimal(f)) => Literal::Number(Number::Decimal(f)),
            LexerLiteral::String(s, d) => Literal::String(s, d),
        }
    }
}

} // verus!
