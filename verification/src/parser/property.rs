use crate::ast::{Ident, IdentView};
use crate::error::{unexpected_token_error, Error};
use crate::parser::{
    end_error, name_text, outcome_is, spec_identifier, token_is_identifier, Parsed, Parser,
};
use crate::token::{Literal, Number, Punct, Token, TokenValue};
use vstd::prelude::*;

verus! {

/// The name of a property: a string, a number, or an identifier. (A
/// computed name, `[expression]`, holds an expression, which this crate does
/// not hold.)
#[derive(Debug, PartialEq)]
pub enum PropertyName {
    String(String, char),
    Number(Number),
    Ident(Ident),
}

/// A property name as a value.
pub enum PropertyNameView {
    String(Seq<char>, char),
    Number(Number),
    Ident(IdentView),
}

pub open spec fn property_name_view(p: PropertyName) -> PropertyNameView {
    match p {
        PropertyName::String(s, d) => PropertyNameView::String(s@, d),
        PropertyName::Number(n) => PropertyNameView::Number(n),
        PropertyName::Ident(i) => PropertyNameView::Ident(i@),
    }
}

/// Parsing a property name at index `i`: a string or number literal, or an
/// identifier; any other token fails as unexpected (after it). At `[` the
/// parser reads an expression, which this crate does not hold: `Stuck`.
pub open spec fn spec_property_name(tokens: Seq<Token>, i: int, ctx: crate::context::Context) -> Parsed<PropertyNameView> {
    if !(0 <= i < tokens.len()) {
        Parsed::Failed(end_error(tokens, i), i)
    } else {
        match tokens[i].value {
            TokenValue::Literal(Literal::String(s, d)) => Parsed::Done(PropertyNameView::String(s@, d), i + 1),
            TokenValue::Literal(Literal::Number(n)) => Parsed::Done(PropertyNameView::Number(n), i + 1),
            TokenValue::Punct(Punct::BraceOpen) => Parsed::Stuck,
            _ => if token_is_identifier(Some(tokens[i]), ctx) {
                match spec_identifier(tokens, i, ctx) {
                    Parsed::Done(v, k) => Parsed::Done(PropertyNameView::Ident(v), k),
                    Parsed::Failed(e, k) => Parsed::Failed(e, k),
                    Parsed::Stuck => Parsed::Stuck,
                }
            } else {
                Parsed::Failed(unexpected_token_error(tokens[i]), i + 1)
            },
        }
    }
}

/// A property name that is an identifier, or a keyword that may be one
/// here, is read as that one token: a name with the token's text and span.
pub proof fn lemma_identifier_property_name(tokens: Seq<Token>, i: int, ctx: crate::context::Context)
    requires
        0 <= i < tokens.len(),
        token_is_identifier(Some(tokens[i]), ctx),
    ensures
        spec_property_name(tokens, i, ctx) == Parsed::Done(
            PropertyNameView::Ident(IdentView { span: tokens[i].span, name: name_text(tokens[i]) }),
            i + 1,
        ),
{
}

/// A string or number literal is read as a property name holding that
/// literal.
pub proof fn lemma_literal_property_name(tokens: Seq<Token>, i: int, ctx: crate::context::Context)
    requires
        0 <= i < tokens.len(),
    ensures
        tokens[i].value matches TokenValue::Literal(Literal::String(s, d)) ==> spec_property_name(
            tokens,
            i,
            ctx,
        ) == Parsed::Done(PropertyNameView::String(s@, d), i + 1),
        tokens[i].value matches TokenValue::Literal(Literal::Number(n)) ==> spec_property_name(
            tokens,
            i,
            ctx,
        ) == Parsed::Done(PropertyNameView::Number(n), i + 1),
{
}

/// A property name that succeeds reads exactly one token.
pub proof fn lemma_property_name_reads_one_token(tokens: Seq<Token>, i: int, ctx: crate::context::Context)
    ensures
        spec_property_name(tokens, i, ctx) matches Parsed::Done(_, k) ==> k == i + 1,
{
}

impl<'a> Parser<'a> {
    /// Parses a property name (see `spec_property_name`); a computed name is
    /// left out.
    pub fn parse_property_name(&mut self) -> (result: Result<PropertyName, Error>)
        requires
            old(self).wf(),
            !(spec_property_name(old(self).tokens(), old(self).index(), old(self).context()) is Stuck),
        ensures
            Parser::same_input(*old(self), *final(self)),
            *final(final(self).reader_ref()) == *final(old(self).reader_ref()),
            outcome_is(
                spec_property_name(old(self).tokens(), old(self).index(), old(self).context()),
                result,
                final(self).index(),
                |p: PropertyName| property_name_view(p),
            ),
    {
        let (is_literal, is_computed) = match self.current()? {
            Token { value: TokenValue::Literal(_), .. } => (true, false),
            Token { value: TokenValue::Punct(Punct::BraceOpen), .. } => (false, true),
            _ => (false, false),
        };
        // A computed name: the precondition leaves it out.
        assert(!is_computed);
        if is_literal {
            let token = self.consume()?;
            match token.value {
                TokenValue::Literal(Literal::String(string, delimiter)) => Ok(
                    PropertyName::String(string, delimiter),
                ),
                TokenValue::Literal(Literal::Number(number)) => Ok(PropertyName::Number(number)),
                _ => Err(Error::unexpected_token(token)),
            }
        } else if self.is_identifier() {
            Ok(PropertyName::Ident(self.parse_identifier()?))
        } else {
            Err(Error::unexpected_token(self.consume()?))
        }
    }
}

} // verus!
