use crate::lexer_error::Error as LexerError;
use crate::token::TokenValue;
use vstd::prelude::*;

verus! {

/// `String::push`: appends the character `c` to `s`.
#[verifier::external_body]
pub(crate) fn push_char(s: &mut String, c: char)
    ensures
        final(s)@ == old(s)@.push(c),
{
    s.push(c)
}

/// The text that the derived `Debug` formatting gives for a token value.
pub uninterp spec fn token_value_debug(value: TokenValue) -> Seq<char>;

/// The text that the derived `Debug` formatting gives for a lexer error.
pub uninterp spec fn lexer_error_debug(error: LexerError) -> Seq<char>;

/// `format!("{:?}", value)` on a token value: its derived `Debug` text, which
/// depends on the value alone. What that text is, is not stated.
#[verifier::external_body]
pub(crate) fn debug_token_value(value: &TokenValue) -> (text: String)
    ensures
        text@ == token_value_debug(*value),
{
    format!("{:?}", value)
}

/// `format!("{:?}", error)` on a lexer error: its derived `Debug` text, which
/// depends on the error alone. What that text is, is not stated.
#[verifier::external_body]
pub(crate) fn debug_lexer_error(error: &LexerError) -> (text: String)
    ensures
        text@ == lexer_error_debug(*error),
{
    format!("{:?}", error)
}

} // verus!
