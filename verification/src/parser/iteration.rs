use crate::error::Error;
use crate::parser::{end_error, outcome_is, Parsed, Parser};
use crate::token::{Keyword, Token, TokenValue};
use vstd::prelude::*;

verus! {

/// The keyword that declares variables: `var`, `let` or `const`.
#[derive(Debug, Clone, Copy, PartialEq, Eq, Structural)]
pub enum VariableKind {
    Var,
    Let,
    Const,
}

/// Reading an optional variable keyword at index `i`: `var` and `const` are
/// read; any other token is left; no token fails at the end of the stream.
/// At `let` the parser looks at what follows to tell a declaration from an
/// identifier named `let`, which this crate does not hold: `Stuck`.
pub open spec fn spec_optional_variable_kind(tokens: Seq<Token>, i: int) -> Parsed<Option<VariableKind>> {
    if !(0 <= i < tokens.len()) {
        Parsed::Failed(end_error(tokens, i), i)
    } else {
        match tokens[i].value {
            TokenValue::Keyword(Keyword::Var) => Parsed::Done(Some(VariableKind::Var), i + 1),
            TokenValue::Keyword(Keyword::Let) => Parsed::Stuck,
            TokenValue::Keyword(Keyword::Const) => Parsed::Done(Some(VariableKind::Const), i + 1),
            _ => Parsed::Done(None, i),
        }
    }
}

impl<'a> Parser<'a> {
    /// Reads `var` or `const` if the current token is one (see
    /// `spec_optional_variable_kind`).
    pub fn parse_optional_variable_kind(&mut self) -> (result: Result<Option<VariableKind>, Error>)
        requires
            old(self).wf(),
            !(spec_optional_variable_kind(old(self).tokens(), old(self).index()) is Stuck),
        ensures
            Parser::same_input(*old(self), *final(self)),
            *final(final(self).reader_ref()) == *final(old(self).reader_ref()),
            outcome_is(
                spec_optional_variable_kind(old(self).tokens(), old(self).index()),
                result,
                final(self).index(),
                |k: Option<VariableKind>| k,
            ),
    {
        let variable_kind = match self.current()? {
            Token { value: TokenValue::Keyword(Keyword::Var), .. } => Some(VariableKind::Var),
            Token { value: TokenValue::Keyword(Keyword::Const), .. } => Some(VariableKind::Const),
            _ => None,
        };
        if variable_kind.is_some() {
            self.consume()?;
        }
        Ok(variable_kind)
    }
}

} // verus!
