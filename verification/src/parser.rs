use crate::ast::{Ident, IdentView, SourceType};
use crate::context::Context;
use crate::error::{
    end_of_stream_error, error_at, unexpected_token_error, Error, ErrorKindView, ErrorView,
};
use crate::span::Span;
use crate::token::{Keyword, keyword_allowed, keyword_name, same_value, Literal, Punct, Token, TokenValue};
use crate::token_reader::{position_after, TokenReader};
use vstd::prelude::*;

pub mod binding;
pub mod iteration;
pub mod module;
pub mod property;
pub mod statement;

verus! {

/// The outcome of a parsing step, as a value: what it parsed and the index
/// of the token it stopped before; or the error it failed with and the index
/// it had reached; or `Stuck`, an input that the parser does not support: an
/// initializer in a binding pattern, or a construct (an expression) that this
/// crate does not hold. The parsing functions leave `Stuck` inputs out by
/// their preconditions.
pub enum Parsed<V> {
    Done(V, int),
    Failed(ErrorView, int),
    Stuck,
}

/// The outcome of a parsing step, as stated by `expected`, is what the
/// parser did: `result` (taken by `view`), and the index it stopped at.
pub open spec fn outcome_is<T, V>(
    expected: Parsed<V>,
    result: Result<T, Error>,
    index: int,
    view: spec_fn(T) -> V,
) -> bool {
    match expected {
        Parsed::Done(v, k) => result matches Ok(r) && view(r) == v && index == k,
        Parsed::Failed(e, k) => result matches Err(err) && err@ == e && index == k,
        Parsed::Stuck => false,
    }
}

/// The token at index `i`, if there is one.
pub open spec fn token_at(tokens: Seq<Token>, i: int) -> Option<Token> {
    if 0 <= i < tokens.len() {
        Some(tokens[i])
    } else {
        None
    }
}

/// The error for running out of tokens at index `i`.
pub open spec fn end_error(tokens: Seq<Token>, i: int) -> ErrorView {
    end_of_stream_error(position_after(tokens, i))
}

/// Where the parser stands at index `i`: the start of the current token, or
/// after the last token at the end.
pub open spec fn start_position(tokens: Seq<Token>, i: int) -> usize {
    if 0 <= i < tokens.len() {
        tokens[i].span.start
    } else {
        position_after(tokens, i)
    }
}

/// True if `keyword` may be an identifier in the parser's context.
pub open spec fn allowed_in(keyword: Keyword, ctx: Context) -> bool {
    keyword_allowed(keyword, ctx.spec_await(), ctx.spec_yield(), ctx.spec_strict())
}

/// True if the token is an identifier, or a keyword that may be one in `ctx`.
pub open spec fn token_is_identifier(token: Option<Token>, ctx: Context) -> bool {
    match token {
        Some(t) => match t.value {
            TokenValue::Identifier(_) => true,
            TokenValue::Keyword(k) => allowed_in(k, ctx),
            _ => false,
        },
        None => false,
    }
}

/// True if the token at index `i` is the punctuator `p`.
pub open spec fn is_punct_at(tokens: Seq<Token>, i: int, p: Punct) -> bool {
    0 <= i < tokens.len() && tokens[i].value == TokenValue::Punct(p)
}

/// Parsing an identifier at index `i`: an identifier token, or a keyword that
/// may be one in `ctx` (named by its text); a reserved keyword fails as a
/// forbidden identifier, any other token as an unexpected token, both after
/// the token; no token fails at the end of the stream.
pub open spec fn spec_identifier(tokens: Seq<Token>, i: int, ctx: Context) -> Parsed<IdentView> {
    if 0 <= i < tokens.len() {
        let t = tokens[i];
        match t.value {
            TokenValue::Identifier(name) => Parsed::Done(IdentView { span: t.span, name: name@ }, i + 1),
            TokenValue::Keyword(k) => if allowed_in(k, ctx) {
                Parsed::Done(IdentView { span: t.span, name: keyword_name(k) }, i + 1)
            } else {
                Parsed::Failed(
                    error_at(ErrorKindView::ForbiddenIdentifier(keyword_name(k)), t.span),
                    i + 1,
                )
            },
            _ => Parsed::Failed(unexpected_token_error(t), i + 1),
        }
    } else {
        Parsed::Failed(end_error(tokens, i), i)
    }
}

/// The text of a token that stands as a name: an identifier's name, or a
/// keyword's source text.
pub open spec fn name_text(t: Token) -> Seq<char> {
    match t.value {
        TokenValue::Identifier(name) => name@,
        TokenValue::Keyword(k) => keyword_name(k),
        _ => Seq::empty(),
    }
}

/// The index of the `t`-th name (from 0) of a list opened at index `i`.
pub open spec fn name_index(i: int, t: int) -> int {
    i + 1 + 2 * t
}

/// The index of the punctuator that closes a list of `n` names opened at
/// index `i`.
pub open spec fn list_close(i: int, n: nat) -> int {
    if n == 0 {
        i + 1
    } else {
        i + 2 * n
    }
}

/// The tokens from index `i` on are a list of `n` identifier tokens
/// separated by commas, between the punctuators `open` and `close`:
/// `open x1 , x2 , ... , xn close`.
pub open spec fn is_name_list(tokens: Seq<Token>, i: int, n: nat, open: Punct, close: Punct) -> bool {
    &&& 0 <= i
    &&& is_punct_at(tokens, i, open)
    &&& forall|t: int| 0 <= t < n ==> (#[trigger] tokens[name_index(i, t)]).value is Identifier
    &&& forall|t: int| 0 <= t < n - 1 ==> is_punct_at(tokens, #[trigger] name_index(i, t) + 1, Punct::Comma)
    &&& is_punct_at(tokens, list_close(i, n), close)
}

/// Consuming a list delimiter at index `i`, where the list ends with
/// `list_end`: a comma is consumed; the list's end is left for the caller;
/// any other token is consumed and fails as unexpected; no token fails at
/// the end of the stream.
pub open spec fn spec_list_delimiter(tokens: Seq<Token>, i: int, list_end: TokenValue) -> Parsed<()> {
    if is_punct_at(tokens, i, Punct::Comma) {
        Parsed::Done((), i + 1)
    } else if 0 <= i < tokens.len() && same_value(tokens[i].value, list_end) {
        Parsed::Done((), i)
    } else if 0 <= i < tokens.len() {
        Parsed::Failed(unexpected_token_error(tokens[i]), i + 1)
    } else {
        Parsed::Failed(end_error(tokens, i), i)
    }
}

/// Reading a token at index `i` that must have the value `expected` (see
/// `Parser::consume_assert`).
pub open spec fn spec_expect(tokens: Seq<Token>, i: int, expected: TokenValue) -> Parsed<Token> {
    if 0 <= i < tokens.len() {
        if same_value(tokens[i].value, expected) {
            Parsed::Done(tokens[i], i + 1)
        } else {
            Parsed::Failed(unexpected_token_error(tokens[i]), i + 1)
        }
    } else {
        Parsed::Failed(end_error(tokens, i), i)
    }
}

/// The number of tokens in `tokens[i..j]` that are the punctuator `p`.
pub open spec fn count_punct(tokens: Seq<Token>, i: int, j: int, p: Punct) -> nat
    decreases j - i,
{
    if j <= i {
        0
    } else {
        count_punct(tokens, i, j - 1, p) + if is_punct_at(tokens, j - 1, p) {
            1nat
        } else {
            0nat
        }
    }
}

/// True if the token at index `k` is a `)` that closes the parentheses
/// opened since index `i`: as many `(` as `)` in `tokens[i..=k]`.
pub open spec fn closes_at(tokens: Seq<Token>, i: int, k: int) -> bool {
    &&& i <= k
    &&& is_punct_at(tokens, k, Punct::ParenClose)
    &&& count_punct(tokens, i, k + 1, Punct::ParenOpen) == count_punct(
        tokens,
        i,
        k + 1,
        Punct::ParenClose,
    )
}

/// True if `k` is the first index from `i` on where `closes_at` holds.
pub open spec fn first_close(tokens: Seq<Token>, i: int, k: int) -> bool {
    &&& closes_at(tokens, i, k)
    &&& forall|m: int| i <= m < k ==> !closes_at(tokens, i, m)
}

/// In `tokens[i..j]` there are no more `(` and `)` together than tokens.
pub proof fn lemma_count_punct_bound(tokens: Seq<Token>, i: int, j: int)
    ensures
        count_punct(tokens, i, j, Punct::ParenOpen) + count_punct(tokens, i, j, Punct::ParenClose)
            <= if j <= i {
            0
        } else {
            j - i
        },
    decreases j - i,
{
    if j > i {
        lemma_count_punct_bound(tokens, i, j - 1);
    }
}

/// The parser's test for an identifier agrees with parsing one: where the
/// token can be an identifier, parsing reads it and gives its name; where a
/// token cannot, parsing fails after it.
pub proof fn lemma_identifier_test_agrees(tokens: Seq<Token>, i: int, ctx: Context)
    requires
        0 <= i < tokens.len(),
    ensures
        token_is_identifier(token_at(tokens, i), ctx) <==> spec_identifier(tokens, i, ctx) is Done,
        spec_identifier(tokens, i, ctx) matches Parsed::Done(v, k) ==> k == i + 1 && v.span
            == tokens[i].span,
        spec_identifier(tokens, i, ctx) matches Parsed::Failed(_, k) ==> k == i + 1,
{
}

/// A parser over a sequence of tokens, in a grammar context. It reads
/// through a token reader that it borrows. Each of its methods that take it
/// by `&mut` goes on reading through the same reader (the clause on
/// `reader_ref` in their contracts), so what a parser made by `with_context`
/// reads, the parser it was made from has read once it is done.
pub struct Parser<'a> {
    context: Context,
    reader: &'a mut TokenReader,
    source_type: SourceType,
}

impl<'a> Parser<'a> {
    /// The reference to the token reader that the parser reads through.
    pub closed spec fn reader_ref(&self) -> &'a mut TokenReader {
        self.reader
    }

    /// The tokens the parser reads.
    pub open spec fn tokens(&self) -> Seq<Token> {
        self.reader_ref().tokens()
    }

    /// The index of the current token.
    pub open spec fn index(&self) -> int {
        self.reader_ref().index()
    }

    pub closed spec fn context(&self) -> Context {
        self.context
    }

    pub closed spec fn spec_source_type(&self) -> SourceType {
        self.source_type
    }

    pub open spec fn wf(&self) -> bool {
        &&& 0 <= self.index() <= self.tokens().len()
        &&& self.tokens().len() <= usize::MAX
    }

    /// `after` parses the same tokens in the same context as `before`.
    pub open spec fn same_input(before: Parser, after: Parser) -> bool {
        &&& after.wf()
        &&& after.tokens() == before.tokens()
        &&& after.context() == before.context()
        &&& after.spec_source_type() == before.spec_source_type()
    }

    /// A parser in the default context that reads `reader` from where it
    /// stands.
    pub fn new(reader: &'a mut TokenReader, source_type: SourceType) -> (result: Result<Parser<'a>, Error>)
        requires
            old(reader).wf(),
        ensures
            result matches Ok(p) && p.wf() && p.tokens() == old(reader).tokens() && p.index()
                == old(reader).index() && p.context() == Context::spec_default_value()
                && p.spec_source_type() == source_type,
    {
        Ok(Parser { context: Context::default(), reader, source_type })
    }

    /// A parser in `context` that reads on from where this one stands,
    /// through the same token reader: once it is done, this parser stands
    /// where it stopped. It starts with this parser's source type.
    pub fn with_context(&mut self, context: Context) -> (child: Parser<'_>)
        requires
            old(self).wf(),
        ensures
            child.wf(),
            child.tokens() == old(self).tokens(),
            child.index() == old(self).index(),
            child.context() == context,
            child.spec_source_type() == old(self).spec_source_type(),
            final(self).context() == old(self).context(),
            final(self).spec_source_type() == old(self).spec_source_type(),
            *final(self).reader_ref() == *final(child.reader_ref()),
            *final(final(self).reader_ref()) == *final(old(self).reader_ref()),
    {
        Parser { context, reader: &mut *self.reader, source_type: self.source_type }
    }

    /// Once a parser is done with, the reader it reads through holds what
    /// the parser last saw.
    pub proof fn lemma_done(parser: Parser<'a>)
        requires
            has_resolved(parser),
        ensures
            *parser.reader_ref() == *final(parser.reader_ref()),
    {
    }

    pub fn source_type(&self) -> (source_type: SourceType)
        ensures
            source_type == self.spec_source_type(),
    {
        self.source_type
    }

    pub fn set_source_type(&mut self, source_type: SourceType)
        requires
            old(self).wf(),
        ensures
            final(self).wf(),
            final(self).tokens() == old(self).tokens(),
            final(self).index() == old(self).index(),
            final(self).context() == old(self).context(),
            final(self).spec_source_type() == source_type,
            *final(final(self).reader_ref()) == *final(old(self).reader_ref()),
    {
        self.source_type = source_type;
    }

    /// The current token; at the end, an end of stream error.
    pub fn current(&self) -> (result: Result<&Token, Error>)
        requires
            self.wf(),
        ensures
            self.index() < self.tokens().len() ==> (result matches Ok(t) && *t
                == self.tokens()[self.index()]),
            self.index() >= self.tokens().len() ==> (result matches Err(e) && e@ == end_error(
                self.tokens(),
                self.index(),
            )),
    {
        match self.reader.current() {
            Ok(t) => Ok(t),
            Err(e) => Err(Error::from_read_error(e)),
        }
    }

    /// Reads the current token and moves past it; at the end, an end of
    /// stream error.
    pub fn consume(&mut self) -> (result: Result<Token, Error>)
        requires
            old(self).wf(),
        ensures
            Parser::same_input(*old(self), *final(self)),
            *final(final(self).reader_ref()) == *final(old(self).reader_ref()),
            old(self).index() < old(self).tokens().len() ==> {
                &&& result == Ok::<Token, Error>(old(self).tokens()[old(self).index()])
                &&& final(self).index() == old(self).index() + 1
            },
            old(self).index() >= old(self).tokens().len() ==> {
                &&& result matches Err(e) && e@ == end_error(old(self).tokens(), old(self).index())
                &&& final(self).index() == old(self).index()
            },
    {
        match self.reader.consume() {
            Ok(t) => Ok(t),
            Err(e) => Err(Error::from_read_error(e)),
        }
    }

    /// The token after the current one, if there is one.
    pub fn peek(&self) -> (token: Option<&Token>)
        requires
            self.wf(),
        ensures
            token_at(self.tokens(), self.index() + 1) matches Some(t) ==> (token matches Some(u)
                && *u == t),
            token_at(self.tokens(), self.index() + 1) is None ==> token is None,
    {
        self.reader.peek()
    }

    /// True when every token has been read.
    pub fn is_end(&self) -> (end: bool)
        requires
            self.wf(),
        ensures
            end == (self.index() >= self.tokens().len()),
    {
        self.reader.is_end()
    }

    /// Where the parser stands: the start of the current token, or the end of
    /// the last token at the end.
    pub fn position(&self) -> (position: usize)
        requires
            self.wf(),
        ensures
            position == start_position(self.tokens(), self.index()),
    {
        match self.current() {
            Ok(t) => t.span.start,
            Err(_) => self.reader.position(),
        }
    }

    /// The span from `start` to the end of the last token read.
    pub fn span_from(&self, start: usize) -> (span: Span)
        requires
            self.wf(),
        ensures
            span == (Span { start, end: position_after(self.tokens(), self.index()) }),
    {
        Span::new(start, self.reader.position())
    }

    /// True if the current token has the value `value`.
    pub fn current_matches(&self, value: &TokenValue) -> (matched: bool)
        requires
            self.wf(),
        ensures
            matched == (self.index() < self.tokens().len() && same_value(
                self.tokens()[self.index()].value,
                *value,
            )),
    {
        if let Ok(token) = self.current() {
            token.value.matches(value)
        } else {
            false
        }
    }

    /// True if the current token is a string literal.
    pub fn current_matches_string_literal(&self) -> (matched: bool)
        requires
            self.wf(),
        ensures
            matched == (self.index() < self.tokens().len() && self.tokens()[self.index()].value is Literal
                && self.tokens()[self.index()].value->Literal_0 is String),
    {
        match self.current() {
            Ok(Token { value: TokenValue::Literal(Literal::String(_, _)), .. }) => true,
            _ => false,
        }
    }

    /// True if the token after the current one has the value `value`.
    pub fn peek_matches(&self, value: &TokenValue) -> (matched: bool)
        requires
            self.wf(),
        ensures
            matched == (self.index() + 1 < self.tokens().len() && same_value(
                self.tokens()[self.index() + 1].value,
                *value,
            )),
    {
        if let Some(token) = self.peek() {
            token.value.matches(value)
        } else {
            false
        }
    }

    /// Reads the current token, which must have the value `expected`: a
    /// different token fails as unexpected (after it), no token at the end of
    /// the stream.
    pub fn consume_assert(&mut self, expected: &TokenValue) -> (result: Result<Token, Error>)
        requires
            old(self).wf(),
        ensures
            Parser::same_input(*old(self), *final(self)),
            *final(final(self).reader_ref()) == *final(old(self).reader_ref()),
            ({
                let i = old(self).index();
                let toks = old(self).tokens();
                if i < toks.len() {
                    &&& final(self).index() == i + 1
                    &&& if same_value(toks[i].value, *expected) {
                        result == Ok::<Token, Error>(toks[i])
                    } else {
                        result matches Err(e) && e@ == unexpected_token_error(toks[i])
                    }
                } else {
                    &&& final(self).index() == i
                    &&& result matches Err(e) && e@ == end_error(toks, i)
                }
            }),
    {
        let token = self.consume()?;
        if !token.value.matches(expected) {
            return Err(Error::unexpected_token(token));
        }
        Ok(token)
    }

    /// Consumes the current token if it has the value `value`; tells whether
    /// it did.
    pub fn maybe_consume(&mut self, value: &TokenValue) -> (result: Result<bool, Error>)
        requires
            old(self).wf(),
        ensures
            Parser::same_input(*old(self), *final(self)),
            *final(final(self).reader_ref()) == *final(old(self).reader_ref()),
            ({
                let i = old(self).index();
                let toks = old(self).tokens();
                if i < toks.len() && same_value(toks[i].value, *value) {
                    result == Ok::<bool, Error>(true) && final(self).index() == i + 1
                } else {
                    result == Ok::<bool, Error>(false) && final(self).index() == i
                }
            }),
    {
        if self.current_matches(value) {
            self.consume()?;
            Ok(true)
        } else {
            Ok(false)
        }
    }

    /// True if the token after the current one is the first on its line.
    pub fn followed_by_new_lined(&self) -> (new_lined: bool)
        requires
            self.wf(),
        ensures
            new_lined == (self.index() + 1 < self.tokens().len() && self.tokens()[self.index()
                + 1].first_on_line),
    {
        match self.peek() {
            Some(t) => t.first_on_line,
            None => false,
        }
    }

    /// True if the token after the current one can be an identifier here.
    pub fn peek_is_identifier(&self) -> (is_ident: bool)
        requires
            self.wf(),
        ensures
            is_ident == token_is_identifier(token_at(self.tokens(), self.index() + 1), self.context()),
    {
        is_identifier(self.peek(), &self.context)
    }

    /// True if the current token can be an identifier here.
    pub fn is_identifier(&self) -> (is_ident: bool)
        requires
            self.wf(),
        ensures
            is_ident == token_is_identifier(token_at(self.tokens(), self.index()), self.context()),
    {
        let current = match self.current() {
            Ok(t) => Some(t),
            Err(_) => None,
        };
        is_identifier(current, &self.context)
    }

    /// Parses an identifier (see `spec_identifier`).
    pub fn parse_identifier(&mut self) -> (result: Result<Ident, Error>)
        requires
            old(self).wf(),
        ensures
            Parser::same_input(*old(self), *final(self)),
            *final(final(self).reader_ref()) == *final(old(self).reader_ref()),
            match spec_identifier(old(self).tokens(), old(self).index(), old(self).context()) {
                Parsed::Done(v, j) => result matches Ok(id) && id@ == v && final(self).index() == j,
                Parsed::Failed(e, j) => result matches Err(err) && err@ == e && final(self).index() == j,
                Parsed::Stuck => false,
            },
    {
        let token = self.consume()?;
        match token.value {
            TokenValue::Identifier(s) => Ok(Ident::new(s, token.span)),
            TokenValue::Keyword(keyword) => {
                if keyword.is_allows_as_identifier(self.context.keyword_context()) {
                    Ok(Ident::new(keyword.to_string(), token.span))
                } else {
                    Err(Error::forbidden_identifier(keyword.to_string(), token.span))
                }
            },
            _ => Err(Error::unexpected_token(token)),
        }
    }

    /// Parses an identifier if the current token can be one; else reads
    /// nothing.
    pub fn parse_optional_identifier(&mut self) -> (result: Result<Option<Ident>, Error>)
        requires
            old(self).wf(),
        ensures
            Parser::same_input(*old(self), *final(self)),
            *final(final(self).reader_ref()) == *final(old(self).reader_ref()),
            ({
                let i = old(self).index();
                let toks = old(self).tokens();
                if token_is_identifier(token_at(toks, i), old(self).context()) {
                    spec_identifier(toks, i, old(self).context()) matches Parsed::Done(v, j)
                        && result matches Ok(Some(id)) && id@ == v && final(self).index() == j
                } else {
                    result matches Ok(None) && final(self).index() == i
                }
            }),
    {
        Ok(
            if self.is_identifier() {
                Some(self.parse_identifier()?)
            } else {
                None
            },
        )
    }

    /// Consumes the delimiter after an element of a list that ends with
    /// `list_end` (see `spec_list_delimiter`).
    pub fn consume_list_delimiter(&mut self, list_end: &TokenValue) -> (result: Result<(), Error>)
        requires
            old(self).wf(),
        ensures
            Parser::same_input(*old(self), *final(self)),
            *final(final(self).reader_ref()) == *final(old(self).reader_ref()),
            match spec_list_delimiter(old(self).tokens(), old(self).index(), *list_end) {
                Parsed::Done(_, j) => result is Ok && final(self).index() == j,
                Parsed::Failed(e, j) => result matches Err(err) && err@ == e && final(self).index() == j,
                Parsed::Stuck => false,
            },
    {
        if !self.maybe_consume(&TokenValue::Punct(Punct::Comma))? && !self.current_matches(list_end) {
            let token = self.consume()?;
            return Err(Error::unexpected_token(token));
        }
        Ok(())
    }

    /// `consume_list_delimiter` for an array, which ends with `]`.
    pub fn consume_array_delimiter(&mut self) -> (result: Result<(), Error>)
        requires
            old(self).wf(),
        ensures
            Parser::same_input(*old(self), *final(self)),
            *final(final(self).reader_ref()) == *final(old(self).reader_ref()),
            match spec_list_delimiter(old(self).tokens(), old(self).index(), TokenValue::Punct(Punct::BraceClose)) {
                Parsed::Done(_, j) => result is Ok && final(self).index() == j,
                Parsed::Failed(e, j) => result matches Err(err) && err@ == e && final(self).index() == j,
                Parsed::Stuck => false,
            },
    {
        self.consume_list_delimiter(&TokenValue::Punct(Punct::BraceClose))
    }

    /// `consume_list_delimiter` for an object, which ends with `}`.
    pub fn consume_object_delimiter(&mut self) -> (result: Result<(), Error>)
        requires
            old(self).wf(),
        ensures
            Parser::same_input(*old(self), *final(self)),
            *final(final(self).reader_ref()) == *final(old(self).reader_ref()),
            match spec_list_delimiter(old(self).tokens(), old(self).index(), TokenValue::Punct(Punct::BracketClose)) {
                Parsed::Done(_, j) => result is Ok && final(self).index() == j,
                Parsed::Failed(e, j) => result matches Err(err) && err@ == e && final(self).index() == j,
                Parsed::Stuck => false,
            },
    {
        self.consume_list_delimiter(&TokenValue::Punct(Punct::BracketClose))
    }

    /// `consume_list_delimiter` for a parameter list, which ends with `)`.
    pub fn consume_parameter_delimiter(&mut self) -> (result: Result<(), Error>)
        requires
            old(self).wf(),
        ensures
            Parser::same_input(*old(self), *final(self)),
            *final(final(self).reader_ref()) == *final(old(self).reader_ref()),
            match spec_list_delimiter(old(self).tokens(), old(self).index(), TokenValue::Punct(Punct::ParenClose)) {
                Parsed::Done(_, j) => result is Ok && final(self).index() == j,
                Parsed::Failed(e, j) => result matches Err(err) && err@ == e && final(self).index() == j,
                Parsed::Stuck => false,
            },
    {
        self.consume_list_delimiter(&TokenValue::Punct(Punct::ParenClose))
    }

    /// Skips tokens up to and including the `)` that closes the parentheses
    /// opened from the current token on (see `first_close`). Without one it
    /// reads every token and fails at the end of the stream.
    pub fn skip_until_closing_parenthesis(&mut self) -> (result: Result<(), Error>)
        requires
            old(self).wf(),
        ensures
            Parser::same_input(*old(self), *final(self)),
            *final(final(self).reader_ref()) == *final(old(self).reader_ref()),
            result is Ok ==> first_close(old(self).tokens(), old(self).index(), final(self).index() - 1),
            result is Err ==> {
                &&& forall|k: int|
                    old(self).index() <= k < old(self).tokens().len() ==> !closes_at(
                        old(self).tokens(),
                        old(self).index(),
                        k,
                    )
                &&& final(self).index() == old(self).tokens().len()
                &&& result matches Err(e) && e@ == end_error(old(self).tokens(), old(self).tokens().len() as int)
            },
    {
        let ghost start = self.index();
        let ghost toks = self.tokens();
        let ghost before = *self;
        let mut opens: usize = 0;
        let mut closes: usize = 0;
        loop
            invariant_except_break
                before == *old(self),
                start == before.index(),
                toks == before.tokens(),
                Parser::same_input(before, *self),
                *final(self.reader_ref()) == *final(old(self).reader_ref()),
                self.tokens() == toks,
                0 <= start <= self.index() <= toks.len(),
                opens == count_punct(toks, start, self.index(), Punct::ParenOpen),
                closes == count_punct(toks, start, self.index(), Punct::ParenClose),
                forall|m: int| start <= m < self.index() ==> !closes_at(toks, start, m),
            ensures
                Parser::same_input(before, *self),
                *final(self.reader_ref()) == *final(old(self).reader_ref()),
                first_close(toks, start, self.index() - 1),
            decreases toks.len() - self.index(),
        {
            proof {
                lemma_count_punct_bound(toks, start, self.index());
            }
            let ghost k = self.index();
            match self.consume() {
                Ok(Token { value: TokenValue::Punct(Punct::ParenOpen), .. }) => {
                    opens = opens + 1;
                },
                Ok(Token { value: TokenValue::Punct(Punct::ParenClose), .. }) => {
                    closes = closes + 1;
                    if opens == closes {
                        break;
                    }
                },
                Err(error) => {
                    return Err(error);
                },
                _ => {},
            }
            assert(!closes_at(toks, start, k));
        }
        Ok(())
    }

    /// The token after the `)` that closes the parentheses opened from the
    /// current token on, if there is one, without moving the parser. Fails at
    /// the end of the stream with no current token (the parser stays) or
    /// with no such `)` (the parser is left at the end).
    pub fn token_after_parenthesis(&mut self) -> (result: Result<Option<Token>, Error>)
        requires
            old(self).wf(),
        ensures
            Parser::same_input(*old(self), *final(self)),
            *final(final(self).reader_ref()) == *final(old(self).reader_ref()),
            ({
                let i = old(self).index();
                let toks = old(self).tokens();
                &&& i >= toks.len() ==> (result matches Err(e) && e@ == end_error(toks, i)
                    && final(self).index() == i)
                &&& forall|k: int|
                    first_close(toks, i, k) ==> result == Ok::<Option<Token>, Error>(
                        token_at(toks, k + 1),
                    ) && final(self).index() == i
                &&& (i < toks.len() && forall|k: int| i <= k < toks.len() ==> !closes_at(toks, i, k))
                    ==> (result matches Err(e) && e@ == end_error(toks, toks.len() as int)
                    && final(self).index() == toks.len())
            }),
    {
        let ghost i = self.index();
        let ghost toks = self.tokens();
        let start = self.reader.mark();
        self.current()?;
        self.skip_until_closing_parenthesis()?;
        let token = match self.consume() {
            Ok(t) => Some(t),
            Err(_) => None,
        };
        self.reader.rewind_to(start);
        Ok(token)
    }
}

/// True if the token is an identifier, or a keyword that may be an
/// identifier in `context`.
pub fn is_identifier(token: Option<&Token>, context: &Context) -> (is_ident: bool)
    ensures
        is_ident == token_is_identifier(
            match token {
                Some(t) => Some(*t),
                None => None,
            },
            *context,
        ),
{
    match token {
        Some(Token { value: TokenValue::Identifier(_), .. }) => true,
        Some(Token { value: TokenValue::Keyword(keyword), .. }) => {
            keyword.is_allows_as_identifier(context.keyword_context())
        },
        _ => false,
    }
}

} // verus!
