use crate::lexer_error::Error as LexerError;
use crate::token::Token;
use vstd::prelude::*;

verus! {

/// Why the token reader could not give a token.
#[derive(Debug, Clone, Copy, PartialEq, Eq, Structural)]
pub enum ReadError {
    /// No token is left; the position of the end of the last token read.
    EndOfStream(usize),
    /// The lexer failed.
    ReaderError(LexerError),
}

/// The position after the first `index` tokens have been read: the end of
/// the last token read, or 0 before any.
pub open spec fn position_after(tokens: Seq<Token>, index: int) -> usize {
    if 0 < index <= tokens.len() {
        tokens[index - 1].span.end
    } else {
        0
    }
}

/// A reader over a sequence of tokens that stands on one of them (or at the
/// end), can look one token ahead, and can be moved back to a place it marked.
pub struct TokenReader {
    tokens: Vec<Token>,
    index: usize,
}

impl TokenReader {
    /// The tokens the reader reads.
    pub closed spec fn tokens(&self) -> Seq<Token> {
        self.tokens@
    }

    /// The index of the current token; the number of tokens when at the end.
    pub closed spec fn index(&self) -> int {
        self.index as int
    }

    pub open spec fn wf(&self) -> bool {
        &&& 0 <= self.index() <= self.tokens().len()
        &&& self.tokens().len() <= usize::MAX
    }

    /// The position after the tokens read so far.
    pub open spec fn spec_position(&self) -> usize {
        position_after(self.tokens(), self.index())
    }

    /// A reader that stands on the first of `tokens`.
    pub fn new(tokens: Vec<Token>) -> (reader: TokenReader)
        ensures
            reader.wf(),
            reader.tokens() == tokens@,
            reader.index() == 0,
    {
        let _ = tokens.len();
        TokenReader { tokens, index: 0 }
    }

    /// The current token; at the end, `EndOfStream` at the position.
    pub fn current(&self) -> (result: Result<&Token, ReadError>)
        requires
            self.wf(),
        ensures
            self.index() < self.tokens().len() ==> (result matches Ok(t) && *t == self.tokens()[self.index()]),
            self.index() >= self.tokens().len() ==> result == Err::<&Token, ReadError>(
                ReadError::EndOfStream(self.spec_position()),
            ),
    {
        if self.index < self.tokens.len() {
            Ok(&self.tokens[self.index])
        } else {
            Err(ReadError::EndOfStream(self.position()))
        }
    }

    /// Reads the current token and moves to the next one; at the end,
    /// `EndOfStream` at the position, and the reader stays.
    pub fn consume(&mut self) -> (result: Result<Token, ReadError>)
        requires
            old(self).wf(),
        ensures
            final(self).wf(),
            final(self).tokens() == old(self).tokens(),
            old(self).index() < old(self).tokens().len() ==> {
                &&& result == Ok::<Token, ReadError>(old(self).tokens()[old(self).index()])
                &&& final(self).index() == old(self).index() + 1
            },
            old(self).index() >= old(self).tokens().len() ==> {
                &&& result == Err::<Token, ReadError>(ReadError::EndOfStream(old(self).spec_position()))
                &&& final(self).index() == old(self).index()
            },
    {
        if self.index < self.tokens.len() {
            let token = self.tokens[self.index].clone();
            self.index = self.index + 1;
            Ok(token)
        } else {
            Err(ReadError::EndOfStream(self.position()))
        }
    }

    /// The token after the current one, if there is one.
    pub fn peek(&self) -> (token: Option<&Token>)
        requires
            self.wf(),
        ensures
            self.index() + 1 < self.tokens().len() ==> (token matches Some(t) && *t == self.tokens()[self.index() + 1]),
            self.index() + 1 >= self.tokens().len() ==> token is None,
    {
        let n = self.tokens.len();
        if self.index < n && self.index + 1 < n {
            Some(&self.tokens[self.index + 1])
        } else {
            None
        }
    }

    /// True when every token has been read.
    pub fn is_end(&self) -> (end: bool)
        requires
            self.wf(),
        ensures
            end == (self.index() >= self.tokens().len()),
    {
        self.index >= self.tokens.len()
    }

    /// The end of the last token read, or 0 before any.
    pub fn position(&self) -> (position: usize)
        requires
            self.wf(),
        ensures
            position == self.spec_position(),
    {
        if self.index > 0 {
            self.tokens[self.index - 1].span.end
        } else {
            0
        }
    }

    /// A mark of the current place, to come back to with `rewind_to`.
    pub fn mark(&self) -> (mark: usize)
        ensures
            mark == self.index(),
    {
        self.index
    }

    /// Moves the reader back (or forward) to a marked place.
    pub fn rewind_to(&mut self, mark: usize)
        requires
            old(self).wf(),
            mark <= old(self).tokens().len(),
        ensures
            final(self).wf(),
            final(self).tokens() == old(self).tokens(),
            final(self).index() == mark,
    {
        self.index = mark;
    }
}

} // verus!
