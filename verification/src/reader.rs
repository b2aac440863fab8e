use crate::lexer_error::{Error, ErrorKind};
use crate::text::push_char;
use vstd::prelude::*;

verus! {

/// A reader over the characters of a source text, one character at a time.
/// It stands on a current character and can look one character ahead.
/// Its position counts the characters it has moved past; once it has tried
/// to move past the last character it is at the end of the file, its position
/// is the length of the input and it stays there.
pub struct Reader {
    chars: Vec<char>,
    cursor: usize,
    position: usize,
    end_of_file: bool,
}

impl Reader {
    /// The whole input, as characters.
    pub closed spec fn text(&self) -> Seq<char> {
        self.chars@
    }

    /// The index in `text()` of the current character.
    pub closed spec fn cursor(&self) -> int {
        self.cursor as int
    }

    pub closed spec fn spec_eof(&self) -> bool {
        self.end_of_file
    }

    pub closed spec fn spec_position(&self) -> int {
        self.position as int
    }

    /// The reader stands on a character of a non-empty text; at the end of
    /// the file it stands on the last one; its position is the index of the
    /// current character, or the length of the text at the end of the file.
    pub open spec fn wf(&self) -> bool {
        let n = self.text().len();
        &&& 1 <= n
        &&& 0 <= self.cursor() < n
        &&& self.spec_eof() ==> self.cursor() == n - 1
        &&& self.spec_position() == (if self.spec_eof() { n as int } else { self.cursor() })
    }

    /// The character after the current one, if there is one.
    pub open spec fn spec_peek(&self) -> Option<char> {
        if self.cursor() + 1 < self.text().len() {
            Some(self.text()[self.cursor() + 1])
        } else {
            None
        }
    }

    /// Creates a reader that stands on the first character of `input`.
    /// Fails with `EndOfFile` on the empty input.
    pub fn new(input: &str) -> (result: Result<Reader, Error>)
        ensures
            result is Err <==> input@.len() == 0,
            result matches Err(e) ==> e == Error::spec_of(ErrorKind::EndOfFile),
            result matches Ok(r) ==> r.at_start() && r.text() == input@,
    {
        broadcast use vstd::string::axiom_spec_iter;

        let mut chars: Vec<char> = Vec::new();
        for c in it: input.chars()
            invariant
                chars@ == it.seq().take(it.index() as int),
        {
            chars.push(c);
        }
        assert(chars@ == input@);
        if chars.len() == 0 {
            return Err(Error::of(ErrorKind::EndOfFile));
        }
        Ok(Reader { chars, cursor: 0, position: 0, end_of_file: false })
    }

    /// True once the reader has tried to move past the last character.
    pub fn eof(&self) -> (eof: bool)
        ensures
            eof == self.spec_eof(),
    {
        self.end_of_file
    }

    /// The number of characters the reader has moved past.
    pub fn position(&self) -> (position: usize)
        ensures
            position == self.spec_position(),
    {
        self.position
    }

    /// The current character.
    pub fn current(&mut self) -> (c: char)
        requires
            old(self).wf(),
        ensures
            *final(self) == *old(self),
            c == old(self).text()[old(self).cursor()],
    {
        self.chars[self.cursor]
    }

    /// The character after the current one, if there is one.
    pub fn peek(&self) -> (c: Option<char>)
        requires
            self.wf(),
        ensures
            c == self.spec_peek(),
    {
        if self.cursor < self.chars.len() - 1 {
            Some(self.chars[self.cursor + 1])
        } else {
            None
        }
    }

    /// Consumes the current character. Fails with `EndOfFile` if the reader
    /// is already at the end of the file.
    pub fn consume(&mut self) -> (result: Result<(), Error>)
        requires
            old(self).wf(),
        ensures
            final(self).wf(),
            final(self).text() == old(self).text(),
            result is Err <==> old(self).spec_eof(),
            result matches Err(e) ==> e == Error::spec_of(ErrorKind::EndOfFile) && *final(self)
                == *old(self),
            Reader::spec_moved(*old(self), *final(self)),
    {
        if self.end_of_file {
            Err(Error::of(ErrorKind::EndOfFile))
        } else {
            let _ = self.next();
            Ok(())
        }
    }

    /// How `next` moves the reader from `before` to `after`: to the next
    /// character if there is one; else to the end of the file. Either way the
    /// position grows by one, unless the reader was already at the end.
    pub open spec fn spec_moved(before: Reader, after: Reader) -> bool {
        let n = before.text().len();
        &&& after.text() == before.text()
        &&& if before.cursor() + 1 < n {
            &&& after.cursor() == before.cursor() + 1
            &&& !after.spec_eof()
            &&& after.spec_position() == before.spec_position() + 1
        } else {
            &&& after.cursor() == before.cursor()
            &&& after.spec_eof()
            &&& after.spec_position() == n
            &&& !before.spec_eof() ==> after.spec_position() == before.spec_position() + 1
            &&& before.spec_eof() ==> after.spec_position() == before.spec_position()
        }
    }

    /// `end` is what `start` becomes after `k` moves, each a call of `next`
    /// or `consume`.
    pub open spec fn moves(start: Reader, end: Reader, k: nat) -> bool
        decreases k,
    {
        if k == 0 {
            end == start
        } else {
            exists|mid: Reader|
                #![trigger Reader::spec_moved(mid, end)]
                Reader::moves(start, mid, (k - 1) as nat) && Reader::spec_moved(mid, end)
        }
    }

    /// The reader as `new` makes it: on the first character, at position 0,
    /// not at the end of the file.
    pub open spec fn at_start(&self) -> bool {
        &&& self.wf()
        &&& self.cursor() == 0
        &&& self.spec_position() == 0
        &&& !self.spec_eof()
    }

    /// After `k` moves from the start of a text of `n` characters, the
    /// position is `min(k, n)`: it counts characters, not bytes. The reader is
    /// at the end of the file exactly when `k >= n`, its current character is
    /// the one at index `min(k, n - 1)`, and the one it peeks at is the one at
    /// index `k + 1`, if there is one.
    pub proof fn lemma_moves(start: Reader, end: Reader, k: nat)
        requires
            start.at_start(),
            Reader::moves(start, end, k),
        ensures
            end.wf(),
            end.text() == start.text(),
            end.spec_position() == if k < start.text().len() {
                k as int
            } else {
                start.text().len() as int
            },
            end.spec_eof() == (k >= start.text().len()),
            end.cursor() == if k < start.text().len() {
                k as int
            } else {
                start.text().len() - 1
            },
            end.text()[end.cursor()] == start.text()[if k < start.text().len() {
                k as int
            } else {
                start.text().len() - 1
            }],
            end.spec_peek() == if k + 1 < start.text().len() {
                Some(start.text()[k + 1int])
            } else {
                None::<char>
            },
        decreases k,
    {
        if k > 0 {
            let mid = choose|mid: Reader|
                #![trigger Reader::spec_moved(mid, end)]
                Reader::moves(start, mid, (k - 1) as nat) && Reader::spec_moved(mid, end);
            Reader::lemma_moves(start, mid, (k - 1) as nat);
        }
    }

    /// Moves to the next character and returns it. At the last character it
    /// moves to the end of the file instead and fails with `EndOfFile`.
    pub fn next(&mut self) -> (result: Result<char, Error>)
        requires
            old(self).wf(),
        ensures
            final(self).wf(),
            Reader::spec_moved(*old(self), *final(self)),
            result is Ok <==> old(self).spec_peek() is Some,
            result matches Ok(c) ==> Some(c) == old(self).spec_peek(),
            result matches Err(e) ==> e == Error::spec_of(ErrorKind::EndOfFile),
    {
        let n = self.chars.len();
        if !self.end_of_file {
            self.position = self.position + 1;
        }
        if self.cursor < n - 1 {
            self.cursor = self.cursor + 1;
            Ok(self.chars[self.cursor])
        } else {
            self.end_of_file = true;
            Err(Error::of(ErrorKind::EndOfFile))
        }
    }

    /// Reads the current character and every character after it for which
    /// `check` holds, and stops on the first character for which it does not
    /// (or at the end of the file). Returns the characters read.
    pub fn read_until<F: Fn(char) -> bool>(&mut self, check: F) -> (result: Result<String, Error>)
        requires
            old(self).wf(),
            forall|c: char| call_requires(check, (c,)),
        ensures
            final(self).wf(),
            final(self).text() == old(self).text(),
            result is Ok,
            result matches Ok(s) ==> s@ == old(self).text().subrange(
                old(self).cursor(),
                final(self).spec_position(),
            ),
            old(self).cursor() < final(self).spec_position(),
            forall|m: int|
                old(self).cursor() < m < final(self).spec_position() ==> call_ensures(
                    check,
                    (#[trigger] old(self).text()[m],),
                    true,
                ),
            !final(self).spec_eof() ==> call_ensures(
                check,
                (old(self).text()[final(self).cursor()],),
                false,
            ),
            final(self).spec_eof() ==> final(self).spec_position() == old(self).text().len(),
    {
        let ghost start = self.cursor();
        let ghost text = self.text();
        let ghost was_eof = self.spec_eof();
        let mut result = String::new();
        let first = self.current();
        push_char(&mut result, first);
        loop
            invariant_except_break
                self.wf(),
                self.text() == text,
                self.spec_eof() == was_eof,
                0 <= start <= self.cursor(),
                result@ == text.subrange(start, self.cursor() + 1),
                forall|m: int| start < m <= self.cursor() ==> call_ensures(check, (#[trigger] text[m],), true),
                forall|c: char| call_requires(check, (c,)),
            ensures
                self.wf(),
                self.text() == text,
                start < self.spec_position(),
                result@ == text.subrange(start, self.spec_position()),
                forall|m: int| start < m < self.spec_position() ==> call_ensures(check, (#[trigger] text[m],), true),
                !self.spec_eof() ==> call_ensures(check, (text[self.cursor()],), false),
                self.spec_eof() ==> self.spec_position() == text.len(),
            decreases text.len() - self.cursor(),
        {
            match self.next() {
                Ok(c) => {
                    if check(c) {
                        push_char(&mut result, c);
                        let ghost k = self.cursor();
                        assert(text.subrange(start, k + 1) =~= text.subrange(start, k).push(c));
                    } else {
                        break;
                    }
                },
                Err(e) => {
                    if *e.kind() == ErrorKind::EndOfFile {
                        break;
                    } else {
                        return Err(e);
                    }
                },
            }
        }
        Ok(result)
    }
}

} // verus!
