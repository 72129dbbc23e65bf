//! The cursor over the source text, and the character classes of the lexer.
use vstd::prelude::*;
use crate::parser::error::PError;

verus! {

/// Blank characters between tokens.
pub open spec fn is_space(c: char) -> bool {
    c == ' ' || c == '\t' || c == '\n' || c == '\r'
}

/// What the lexer is inside of while it looks for the next token.
pub enum Within {
    /// Between tokens.
    Code,
    /// A comment that runs from `--` to the end of its line.
    LineComment,
    /// A comment that runs from the `/*` at `opened` to the next `*/`.
    BlockComment { opened: int },
}

/// Where the next token starts at or after `i`: blanks and comments are
/// skipped. A block comment that is never closed is no comment: the next
/// token then starts where it opens.
pub open spec fn skip_from(s: Seq<char>, i: int, within: Within) -> int
    decreases s.len() - i,
{
    if i < 0 || i >= s.len() {
        match within {
            Within::BlockComment { opened } => opened,
            _ => i,
        }
    } else {
        match within {
            Within::LineComment => skip_from(
                s,
                i + 1,
                if s[i] == '\n' {
                    Within::Code
                } else {
                    Within::LineComment
                },
            ),
            Within::BlockComment { opened } => if s[i] == '*' && i + 1 < s.len() && s[i + 1]
                == '/' {
                skip_from(s, i + 2, Within::Code)
            } else {
                skip_from(s, i + 1, within)
            },
            Within::Code => if is_space(s[i]) {
                skip_from(s, i + 1, Within::Code)
            } else if s[i] == '-' && i + 1 < s.len() && s[i + 1] == '-' {
                skip_from(s, i + 2, Within::LineComment)
            } else if s[i] == '/' && i + 1 < s.len() && s[i + 1] == '*' {
                skip_from(s, i + 2, Within::BlockComment { opened: i })
            } else {
                i
            },
        }
    }
}

/// Where the next token starts at or after `i`.
pub open spec fn skip_trivia(s: Seq<char>, i: int) -> int {
    skip_from(s, i, Within::Code)
}

/// What the lexer is inside of, given whether it is in a line comment and
/// where it entered a block comment.
pub open spec fn within(in_line: bool, opened: Option<usize>) -> Within {
    match opened {
        Some(at) => Within::BlockComment { opened: at as int },
        None => if in_line {
            Within::LineComment
        } else {
            Within::Code
        },
    }
}

/// The start of the line that holds position `i`.
pub open spec fn line_start(s: Seq<char>, i: int) -> int
    decreases i,
{
    if i <= 0 || i > s.len() {
        0
    } else if s[i - 1] == '\n' {
        i
    } else {
        line_start(s, i - 1)
    }
}

/// The number of line breaks before position `i`.
pub open spec fn lines_before(s: Seq<char>, i: int) -> int
    decreases i,
{
    if i <= 0 || i > s.len() {
        0
    } else if s[i - 1] == '\n' {
        lines_before(s, i - 1) + 1
    } else {
        lines_before(s, i - 1)
    }
}

/// A view of the source text with a position in it. A cursor is a plain
/// value: parsers take one and hand back another, and never change one in
/// place.
#[derive(Clone, Copy, Debug)]
pub struct Input<'a> {
    text: &'a [char],
    pos: usize,
}

/// What every parser returns: the cursor behind what it consumed and the
/// value it built, or the failure.
pub type IResult<'a, O> = Result<(Input<'a>, O), PError>;

impl<'a> Input<'a> {
    /// The invariant of a cursor: its position lies inside its text.
    #[verifier::type_invariant]
    pub closed spec fn in_bounds(self) -> bool {
        self.pos <= self.text@.len()
    }

    /// The whole source text.
    pub closed spec fn text(self) -> Seq<char> {
        self.text@
    }

    /// The number of characters consumed so far.
    pub closed spec fn consumed(self) -> nat {
        self.pos as nat
    }

    /// The position in the text: the number of characters consumed so far.
    pub open spec fn pos(self) -> int {
        self.consumed() as int
    }

    /// The text that is still to be consumed.
    pub open spec fn rest(self) -> Seq<char> {
        self.text().skip(self.pos())
    }

    /// A cursor never lies outside its text: from the invariant, which
    /// holds of every cursor that a program has in hand.
    pub proof fn lemma_in_bounds(self)
        requires
            self.in_bounds(),
        ensures
            self.pos() <= self.text().len(),
    {
    }

    /// A cursor at the start of `text`.
    pub fn new(text: &'a [char]) -> (r: Input<'a>)
        ensures
            r.text() == text@,
            r.pos() == 0,
            r.pos() <= r.text().len(),
    {
        Input { text, pos: 0 }
    }

    /// The number of characters consumed so far.
    pub fn offset(&self) -> (r: usize)
        ensures
            r == self.pos(),
            r <= self.text().len(),
    {
        proof {
            use_type_invariant(self);
        }
        self.pos
    }

    /// The number of characters still to be consumed.
    pub fn remaining(&self) -> (r: usize)
        ensures
            r == self.text().len() - self.pos(),
    {
        proof {
            use_type_invariant(self);
        }
        self.text.len() - self.pos
    }

    /// The character `ahead` places after the position, if the text
    /// reaches that far.
    pub fn peek_at(&self, ahead: usize) -> (r: Option<char>)
        ensures
            r == if self.pos() + ahead < self.text().len() {
                Some(self.text()[self.pos() + ahead])
            } else {
                None
            },
    {
        proof {
            use_type_invariant(self);
        }
        if ahead < self.text.len() - self.pos {
            Some(self.text[self.pos + ahead])
        } else {
            None
        }
    }

    /// The next character, if any is left.
    pub fn peek(&self) -> (r: Option<char>)
        ensures
            r == if self.pos() < self.text().len() {
                Some(self.text()[self.pos()])
            } else {
                None
            },
    {
        self.peek_at(0)
    }

    /// The cursor `count` characters further on.
    pub fn advance(self, count: usize) -> (r: Input<'a>)
        requires
            self.pos() + count <= self.text().len(),
        ensures
            r.text() == self.text(),
            r.pos() == self.pos() + count,
            r.pos() <= r.text().len(),
    {
        proof {
            assert(self.text.len() == self.text@.len());
        }
        Input { text: self.text, pos: self.pos + count }
    }

    /// The cursor at the start of the next token: behind blanks and
    /// comments.
    pub fn skip_trivia(self) -> (r: Input<'a>)
        ensures
            r.text() == self.text(),
            r.pos() == skip_trivia(self.text(), self.pos()),
            self.pos() <= r.pos() <= r.text().len(),
    {
        proof {
            use_type_invariant(self);
        }
        let mut i: usize = self.pos;
        let mut in_line = false;
        let mut opened: Option<usize> = None;
        loop
            invariant_except_break
                opened matches Some(at) ==> self.pos <= at < i && !in_line,
                skip_from(self.text@, i as int, within(in_line, opened)) == skip_from(
                    self.text@,
                    self.pos as int,
                    Within::Code,
                ),
            invariant
                self.pos <= i <= self.text@.len(),
            ensures
                self.pos <= i <= self.text@.len(),
                i as int == skip_from(self.text@, self.pos as int, Within::Code),
            decreases self.text@.len() - i,
        {
            if i >= self.text.len() {
                if let Some(at) = opened {
                    i = at;
                }
                break ;
            }
            let c = self.text[i];
            let pair = i + 1 < self.text.len();
            if opened.is_some() {
                if c == '*' && pair && self.text[i + 1] == '/' {
                    i += 2;
                    opened = None;
                } else {
                    i += 1;
                }
            } else if in_line {
                in_line = c != '\n';
                i += 1;
            } else if c == ' ' || c == '\t' || c == '\n' || c == '\r' {
                i += 1;
            } else if c == '-' && pair && self.text[i + 1] == '-' {
                i += 2;
                in_line = true;
            } else if c == '/' && pair && self.text[i + 1] == '*' {
                opened = Some(i);
                i += 2;
            } else {
                break ;
            }
        }
        Input { text: self.text, pos: i }
    }

    /// The next `count` characters as a string.
    pub fn take_text(&self, count: usize) -> (r: String)
        requires
            self.pos() + count <= self.text().len(),
        ensures
            r@ == self.text().subrange(self.pos(), self.pos() + count),
    {
        proof {
            assert(self.text.len() == self.text@.len());
        }
        let mut out = String::new();
        let mut k: usize = 0;
        while k < count
            invariant
                k <= count,
                self.pos + count <= self.text@.len(),
                self.text@.len() <= usize::MAX,
                out@ == self.text@.subrange(self.pos as int, self.pos + k),
            decreases count - k,
        {
            out.push(self.text[self.pos + k]);
            k += 1;
            proof {
                assert(self.text@.subrange(self.pos as int, self.pos + k) =~= self.text@.subrange(
                    self.pos as int,
                    self.pos + k - 1,
                ).push(self.text@[self.pos + k - 1]));
            }
        }
        out
    }

    /// All the text that is still to be consumed, as a string.
    pub fn remaining_text(&self) -> (r: String)
        ensures
            r@ == self.rest(),
    {
        let r = self.take_text(self.remaining());
        proof {
            assert(self.text().subrange(self.pos(), self.text().len() as int) =~= self.rest());
        }
        r
    }

    /// The line and the column of the position, both counted from zero.
    pub fn line_column(&self) -> (r: (usize, usize))
        ensures
            r.0 == lines_before(self.text(), self.pos()),
            r.1 == self.pos() - line_start(self.text(), self.pos()),
    {
        proof {
            use_type_invariant(self);
        }
        let mut line: usize = 0;
        let mut start: usize = 0;
        let mut i: usize = 0;
        while i < self.pos
            invariant
                i <= self.pos <= self.text@.len(),
                start <= i,
                line <= i,
                line == lines_before(self.text@, i as int),
                start == line_start(self.text@, i as int),
            decreases self.pos - i,
        {
            if self.text[i] == '\n' {
                line += 1;
                start = i + 1;
            }
            i += 1;
        }
        (line, self.pos - start)
    }
}

} // verus!
