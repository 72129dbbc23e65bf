//! Tokens: words (keywords, identifiers, numbers) and one-character symbols.
//!
//! A word is a maximal run of letters, digits and underscores. Every token
//! parser first skips the blanks and comments in front of the token.
use vstd::prelude::*;
use crate::ast::Ident;
use crate::parser::error::{located, PError};
use crate::parser::input::{skip_trivia, IResult, Input};

verus! {

/// What a parser yields in the model: the value and the position behind
/// it, or the message of the failure.
pub type Parsed<T> = Result<(T, int), Seq<char>>;

/// Whether the outcome `r` of a parser that started at `input` is the
/// outcome `m` that the model of the parser prescribes.
pub open spec fn agrees<'a, O: DeepView>(
    r: IResult<'a, O>,
    input: Input<'a>,
    m: Parsed<O::V>,
) -> bool {
    match r {
        Ok((rest, value)) => rest.text() == input.text() && rest.pos() <= rest.text().len() && m
            == Ok::<(O::V, int), Seq<char>>((value.deep_view(), rest.pos())),
        Err(e) => m == Err::<(O::V, int), Seq<char>>(e@),
    }
}

/// Decimal digits.
pub open spec fn is_digit(c: char) -> bool {
    '0' <= c && c <= '9'
}

/// ASCII letters.
pub open spec fn is_letter(c: char) -> bool {
    ('a' <= c && c <= 'z') || ('A' <= c && c <= 'Z')
}

/// Characters that may start an identifier.
pub open spec fn is_word_start(c: char) -> bool {
    is_letter(c) || c == '_'
}

/// Characters that a word is made of.
pub open spec fn is_word_char(c: char) -> bool {
    is_word_start(c) || is_digit(c)
}

/// The upper-case form of an ASCII letter; any other character unchanged.
pub open spec fn upper(c: char) -> char {
    if 'a' <= c && c <= 'z' {
        ((c as u32) - 32) as char
    } else {
        c
    }
}

/// The word with every ASCII letter in upper case.
pub open spec fn upper_seq(w: Seq<char>) -> Seq<char> {
    w.map_values(|c: char| upper(c))
}

/// The end of the run of word characters that starts at `i`.
pub open spec fn word_end(s: Seq<char>, i: int) -> int
    decreases s.len() - i,
{
    if 0 <= i < s.len() && is_word_char(s[i]) {
        word_end(s, i + 1)
    } else {
        i
    }
}

/// Whether every character of `w` is a digit.
pub open spec fn all_digits(w: Seq<char>) -> bool {
    forall|k: int| 0 <= k < w.len() ==> is_digit(#[trigger] w[k])
}

/// Words that the grammar keeps for itself, in any letter case; none of
/// them is an identifier.
pub open spec fn is_reserved(w: Seq<char>) -> bool {
    let u = upper_seq(w);
    u == "SELECT"@ || u == "DISTINCT"@ || u == "FROM"@ || u == "WHERE"@ || u == "GROUP"@ || u
        == "BY"@ || u == "HAVING"@ || u == "WINDOW"@ || u == "AS"@ || u == "EXCLUDE"@ || u
        == "EXCEPT"@ || u == "PARTITION"@ || u == "ORDER"@
}

/// The position behind the keyword `kw` (given in upper case) if the next
/// token is that word in any letter case.
pub open spec fn spec_keyword(s: Seq<char>, i: int, kw: Seq<char>) -> Option<int> {
    let start = skip_trivia(s, i);
    let end = word_end(s, start);
    if start < end && upper_seq(s.subrange(start, end)) == kw {
        Some(end)
    } else {
        None
    }
}

/// The position behind the symbol `c` if the next token is that symbol.
pub open spec fn spec_symbol(s: Seq<char>, i: int, c: char) -> Option<int> {
    let start = skip_trivia(s, i);
    if 0 <= start < s.len() && s[start] == c {
        Some(start + 1)
    } else {
        None
    }
}

/// An identifier: a word that starts with a letter or an underscore and is
/// not reserved.
pub open spec fn spec_identifier(s: Seq<char>, i: int) -> Parsed<Seq<char>> {
    let start = skip_trivia(s, i);
    let end = word_end(s, start);
    if 0 <= start < s.len() && is_word_start(s[start]) && !is_reserved(s.subrange(start, end)) {
        Ok((s.subrange(start, end), end))
    } else {
        Err(located("expected identifier"@, start))
    }
}

/// A word ends inside the text, is made of word characters only, and no
/// word character stands behind it.
pub proof fn lemma_word_end_bounds(s: Seq<char>, i: int)
    requires
        0 <= i <= s.len(),
    ensures
        i <= word_end(s, i) <= s.len(),
        forall|k: int| i <= k < word_end(s, i) ==> is_word_char(#[trigger] s[k]),
        word_end(s, i) < s.len() ==> !is_word_char(s[word_end(s, i)]),
    decreases s.len() - i,
{
    if i < s.len() && is_word_char(s[i]) {
        lemma_word_end_bounds(s, i + 1);
    }
}

/// Whether `c` may start an identifier.
fn word_start(c: char) -> (r: bool)
    ensures
        r == is_word_start(c),
{
    (c >= 'a' && c <= 'z') || (c >= 'A' && c <= 'Z') || c == '_'
}

/// Whether `c` is a word character.
fn word_char(c: char) -> (r: bool)
    ensures
        r == is_word_char(c),
{
    word_start(c) || (c >= '0' && c <= '9')
}

/// Whether `c` in upper case is `k`.
fn upper_is(c: char, k: char) -> (r: bool)
    ensures
        r == (upper(c) == k),
{
    if c >= 'a' && c <= 'z' {
        (c as u32) - 32 == (k as u32)
    } else {
        c == k
    }
}

/// The length of the word that starts at the cursor.
pub fn word_len(input: Input<'_>) -> (n: usize)
    ensures
        input.pos() + n == word_end(input.text(), input.pos()),
        input.pos() + n <= input.text().len(),
{
    let limit = input.remaining();
    let mut n: usize = 0;
    loop
        invariant
            n <= limit,
            limit == input.text().len() - input.pos(),
            word_end(input.text(), input.pos() + n) == word_end(input.text(), input.pos()),
        ensures
            n <= limit,
            input.pos() + n == word_end(input.text(), input.pos()),
        decreases limit - n,
    {
        match input.peek_at(n) {
            Some(c) => {
                if word_char(c) {
                    n += 1;
                } else {
                    break ;
                }
            },
            None => {
                break ;
            },
        }
    }
    n
}

/// Whether the next `n` characters are the word `kw` in any letter case.
pub fn word_is(input: Input<'_>, n: usize, kw: &str) -> (r: bool)
    requires
        input.pos() + n <= input.text().len(),
    ensures
        r == (upper_seq(input.text().subrange(input.pos(), input.pos() + n)) == kw@),
{
    let ghost word = input.text().subrange(input.pos(), input.pos() + n);
    if kw.unicode_len() != n {
        return false;
    }
    let mut k: usize = 0;
    while k < n
        invariant
            k <= n,
            n == kw@.len(),
            input.pos() + n <= input.text().len(),
            word == input.text().subrange(input.pos(), input.pos() + n),
            forall|j: int| 0 <= j < k ==> upper(#[trigger] word[j]) == kw@[j],
        decreases n - k,
    {
        let c = input.peek_at(k).unwrap();
        if !upper_is(c, kw.get_char(k)) {
            proof {
                assert(upper_seq(word)[k as int] == upper(word[k as int]));
            }
            return false;
        }
        k += 1;
    }
    proof {
        assert(upper_seq(word) =~= kw@);
    }
    true
}

/// Whether the next `n` characters are a reserved word.
pub fn reserved(input: Input<'_>, n: usize) -> (r: bool)
    requires
        input.pos() + n <= input.text().len(),
    ensures
        r == is_reserved(input.text().subrange(input.pos(), input.pos() + n)),
{
    word_is(input, n, "SELECT") || word_is(input, n, "DISTINCT") || word_is(input, n, "FROM")
        || word_is(input, n, "WHERE") || word_is(input, n, "GROUP") || word_is(input, n, "BY")
        || word_is(input, n, "HAVING") || word_is(input, n, "WINDOW") || word_is(input, n, "AS")
        || word_is(input, n, "EXCLUDE") || word_is(input, n, "EXCEPT") || word_is(
        input,
        n,
        "PARTITION",
    ) || word_is(input, n, "ORDER")
}

/// Consumes the keyword `kw`, given in upper case, if it is the next token.
pub fn keyword<'a>(input: Input<'a>, kw: &str) -> (r: Option<Input<'a>>)
    ensures
        r is Some == spec_keyword(input.text(), input.pos(), kw@) is Some,
        r matches Some(rest) ==> rest.text() == input.text() && spec_keyword(
            input.text(),
            input.pos(),
            kw@,
        ) == Some(rest.pos()),
{
    let start = input.skip_trivia();
    let n = word_len(start);
    if n > 0 && word_is(start, n, kw) {
        Some(start.advance(n))
    } else {
        None
    }
}

/// Consumes the symbol `c` if it is the next token.
pub fn symbol<'a>(input: Input<'a>, c: char) -> (r: Option<Input<'a>>)
    ensures
        r is Some == spec_symbol(input.text(), input.pos(), c) is Some,
        r matches Some(rest) ==> rest.text() == input.text() && spec_symbol(
            input.text(),
            input.pos(),
            c,
        ) == Some(rest.pos()),
{
    let start = input.skip_trivia();
    match start.peek() {
        Some(found) => {
            if found == c {
                Some(start.advance(1))
            } else {
                None
            }
        },
        None => None,
    }
}

/// Parses an identifier.
pub fn identifier<'a>(input: Input<'a>) -> (r: IResult<'a, Ident>)
    ensures
        agrees(r, input, spec_identifier(input.text(), input.pos())),
{
    let start = input.skip_trivia();
    match start.peek() {
        Some(c) => {
            if word_start(c) {
                let n = word_len(start);
                if !reserved(start, n) {
                    let value = start.take_text(n);
                    return Ok((start.advance(n), Ident { value }));
                }
            }
        },
        None => {},
    }
    Err(PError::at("expected identifier", start))
}

} // verus!
