//! How the tokens of a canonical text are read back.
use vstd::prelude::*;
use crate::parser::input::{is_space, skip_trivia};
use crate::parser::token::{
    is_reserved, is_word_char, is_word_start, spec_identifier, spec_keyword, spec_symbol, upper,
    upper_seq, word_end,
};
use crate::roundtrip::valid::{all_word_chars};

verus! {

/// Whether the text `s` holds `t` at position `i`.
pub open spec fn carries(s: Seq<char>, i: int, t: Seq<char>) -> bool {
    0 <= i && i + t.len() <= s.len() && s.subrange(i, i + t.len()) == t
}

/// Whether no word character stands at `e`.
pub open spec fn word_stop(s: Seq<char>, e: int) -> bool {
    e >= s.len() || !is_word_char(s[e])
}

/// Whether the next token from `i0` on is the word `w`, which ends at `end`.
pub open spec fn word_at(s: Seq<char>, i0: int, w: Seq<char>, end: int) -> bool {
    let start = skip_trivia(s, i0);
    &&& 0 <= start < end <= s.len()
    &&& start + w.len() == end
    &&& s.subrange(start, end) == w
    &&& word_end(s, start) == end
    &&& is_word_char(w[0])
}

/// Whether the next token from `i0` on is the one-character symbol at `at`.
pub open spec fn symbol_at(s: Seq<char>, i0: int, at: int) -> bool {
    skip_trivia(s, i0) == at && 0 <= at < s.len() && !is_word_char(s[at])
}

/// A text that holds two pieces in a row holds each of them.
pub proof fn lemma_carries_split(s: Seq<char>, i: int, a: Seq<char>, b: Seq<char>)
    requires
        carries(s, i, a + b),
    ensures
        carries(s, i, a),
        carries(s, i + a.len(), b),
{
    let t = a + b;
    assert(s.subrange(i, i + a.len()) =~= a) by {
        assert forall|k: int| 0 <= k < a.len() implies s.subrange(i, i + a.len())[k] == a[k] by {
            assert(s.subrange(i, i + t.len())[k] == t[k]);
        }
    }
    assert(s.subrange(i + a.len(), i + a.len() + b.len()) =~= b) by {
        assert forall|k: int| 0 <= k < b.len() implies s.subrange(
            i + a.len(),
            i + a.len() + b.len(),
        )[k] == b[k] by {
            assert(s.subrange(i, i + t.len())[a.len() + k] == t[a.len() + k]);
        }
    }
}

/// A text that holds a piece holds each of its characters.
pub proof fn lemma_carries_char(s: Seq<char>, i: int, t: Seq<char>, k: int)
    requires
        carries(s, i, t),
        0 <= k < t.len(),
    ensures
        s[i + k] == t[k],
{
    assert(s.subrange(i, i + t.len())[k] == t[k]);
}

/// A character that is neither blank nor a dash nor a slash starts a
/// token.
pub proof fn lemma_skip_here(s: Seq<char>, i: int)
    requires
        0 <= i <= s.len(),
        i < s.len() ==> !is_space(s[i]) && s[i] != '-' && s[i] != '/',
    ensures
        skip_trivia(s, i) == i,
{
}

/// A blank in front of a token is skipped.
pub proof fn lemma_skip_space(s: Seq<char>, i: int)
    requires
        0 <= i < s.len(),
        s[i] == ' ',
    ensures
        skip_trivia(s, i) == skip_trivia(s, i + 1),
{
}

/// A run of word characters with no word character behind it ends where
/// the run ends.
pub proof fn lemma_word_end(s: Seq<char>, i: int, n: int)
    requires
        0 <= i,
        0 <= n,
        i + n <= s.len(),
        forall|k: int| 0 <= k < n ==> is_word_char(#[trigger] s[i + k]),
        word_stop(s, i + n),
    ensures
        word_end(s, i) == i + n,
    decreases n,
{
    if n > 0 {
        assert(is_word_char(s[i + 0]));
        assert forall|k: int| 0 <= k < n - 1 implies is_word_char(#[trigger] s[i + 1 + k]) by {
            assert(is_word_char(s[i + (k + 1)]));
        }
        lemma_word_end(s, i + 1, n - 1);
    }
}

/// A word in the text, with no word character behind it, is read as one
/// token.
pub proof fn lemma_word_at(s: Seq<char>, i0: int, i: int, w: Seq<char>)
    requires
        skip_trivia(s, i0) == i,
        carries(s, i, w),
        w.len() > 0,
        all_word_chars(w),
        word_stop(s, i + w.len()),
    ensures
        word_at(s, i0, w, i + w.len()),
{
    assert forall|k: int| 0 <= k < w.len() implies is_word_char(#[trigger] s[i + k]) by {
        lemma_carries_char(s, i, w, k);
    }
    lemma_word_end(s, i, w.len() as int);
}

/// What the token parsers yield where the next token is the word `w`.
pub proof fn lemma_word_token(s: Seq<char>, i0: int, w: Seq<char>, end: int)
    requires
        word_at(s, i0, w, end),
    ensures
        forall|kw: Seq<char>| #[trigger]
            spec_keyword(s, i0, kw) == if upper_seq(w) == kw {
                Some(end)
            } else {
                None
            },
        forall|c: char| !is_word_char(c) ==> #[trigger] spec_symbol(s, i0, c) is None,
        is_word_start(w[0]) && !is_reserved(w) ==> spec_identifier(s, i0) == Ok::<
            (Seq<char>, int),
            Seq<char>,
        >((w, end)),
        !(is_word_start(w[0]) && !is_reserved(w)) ==> spec_identifier(s, i0) is Err,
{
    let start = skip_trivia(s, i0);
    assert(s[start] == w[0]) by {
        assert(s.subrange(start, end)[0] == w[0]);
    }
}

/// What the token parsers yield where the next token is a symbol.
pub proof fn lemma_symbol_token(s: Seq<char>, i0: int, at: int)
    requires
        symbol_at(s, i0, at),
    ensures
        forall|kw: Seq<char>| #[trigger] spec_keyword(s, i0, kw) is None,
        forall|c: char| #[trigger]
            spec_symbol(s, i0, c) == if s[at] == c {
                Some(at + 1)
            } else {
                None
            },
        spec_identifier(s, i0) is Err,
{
}

/// What the token parsers yield at the end of the text.
pub proof fn lemma_end_token(s: Seq<char>, i0: int)
    requires
        skip_trivia(s, i0) >= s.len(),
    ensures
        forall|kw: Seq<char>| #[trigger] spec_keyword(s, i0, kw) is None,
        forall|c: char| #[trigger] spec_symbol(s, i0, c) is None,
        spec_identifier(s, i0) is Err,
{
}

/// Whether `lit` holds, from `at + k` on, a word that in upper case is
/// `kw` from its place `k` on.
pub open spec fn spelled(lit: Seq<char>, at: int, kw: Seq<char>, k: int) -> bool
    decreases kw.len() - k,
{
    if k >= kw.len() {
        true
    } else {
        is_word_char(lit[at + k]) && upper(lit[at + k]) == kw[k] && spelled(lit, at, kw, k + 1)
    }
}

/// Whether `lit` holds at `off`: a blank if `lead` is 1, then a word that
/// in upper case is `kw`, then a character that is not a word character.
pub open spec fn spells(lit: Seq<char>, off: int, lead: int, kw: Seq<char>) -> bool {
    &&& 0 <= off
    &&& 0 <= lead <= 1
    &&& kw.len() > 0
    &&& off + lead + kw.len() < lit.len()
    &&& (lead == 1 ==> lit[off] == ' ')
    &&& spelled(lit, off + lead, kw, 0)
    &&& !is_word_char(lit[off + lead + kw.len()])
}

/// Every letter of a spelled keyword is a word character and has the
/// keyword's letter as its upper case.
pub proof fn lemma_spelled(lit: Seq<char>, at: int, kw: Seq<char>, k: int, j: int)
    requires
        spelled(lit, at, kw, k),
        0 <= k <= j < kw.len(),
    ensures
        is_word_char(lit[at + j]),
        upper(lit[at + j]) == kw[j],
    decreases j - k,
{
    if k < j {
        lemma_spelled(lit, at, kw, k + 1, j);
    }
}

/// A literal that spells a keyword is read as that keyword, from `i0` on
/// where the token that starts at `i0` is the one that starts at `i + off`.
pub proof fn lemma_keyword_literal(
    s: Seq<char>,
    i0: int,
    i: int,
    lit: Seq<char>,
    off: int,
    lead: int,
    kw: Seq<char>,
)
    requires
        carries(s, i, lit),
        spells(lit, off, lead, kw),
        skip_trivia(s, i0) == skip_trivia(s, i + off),
    ensures
        word_at(
            s,
            i0,
            lit.subrange(off + lead, off + lead + kw.len()),
            i + off + lead + kw.len(),
        ),
        upper_seq(lit.subrange(off + lead, off + lead + kw.len())) == kw,
        spec_keyword(s, i0, kw) == Some(i + off + lead + kw.len()),
        !is_word_char(s[i + off + lead + kw.len()]),
        i + off + lead + kw.len() < s.len(),
{
    let w = lit.subrange(off + lead, off + lead + kw.len());
    let start = i + off + lead;
    assert forall|k: int| 0 <= k < lit.len() implies s[i + k] == lit[k] by {
        lemma_carries_char(s, i, lit, k);
    }
    assert forall|k: int| 0 <= k < kw.len() implies is_word_char(#[trigger] lit[off + lead + k])
        && upper(lit[off + lead + k]) == kw[k] by {
        lemma_spelled(lit, off + lead, kw, 0, k);
    }
    assert(is_word_char(lit[off + lead + 0]));
    assert(s[start] == lit[off + lead]);
    if lead == 1 {
        assert(s[i + off] == ' ');
        lemma_skip_space(s, i + off);
    }
    lemma_skip_here(s, start);
    assert(s.subrange(start, start + w.len()) =~= w);
    assert(all_word_chars(w)) by {
        assert forall|k: int| 0 <= k < w.len() implies is_word_char(#[trigger] w[k]) by {
            assert(is_word_char(lit[off + lead + k]));
        }
    }
    assert(s[start + w.len()] == lit[off + lead + kw.len()]);
    lemma_word_at(s, start, start, w);
    assert(upper_seq(w) =~= kw) by {
        assert forall|k: int| 0 <= k < w.len() implies upper_seq(w)[k] == kw[k] by {
            assert(upper(lit[off + lead + k]) == kw[k]);
        }
    }
}

} // verus!
