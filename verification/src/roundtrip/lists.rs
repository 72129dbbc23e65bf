//! How a comma-separated list is read back, whatever its items are.
use vstd::prelude::*;
use crate::parser::combinator::{spec_separated_list, spec_separated_rest, Rule};
use crate::parser::input::{is_space, skip_trivia};
use crate::parser::token::spec_symbol;
use crate::roundtrip::tokens::{
    carries, lemma_carries_char, lemma_carries_split, lemma_skip_here, lemma_skip_space,
};
use crate::roundtrip::words::lemma_literals;
use crate::text::{join, join_rest};

verus! {

/// Whether the rule `p` reads every valid item back from its text, where
/// the text is followed by what `stop` admits.
pub open spec fn reads_back<T>(
    p: Rule<T>,
    render: spec_fn(T) -> Seq<char>,
    valid: spec_fn(T) -> bool,
    stop: spec_fn(Seq<char>, int) -> bool,
    s: Seq<char>,
) -> bool {
    forall|j0: int, j: int, x: T|
        #![trigger p(s, j0), carries(s, j, render(x))]
        valid(x) && skip_trivia(s, j0) == j && carries(s, j, render(x)) && stop(
            s,
            j + render(x).len(),
        ) ==> p(s, j0) == Ok::<(T, int), Seq<char>>((x, j + render(x).len()))
}

/// Whether the text of every valid item starts with a character that
/// starts a token.
pub open spec fn starts_token<T>(render: spec_fn(T) -> Seq<char>, valid: spec_fn(T) -> bool)
    -> bool {
    forall|x: T| #[trigger]
        valid(x) ==> render(x).len() > 0 && !is_space(render(x)[0]) && render(x)[0] != '-' && render(x)[0] != '/'
}

/// Whether `stop` admits every comma of the text.
pub open spec fn stops_at_commas(stop: spec_fn(Seq<char>, int) -> bool, s: Seq<char>) -> bool {
    forall|q: int| 0 <= q < s.len() && s[q] == ',' ==> #[trigger] stop(s, q)
}

/// The items behind the first are read back one by one.
pub proof fn lemma_list_rest<T>(
    p: Rule<T>,
    render: spec_fn(T) -> Seq<char>,
    valid: spec_fn(T) -> bool,
    stop: spec_fn(Seq<char>, int) -> bool,
    s: Seq<char>,
    i: int,
    acc: Seq<T>,
    items: Seq<T>,
)
    requires
        reads_back(p, render, valid, stop, s),
        starts_token(render, valid),
        stops_at_commas(stop, s),
        forall|k: int| 0 <= k < items.len() ==> valid(#[trigger] items[k]),
        carries(s, i, join_rest(items.map_values(render), ", "@)),
        items.len() > 0 ==> stop(s, i + join_rest(items.map_values(render), ", "@).len()),
        spec_symbol(s, i + join_rest(items.map_values(render), ", "@).len(), ',') is None,
    ensures
        spec_separated_rest(p, ',', s, i, acc) == Ok::<(Seq<T>, int), Seq<char>>(
            (acc + items, i + join_rest(items.map_values(render), ", "@).len()),
        ),
    decreases items.len(),
{
    let parts = items.map_values(render);
    let text = join_rest(parts, ", "@);
    let e = i + text.len();
    if items.len() == 0 {
        assert(acc + items =~= acc);
    } else {
        lemma_literals();
        let first = items[0];
        let tail = join_rest(parts.skip(1), ", "@);
        assert(parts[0] == render(first));
        assert(valid(first));
        lemma_carries_split(s, i, ", "@ + parts[0], tail);
        lemma_carries_split(s, i, ", "@, parts[0]);
        lemma_carries_char(s, i, ", "@, 0);
        lemma_carries_char(s, i, ", "@, 1);
        lemma_carries_char(s, i + 2, parts[0], 0);
        lemma_skip_here(s, i);
        lemma_skip_here(s, i + 2);
        lemma_skip_space(s, i + 1);
        let k = i + 2 + parts[0].len();
        assert(parts.skip(1) =~= items.skip(1).map_values(render));
        if items.len() > 1 {
            let next = items[1];
            assert(items.skip(1)[0] == next);
            assert(tail == ", "@ + parts.skip(1)[0] + join_rest(parts.skip(1).skip(1), ", "@));
            lemma_carries_split(
                s,
                k,
                ", "@ + parts.skip(1)[0],
                join_rest(parts.skip(1).skip(1), ", "@),
            );
            lemma_carries_split(s, k, ", "@, parts.skip(1)[0]);
            lemma_carries_char(s, k, ", "@, 0);
            assert(stop(s, k));
        } else {
            assert(parts.skip(1).len() == 0);
            assert(tail.len() == 0);
            assert(k == e);
        }
        assert(carries(s, i + 2, render(first)));
        assert(p(s, i + 1) == Ok::<(T, int), Seq<char>>((first, k)));
        assert(spec_symbol(s, i, ',') == Some(i + 1));
        assert forall|j: int| 0 <= j < items.skip(1).len() implies valid(
            #[trigger] items.skip(1)[j],
        ) by {
            assert(valid(items[j + 1]));
        }
        assert(k + tail.len() == e);
        lemma_list_rest(p, render, valid, stop, s, k, acc.push(first), items.skip(1));
        assert(acc.push(first) + items.skip(1) =~= acc + items);
    }
}

/// A list of one or more valid items is read back from its text.
pub proof fn lemma_list<T>(
    p: Rule<T>,
    render: spec_fn(T) -> Seq<char>,
    valid: spec_fn(T) -> bool,
    stop: spec_fn(Seq<char>, int) -> bool,
    s: Seq<char>,
    i0: int,
    i: int,
    items: Seq<T>,
)
    requires
        reads_back(p, render, valid, stop, s),
        starts_token(render, valid),
        stops_at_commas(stop, s),
        items.len() > 0,
        forall|k: int| 0 <= k < items.len() ==> valid(#[trigger] items[k]),
        skip_trivia(s, i0) == skip_trivia(s, i),
        carries(s, i, join(items.map_values(render), ", "@)),
        stop(s, i + join(items.map_values(render), ", "@).len()),
        spec_symbol(s, i + join(items.map_values(render), ", "@).len(), ',') is None,
    ensures
        spec_separated_list(p, ',', s, i0) == Ok::<(Seq<T>, int), Seq<char>>(
            (items, i + join(items.map_values(render), ", "@).len()),
        ),
        skip_trivia(s, i) == i,
{
    let parts = items.map_values(render);
    let first = items[0];
    let tail = join_rest(parts.skip(1), ", "@);
    let k = i + parts[0].len();
    assert(parts[0] == render(first));
    assert(valid(first));
    lemma_carries_split(s, i, parts[0], tail);
    lemma_carries_char(s, i, parts[0], 0);
    lemma_skip_here(s, i);
    assert(parts.skip(1) =~= items.skip(1).map_values(render));
    if items.len() > 1 {
        lemma_literals();
        assert(tail == ", "@ + parts.skip(1)[0] + join_rest(parts.skip(1).skip(1), ", "@));
        lemma_carries_split(
            s,
            k,
            ", "@ + parts.skip(1)[0],
            join_rest(parts.skip(1).skip(1), ", "@),
        );
        lemma_carries_split(s, k, ", "@, parts.skip(1)[0]);
        lemma_carries_char(s, k, ", "@, 0);
        assert(stop(s, k));
    } else {
        assert(parts.skip(1).len() == 0);
        assert(tail.len() == 0);
    }
    assert(carries(s, i, render(first)));
    assert(p(s, i0) == Ok::<(T, int), Seq<char>>((first, k)));
    assert forall|j: int| 0 <= j < items.skip(1).len() implies valid(
        #[trigger] items.skip(1)[j],
    ) by {
        assert(valid(items[j + 1]));
    }
    lemma_list_rest(p, render, valid, stop, s, k, seq![first], items.skip(1));
    assert(seq![first] + items.skip(1) =~= items);
}

} // verus!
