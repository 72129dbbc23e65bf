//! Character-sequence helpers shared by the unparser and the parser.
use vstd::prelude::*;

verus! {

/// `String::push` appends one character to the end of the string.
pub assume_specification[ String::push ](s: &mut String, ch: char)
    ensures
        final(s)@ == old(s)@.push(ch),
;

/// The parts after the first, each preceded by the separator.
pub open spec fn join_rest(parts: Seq<Seq<char>>, sep: Seq<char>) -> Seq<char>
    decreases parts.len(),
{
    if parts.len() == 0 {
        Seq::empty()
    } else {
        sep + parts[0] + join_rest(parts.skip(1), sep)
    }
}

/// The parts in order with the separator between neighbours.
pub open spec fn join(parts: Seq<Seq<char>>, sep: Seq<char>) -> Seq<char> {
    if parts.len() == 0 {
        Seq::empty()
    } else {
        parts[0] + join_rest(parts.skip(1), sep)
    }
}

/// Appending one more part to a tail appends the separator and the part.
pub proof fn lemma_join_rest_push(parts: Seq<Seq<char>>, sep: Seq<char>, last: Seq<char>)
    ensures
        join_rest(parts.push(last), sep) == join_rest(parts, sep) + sep + last,
    decreases parts.len(),
{
    if parts.len() == 0 {
        assert(parts.push(last).skip(1) =~= Seq::<Seq<char>>::empty());
        assert(join_rest(parts.push(last).skip(1), sep) =~= Seq::<char>::empty());
        assert(join_rest(parts.push(last), sep) =~= sep + last);
        assert(join_rest(parts, sep) + sep + last =~= sep + last);
    } else {
        lemma_join_rest_push(parts.skip(1), sep, last);
        assert(parts.push(last).skip(1) =~= parts.skip(1).push(last));
        assert(parts.push(last)[0] == parts[0]);
        assert(join_rest(parts.push(last), sep) =~= join_rest(parts, sep) + sep + last);
    }
}

/// Appending a part to a non-empty list appends the separator and the part.
pub proof fn lemma_join_push(parts: Seq<Seq<char>>, sep: Seq<char>, last: Seq<char>)
    requires
        parts.len() > 0,
    ensures
        join(parts.push(last), sep) == join(parts, sep) + sep + last,
{
    lemma_join_rest_push(parts.skip(1), sep, last);
    assert(parts.push(last).skip(1) =~= parts.skip(1).push(last));
    assert(join(parts.push(last), sep) =~= join(parts, sep) + sep + last);
}

/// Renders every item with `f` and joins the results with `sep`.
pub fn join_texts<T, F: Fn(&T) -> String>(
    items: &Vec<T>,
    f: F,
    sep: &str,
    Ghost(render): Ghost<spec_fn(T) -> Seq<char>>,
) -> (out: String)
    requires
        forall|x: &T| call_requires(f, (x,)),
        forall|x: &T, s: String| call_ensures(f, (x,), s) ==> s@ == render(*x),
    ensures
        out@ == join(items@.map_values(render), sep@),
{
    let mut out = String::new();
    let mut i: usize = 0;
    while i < items.len()
        invariant
            i <= items.len(),
            forall|x: &T| call_requires(f, (x,)),
            forall|x: &T, s: String| call_ensures(f, (x,), s) ==> s@ == render(*x),
            out@ == join(items@.take(i as int).map_values(render), sep@),
        decreases items.len() - i,
    {
        let ghost before = items@.take(i as int).map_values(render);
        let piece = f(&items[i]);
        if i > 0 {
            out.append(sep);
        }
        out.append(piece.as_str());
        proof {
            assert(items@.take(i + 1).map_values(render) =~= before.push(render(items@[i as int])));
            if i > 0 {
                lemma_join_push(before, sep@, piece@);
            } else {
                assert(before.push(piece@).skip(1) =~= Seq::<Seq<char>>::empty());
                assert(out@ =~= join(before.push(piece@), sep@));
            }
        }
        i += 1;
    }
    proof {
        assert(items@.take(items.len() as int) =~= items@);
    }
    out
}

} // verus!
