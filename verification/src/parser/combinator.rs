//! Parsing primitives that are built around another parser.
//!
//! Each combinator exists twice: as a function on models of parsers, which
//! says what it yields, and as an executable function that takes a parser
//! and the model of that parser.
use vstd::prelude::*;
use crate::parser::error::{located, PError};
use crate::parser::input::{skip_trivia, IResult, Input};
use crate::parser::token::{agrees, keyword, spec_keyword, spec_symbol, symbol, Parsed};

verus! {

/// The model of a parser: what it yields at position `i` of the text `s`.
pub type Rule<T> = spec_fn(Seq<char>, int) -> Parsed<T>;

/// Whether the parser `f` can be called on every cursor and yields what
/// its model `p` prescribes.
pub open spec fn parser_for<'a, O: DeepView, F: Fn(Input<'a>) -> IResult<'a, O>>(
    f: F,
    p: Rule<O::V>,
) -> bool {
    &&& forall|i: Input<'a>| call_requires(f, (i,))
    &&& forall|i: Input<'a>, r: IResult<'a, O>| #[trigger]
        call_ensures(f, (i,), r) ==> agrees(r, i, p(i.text(), i.pos()))
}

/// The message for a missing symbol.
pub open spec fn expected_symbol(c: char) -> Seq<char> {
    "expected '"@.push(c).push('\'')
}

/// The failure for a symbol that is not the next token at or after `i`.
pub open spec fn missing(c: char, s: Seq<char>, i: int) -> Seq<char> {
    located(expected_symbol(c), skip_trivia(s, i))
}

/// The items after the first of a separated list: as long as the
/// separator follows, one more item is required. A parser that succeeds
/// without consuming anything ends the list with a failure.
pub open spec fn spec_separated_rest<T>(
    p: Rule<T>,
    sep: char,
    s: Seq<char>,
    i: int,
    acc: Seq<T>,
) -> Parsed<Seq<T>>
    decreases s.len() - i,
{
    match spec_symbol(s, i, sep) {
        None => Ok((acc, i)),
        Some(j) => match p(s, j) {
            Err(e) => Err(e),
            Ok((item, k)) => if i < k <= s.len() {
                spec_separated_rest(p, sep, s, k, acc.push(item))
            } else {
                Err("parse error"@)
            },
        },
    }
}

/// One or more items, each two separated by `sep`.
pub open spec fn spec_separated_list<T>(p: Rule<T>, sep: char, s: Seq<char>, i: int) -> Parsed<
    Seq<T>,
> {
    match p(s, i) {
        Err(e) => Err(e),
        Ok((item, k)) => spec_separated_rest(p, sep, s, k, seq![item]),
    }
}

/// As many items as `p` parses one behind the other, added to `acc`; the
/// first failure of `p` ends the run and is not reported. A parser that
/// succeeds without consuming anything ends the run with a failure.
pub open spec fn spec_many0<T>(p: Rule<T>, s: Seq<char>, i: int, acc: Seq<T>) -> Parsed<Seq<T>>
    decreases s.len() - i,
{
    match p(s, i) {
        Err(_) => Ok((acc, i)),
        Ok((item, k)) => if i < k <= s.len() {
            spec_many0(p, s, k, acc.push(item))
        } else {
            Err("parse error"@)
        },
    }
}

/// One item, then as many more as `p` parses.
pub open spec fn spec_many1<T>(p: Rule<T>, s: Seq<char>, i: int) -> Parsed<Seq<T>> {
    match p(s, i) {
        Err(e) => Err(e),
        Ok((item, k)) => if i < k <= s.len() {
            spec_many0(p, s, k, seq![item])
        } else {
            Err("parse error"@)
        },
    }
}

/// The symbol `open`, then what `p` parses, then the symbol `close`.
pub open spec fn spec_delimited<T>(open: char, p: Rule<T>, close: char, s: Seq<char>, i: int)
    -> Parsed<T> {
    match spec_symbol(s, i, open) {
        None => Err(missing(open, s, i)),
        Some(j) => match p(s, j) {
            Err(e) => Err(e),
            Ok((value, k)) => match spec_symbol(s, k, close) {
                None => Err(missing(close, s, k)),
                Some(end) => Ok((value, end)),
            },
        },
    }
}

/// What `p` yields where it succeeds, else what `q` yields from the same
/// position: of two failures the second is the one reported.
pub open spec fn spec_alt<T>(p: Rule<T>, q: Rule<T>, s: Seq<char>, i: int) -> Parsed<T> {
    match p(s, i) {
        Ok(found) => Ok(found),
        Err(_) => q(s, i),
    }
}

/// What `p` yields where it succeeds, else nothing, with nothing consumed.
pub open spec fn spec_opt<T>(p: Rule<T>, s: Seq<char>, i: int) -> Parsed<Option<T>> {
    match p(s, i) {
        Ok((value, k)) => Ok((Some(value), k)),
        Err(_) => Ok((None, i)),
    }
}

/// A clause behind its keyword: without the keyword the clause is absent
/// and nothing is consumed; behind the keyword `p` must succeed.
pub open spec fn spec_preceded<T>(kw: Seq<char>, p: Rule<T>, s: Seq<char>, i: int) -> Parsed<
    Option<T>,
> {
    match spec_keyword(s, i, kw) {
        None => Ok((None, i)),
        Some(j) => match p(s, j) {
            Err(e) => Err(e),
            Ok((value, k)) => Ok((Some(value), k)),
        },
    }
}

/// The failure that reports that the symbol `c` is not the next token.
pub fn missing_symbol<'a, O>(c: char, input: Input<'a>) -> (r: IResult<'a, O>)
    ensures
        r matches Err(e) && e@ == missing(c, input.text(), input.pos()),
{
    let mut message = "expected '".to_string();
    message.push(c);
    message.push('\'');
    Err(PError::at(message.as_str(), input.skip_trivia()))
}

/// Parses one or more items with `f`, each two separated by `sep`.
pub fn separated_list<'a, O: DeepView, F: Fn(Input<'a>) -> IResult<'a, O>>(
    f: F,
    sep: char,
    input: Input<'a>,
    Ghost(p): Ghost<Rule<O::V>>,
) -> (r: IResult<'a, Vec<O>>)
    requires
        parser_for(f, p),
    ensures
        agrees(r, input, spec_separated_list(p, sep, input.text(), input.pos())),
{
    let (first_rest, first) = f(input)?;
    let mut rest = first_rest;
    let mut items: Vec<O> = Vec::new();
    items.push(first);
    proof {
        assert(items.deep_view() =~= seq![first.deep_view()]);
    }
    loop
        invariant
            parser_for(f, p),
            rest.text() == input.text(),
            rest.pos() <= rest.text().len(),
            spec_separated_rest(p, sep, input.text(), rest.pos(), items.deep_view())
                == spec_separated_list(p, sep, input.text(), input.pos()),
        decreases rest.text().len() - rest.pos(),
    {
        match symbol(rest, sep) {
            None => {
                return Ok((rest, items));
            },
            Some(after) => {
                let (next, item) = f(after)?;
                if next.offset() <= rest.offset() {
                    return PError::from("parse error");
                }
                let ghost before = items.deep_view();
                items.push(item);
                proof {
                    assert(items.deep_view() =~= before.push(item.deep_view()));
                }
                rest = next;
            },
        }
    }
}

/// Goes on from `rest` with the repetition of `f` that has gathered `items`.
fn many_more<'a, O: DeepView, F: Fn(Input<'a>) -> IResult<'a, O>>(
    f: F,
    input: Input<'a>,
    start: Input<'a>,
    first: Vec<O>,
    Ghost(p): Ghost<Rule<O::V>>,
) -> (r: IResult<'a, Vec<O>>)
    requires
        parser_for(f, p),
        start.text() == input.text(),
    ensures
        agrees(r, input, spec_many0(p, input.text(), start.pos(), first.deep_view())),
{
    let mut rest = start;
    let mut items = first;
    loop
        invariant
            parser_for(f, p),
            rest.text() == input.text(),
            spec_many0(p, input.text(), rest.pos(), items.deep_view()) == spec_many0(
                p,
                input.text(),
                start.pos(),
                first.deep_view(),
            ),
        decreases rest.text().len() - rest.pos(),
    {
        let at = rest.offset();
        match f(rest) {
            Err(_) => {
                return Ok((rest, items));
            },
            Ok((next, item)) => {
                if next.offset() <= at {
                    return PError::from("parse error");
                }
                let ghost before = items.deep_view();
                items.push(item);
                proof {
                    assert(items.deep_view() =~= before.push(item.deep_view()));
                }
                rest = next;
            },
        }
    }
}

/// Parses with `f` as often as it succeeds, possibly never.
pub fn many0<'a, O: DeepView, F: Fn(Input<'a>) -> IResult<'a, O>>(
    f: F,
    input: Input<'a>,
    Ghost(p): Ghost<Rule<O::V>>,
) -> (r: IResult<'a, Vec<O>>)
    requires
        parser_for(f, p),
    ensures
        agrees(r, input, spec_many0(p, input.text(), input.pos(), Seq::empty())),
{
    let none: Vec<O> = Vec::new();
    proof {
        assert(none.deep_view() =~= Seq::<O::V>::empty());
    }
    many_more(f, input, input, none, Ghost(p))
}

/// Parses with `f` as often as it succeeds, and at least once.
pub fn many1<'a, O: DeepView, F: Fn(Input<'a>) -> IResult<'a, O>>(
    f: F,
    input: Input<'a>,
    Ghost(p): Ghost<Rule<O::V>>,
) -> (r: IResult<'a, Vec<O>>)
    requires
        parser_for(f, p),
    ensures
        agrees(r, input, spec_many1(p, input.text(), input.pos())),
{
    let at = input.offset();
    let (rest, first) = f(input)?;
    if rest.offset() <= at {
        return PError::from("parse error");
    }
    let mut one: Vec<O> = Vec::new();
    one.push(first);
    proof {
        assert(one.deep_view() =~= seq![first.deep_view()]);
    }
    many_more(f, input, rest, one, Ghost(p))
}

/// Parses the symbol `open`, then with `f`, then the symbol `close`.
pub fn delimited<'a, O: DeepView, F: Fn(Input<'a>) -> IResult<'a, O>>(
    open: char,
    f: F,
    close: char,
    input: Input<'a>,
    Ghost(p): Ghost<Rule<O::V>>,
) -> (r: IResult<'a, O>)
    requires
        parser_for(f, p),
    ensures
        agrees(r, input, spec_delimited(open, p, close, input.text(), input.pos())),
{
    match symbol(input, open) {
        None => missing_symbol(open, input),
        Some(inside) => {
            let (rest, value) = f(inside)?;
            match symbol(rest, close) {
                None => missing_symbol(close, rest),
                Some(end) => Ok((end, value)),
            }
        },
    }
}

/// Tries `f`, and where it fails tries `g` from the same cursor.
pub fn alt<'a, O: DeepView, F: Fn(Input<'a>) -> IResult<'a, O>, G: Fn(Input<'a>) -> IResult<'a, O>>(
    f: F,
    g: G,
    input: Input<'a>,
    Ghost(p): Ghost<Rule<O::V>>,
    Ghost(q): Ghost<Rule<O::V>>,
) -> (r: IResult<'a, O>)
    requires
        parser_for(f, p),
        parser_for(g, q),
    ensures
        agrees(r, input, spec_alt(p, q, input.text(), input.pos())),
{
    match f(input) {
        Ok(found) => Ok(found),
        Err(_) => g(input),
    }
}

/// Tries `f`; where it fails, yields nothing and the cursor it was given.
pub fn opt<'a, O: DeepView, F: Fn(Input<'a>) -> IResult<'a, O>>(
    f: F,
    input: Input<'a>,
    Ghost(p): Ghost<Rule<O::V>>,
) -> (r: IResult<'a, Option<O>>)
    requires
        parser_for(f, p),
    ensures
        r is Ok,
        agrees(r, input, spec_opt(p, input.text(), input.pos())),
{
    proof {
        use_type_invariant(&input);
        input.lemma_in_bounds();
    }
    match f(input) {
        Ok((rest, value)) => Ok((rest, Some(value))),
        Err(_) => Ok((input, None)),
    }
}

/// Parses a clause that the keyword `kw` introduces: without the keyword
/// the clause is absent, behind it `f` must succeed.
pub fn preceded<'a, O: DeepView, F: Fn(Input<'a>) -> IResult<'a, O>>(
    kw: &str,
    f: F,
    input: Input<'a>,
    Ghost(p): Ghost<Rule<O::V>>,
) -> (r: IResult<'a, Option<O>>)
    requires
        parser_for(f, p),
    ensures
        agrees(r, input, spec_preceded(kw@, p, input.text(), input.pos())),
{
    proof {
        use_type_invariant(&input);
        input.lemma_in_bounds();
    }
    match keyword(input, kw) {
        None => Ok((input, None)),
        Some(inside) => {
            let (rest, value) = f(inside)?;
            Ok((rest, Some(value)))
        },
    }
}

} // verus!
