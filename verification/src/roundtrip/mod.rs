//! Parsing the canonical text of a query gives the query back.
use vstd::prelude::*;
use crate::ast::set_expr::SetExprModel;
use crate::parser::{spec_parse, spec_parse_all, MAX_DEPTH};
use crate::roundtrip::query::lemma_select;
use crate::roundtrip::sound::lemma_select_sound;
use crate::roundtrip::tokens::lemma_end_token;
use crate::roundtrip::valid::valid_query;

pub mod clauses;
pub mod lists;
pub mod query;
pub mod rules;
pub mod sound;
pub mod terms;
pub mod tokens;
pub mod valid;
pub mod words;

verus! {

/// The canonical text of a query of the grammar parses, as a whole, to
/// that same query.
pub proof fn lemma_render_then_parse(query: SetExprModel)
    requires
        valid_query(query, MAX_DEPTH as nat),
    ensures
        spec_parse(query.render()) == Ok::<(SetExprModel, int), Seq<char>>(
            (query, query.render().len() as int),
        ),
        spec_parse_all(query.render()) == Ok::<SetExprModel, Seq<char>>(query),
{
    let s = query.render();
    assert(s.subrange(0, s.len() as int) =~= s);
    lemma_end_token(s, s.len() as int);
    lemma_select(s, 0, 0, query, MAX_DEPTH as nat);
}

/// What the parser builds is a query of the grammar.
pub proof fn lemma_parse_gives_valid(s: Seq<char>)
    ensures
        spec_parse(s) matches Ok((query, _)) ==> valid_query(query, MAX_DEPTH as nat),
{
    lemma_select_sound(s, 0, MAX_DEPTH as nat);
}

/// The round trip: where a text parses to a query, the canonical text of
/// that query parses again, as a whole, and to the same query; so the
/// second rendering is the first.
pub proof fn lemma_roundtrip(s: Seq<char>)
    ensures
        spec_parse(s) matches Ok((query, _)) ==> spec_parse(query.render()) == Ok::<
            (SetExprModel, int),
            Seq<char>,
        >((query, query.render().len() as int)) && spec_parse_all(query.render()) == Ok::<
            SetExprModel,
            Seq<char>,
        >(query),
{
    lemma_parse_gives_valid(s);
    match spec_parse(s) {
        Ok((query, _)) => {
            lemma_render_then_parse(query);
        },
        Err(_) => {},
    }
}

} // verus!
