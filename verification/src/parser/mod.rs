//! The recursive-descent parser for `SELECT` queries.
use vstd::prelude::*;
use crate::ast::set_expr::{SetExpr, SetExprModel};
use crate::parser::error::{located, PError};
use crate::parser::grammar::{select_statement, spec_select};
use crate::parser::input::{skip_trivia, Input};
use crate::parser::token::Parsed;
use crate::roundtrip::sound::lemma_select_sound;
use crate::roundtrip::valid::valid_query;

pub mod combinator;
pub mod error;
pub mod expr;
pub mod grammar;
pub mod input;
pub mod token;

verus! {

/// How many queries may be nested inside the outermost one.
pub const MAX_DEPTH: usize = 64;

/// What parsing the text `s` from its start yields: the query and the
/// position behind it, or the message of the failure.
pub open spec fn spec_parse(s: Seq<char>) -> Parsed<SetExprModel> {
    spec_select(s, 0, MAX_DEPTH as nat)
}

/// What parsing the text `s` as exactly one query yields: behind the
/// query only blanks and comments may follow.
pub open spec fn spec_parse_all(s: Seq<char>) -> Result<SetExprModel, Seq<char>> {
    match spec_parse(s) {
        Err(e) => Err(e),
        Ok((query, end)) => if skip_trivia(s, end) == s.len() {
            Ok(query)
        } else {
            Err(located("trailing input"@, skip_trivia(s, end)))
        },
    }
}

/// The characters of `text`.
pub fn to_chars(text: &str) -> (chars: Vec<char>)
    ensures
        chars@ == text@,
{
    let mut chars: Vec<char> = Vec::new();
    for c in it: text.chars()
        invariant
            chars@ == it.seq().take(it.index() as int),
            it.seq() == text@,
    {
        chars.push(c);
    }
    chars
}

/// Parses the query at the start of `sql` and returns it with the text
/// that follows it. The query is one of the grammar: its projection is
/// not empty, and it nests no more than [`MAX_DEPTH`] queries.
pub fn parse(sql: &str) -> (r: Result<(SetExpr, String), PError>)
    ensures
        match r {
            Ok((query, rest)) => spec_parse(sql@) == Ok::<(SetExprModel, int), Seq<char>>(
                (query@, sql@.len() - rest@.len()),
            ) && rest@ == sql@.skip(sql@.len() - rest@.len()),
            Err(e) => spec_parse(sql@) == Err::<(SetExprModel, int), Seq<char>>(e@),
        },
        r matches Ok((query, _)) ==> valid_query(query@, MAX_DEPTH as nat),
{
    proof {
        lemma_select_sound(sql@, 0, MAX_DEPTH as nat);
    }
    let chars = to_chars(sql);
    match select_statement(Input::new(chars.as_slice()), MAX_DEPTH) {
        Ok((rest, query)) => Ok((query, rest.remaining_text())),
        Err(e) => Err(e),
    }
}

/// Parses `sql` as exactly one query: text behind the query, other than
/// blanks and comments, is a failure.
pub fn parse_all(sql: &str) -> (r: Result<SetExpr, PError>)
    ensures
        match r {
            Ok(query) => spec_parse_all(sql@) == Ok::<SetExprModel, Seq<char>>(query@),
            Err(e) => spec_parse_all(sql@) == Err::<SetExprModel, Seq<char>>(e@),
        },
        r matches Ok(query) ==> valid_query(query@, MAX_DEPTH as nat),
{
    proof {
        lemma_select_sound(sql@, 0, MAX_DEPTH as nat);
    }
    let chars = to_chars(sql);
    match select_statement(Input::new(chars.as_slice()), MAX_DEPTH) {
        Ok((rest, query)) => {
            let after = rest.skip_trivia();
            if after.remaining() == 0 {
                Ok(query)
            } else {
                Err(PError::at("trailing input", after))
            }
        },
        Err(e) => Err(e),
    }
}

} // verus!
