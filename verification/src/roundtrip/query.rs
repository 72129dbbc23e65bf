//! How a whole query, with the queries nested in it, is read back.
use vstd::prelude::*;
use crate::ast::set_expr::{render_clauses, render_projection, SetExprModel};
use crate::ast::statement::SelectStatementModel;
use crate::ast::table_ref::{render_alias, TableRefModel};
use crate::parser::grammar::{
    spec_from, spec_select, spec_subquery, spec_table_ref,
};
use crate::parser::input::skip_trivia;
use crate::parser::token::{spec_symbol};
use crate::roundtrip::clauses::{lemma_clauses, lemma_projection};
use crate::roundtrip::terms::{lemma_alias, lemma_base_table};
use crate::roundtrip::tokens::{
    carries, lemma_carries_char, lemma_carries_split, lemma_skip_here, lemma_skip_space,
    lemma_symbol_token, symbol_at,
};
use crate::roundtrip::valid::{valid_optional_ident, valid_query, valid_table_ref};
use crate::roundtrip::words::{
    closed_below, item_stop, lemma_clause_opens, lemma_keywords, lemma_literals,
};

verus! {

/// A subquery with its optional alias is read back.
pub proof fn lemma_subquery(
    s: Seq<char>,
    i0: int,
    i: int,
    subquery: SelectStatementModel,
    alias: Option<Seq<char>>,
    depth: nat,
)
    requires
        depth > 0,
        valid_query(subquery.body, (depth - 1) as nat),
        valid_optional_ident(alias),
        skip_trivia(s, i0) == skip_trivia(s, i),
        carries(s, i, "("@ + subquery.render() + ")"@ + render_alias(alias)),
        item_stop(s, i + ("("@ + subquery.render() + ")"@ + render_alias(alias)).len()),
    ensures
        spec_subquery(s, i0, depth) == Ok::<(TableRefModel, int), Seq<char>>(
            (
                TableRefModel::Subquery { subquery: Box::new(subquery), alias },
                i + ("("@ + subquery.render() + ")"@ + render_alias(alias)).len(),
            ),
        ),
    decreases depth, 0nat,
{
    lemma_keywords();
    lemma_literals();
    let body = subquery.render();
    lemma_carries_split(s, i, "("@ + body + ")"@, render_alias(alias));
    lemma_carries_split(s, i, "("@ + body, ")"@);
    lemma_carries_split(s, i, "("@, body);
    lemma_carries_char(s, i, "("@, 0);
    lemma_skip_here(s, i);
    let inner = i + 1;
    let close = inner + body.len();
    lemma_carries_char(s, close, ")"@, 0);
    lemma_skip_here(s, close);
    assert(symbol_at(s, close, close));
    lemma_symbol_token(s, close, close);
    lemma_select(s, inner, inner, subquery.body, (depth - 1) as nat);
    lemma_alias(s, close + 1, alias);
    assert(spec_symbol(s, i0, '(') == Some(inner));
    assert(spec_symbol(s, close, ')') == Some(close + 1));
    assert(SelectStatementModel { body: subquery.body } == subquery);
}

/// A table reference is read back.
pub proof fn lemma_table_ref(s: Seq<char>, i0: int, i: int, table: TableRefModel, depth: nat)
    requires
        valid_table_ref(table, depth),
        skip_trivia(s, i0) == skip_trivia(s, i),
        carries(s, i, table.render()),
        item_stop(s, i + table.render().len()),
    ensures
        spec_table_ref(s, i0, depth) == Ok::<(TableRefModel, int), Seq<char>>(
            (table, i + table.render().len()),
        ),
    decreases depth, 1nat,
{
    match table {
        TableRefModel::BaseTable { name, alias } => {
            lemma_base_table(s, i0, i, name, alias);
            assert(spec_subquery(s, i0, depth) is Err);
        },
        TableRefModel::Subquery { subquery, alias } => {
            lemma_subquery(s, i0, i, *subquery, alias, depth);
        },
    }
}

/// The `FROM` clause is read back, and in front of it no clause is cut
/// short.
pub proof fn lemma_from(s: Seq<char>, q: int, query: SetExprModel, depth: nat)
    requires
        valid_query(query, depth),
        carries(s, q, query.render_from()),
        closed_below(s, q + query.render_from().len(), 2),
    ensures
        spec_from(s, q, depth) == Ok::<(Option<TableRefModel>, int), Seq<char>>(
            (query->from, q + query.render_from().len()),
        ),
        closed_below(s, q, 1),
    decreases depth, 2nat,
{
    lemma_keywords();
    lemma_literals();
    match query {
        SetExprModel::Select { from: Some(table), .. } => {
            lemma_carries_split(s, q, " FROM "@, table.render());
            lemma_clause_opens(s, q, " FROM "@, "FROM"@);
            lemma_carries_char(s, q, " FROM "@, 5);
            lemma_skip_space(s, q + 5);
            lemma_table_ref(s, q + 5, q + 6, table, depth);
        },
        _ => {},
    }
}

/// A query is read back from its canonical text, where behind the text no
/// clause, list or name is continued.
pub proof fn lemma_select(s: Seq<char>, i0: int, i: int, query: SetExprModel, depth: nat)
    requires
        valid_query(query, depth),
        skip_trivia(s, i0) == skip_trivia(s, i),
        carries(s, i, query.render()),
        closed_below(s, i + query.render().len(), 6),
    ensures
        spec_select(s, i0, depth) == Ok::<(SetExprModel, int), Seq<char>>(
            (query, i + query.render().len()),
        ),
    decreases depth, 3nat,
{
    match query {
        SetExprModel::Select {
            distinct,
            projection,
            from,
            selection,
            group_by,
            having,
            named_windows,
        } => {
            let head = render_projection(distinct, projection);
            let middle = query.render_from();
            let tail = render_clauses(selection, group_by, having, named_windows);
            lemma_carries_split(s, i, head + middle, tail);
            lemma_carries_split(s, i, head, middle);
            let a = i + head.len();
            let b = a + middle.len();
            lemma_clauses(s, b, selection, group_by, having, named_windows);
            lemma_from(s, a, query, depth);
            lemma_projection(s, i0, i, distinct, projection);
        },
    }
}

} // verus!
