//! How the projection and the clauses of a query are read back.
use vstd::prelude::*;
use crate::ast::expr::{render_exprs, ExprModel};
use crate::ast::set_expr::{
    render_clause, render_clauses, render_group_by, render_items, render_projection,
    render_window_clause, render_windows, NamedWindowDefModel, SelectItemModel,
};
use crate::parser::combinator::spec_preceded;
use crate::parser::expr::{expr_rule, spec_by_list, spec_expr};
use crate::parser::grammar::{
    list_or_empty, spec_clauses, spec_projection, spec_window_list, window_list_rule,
};
use crate::parser::input::skip_trivia;
use crate::roundtrip::rules::{lemma_by_list, lemma_window_list};
use crate::roundtrip::terms::lemma_items;
use crate::roundtrip::tokens::{
    carries, lemma_carries_char, lemma_carries_split, lemma_keyword_literal, lemma_skip_space,
    spells,
};
use crate::roundtrip::valid::{
    valid_exprs, valid_items, valid_named_windows, valid_optional_expr,
};
use crate::roundtrip::words::{
    clause_rank, closed_below, item_stop, lemma_clause_opens, lemma_expr, lemma_keywords,
    lemma_literals,
};

verus! {

/// The start of a query is read back.
pub proof fn lemma_projection(
    s: Seq<char>,
    i0: int,
    i: int,
    distinct: bool,
    projection: Seq<SelectItemModel>,
)
    requires
        projection.len() > 0,
        valid_items(projection),
        skip_trivia(s, i0) == skip_trivia(s, i),
        carries(s, i, render_projection(distinct, projection)),
        item_stop(s, i + render_projection(distinct, projection).len()),
    ensures
        spec_projection(s, i0) == Ok::<((bool, Seq<SelectItemModel>), int), Seq<char>>(
            ((distinct, projection), i + render_projection(distinct, projection).len()),
        ),
{
    lemma_keywords();
    lemma_literals();
    let d = if distinct {
        "DISTINCT "@
    } else {
        Seq::<char>::empty()
    };
    let list = render_items(projection);
    lemma_carries_split(s, i, "SELECT "@ + d, list);
    lemma_carries_split(s, i, "SELECT "@, d);
    lemma_keyword_literal(s, i0, i, "SELECT "@, 0, 0, "SELECT"@);
    let j = i + 6;
    lemma_carries_char(s, i, "SELECT "@, 6);
    lemma_skip_space(s, j);
    if distinct {
        lemma_keyword_literal(s, j, j + 1, "DISTINCT "@, 0, 0, "DISTINCT"@);
        let k = j + 9;
        lemma_carries_char(s, j + 1, "DISTINCT "@, 8);
        lemma_skip_space(s, k);
        lemma_items(s, k, k + 1, projection);
    } else {
        lemma_items(s, j, j + 1, projection);
    }
}

/// A `WHERE` or `HAVING` clause is read back, and in front of it the
/// clauses before its own are closed.
pub proof fn lemma_expr_clause(
    s: Seq<char>,
    q: int,
    lit: Seq<char>,
    kw: Seq<char>,
    x: Option<ExprModel>,
)
    requires
        valid_optional_expr(x),
        kw == "WHERE"@ || kw == "HAVING"@,
        spells(lit, 0, 1, kw),
        lit.len() == kw.len() + 2,
        lit[lit.len() - 1] == ' ',
        carries(s, q, render_clause(lit, x)),
        closed_below(s, q + render_clause(lit, x).len(), clause_rank(kw) + 1),
    ensures
        spec_preceded(kw, expr_rule(), s, q) == Ok::<(Option<ExprModel>, int), Seq<char>>(
            (x, q + render_clause(lit, x).len()),
        ),
        closed_below(s, q, clause_rank(kw)),
{
    lemma_keywords();
    match x {
        Some(expr) => {
            lemma_carries_split(s, q, lit, expr.render());
            lemma_clause_opens(s, q, lit, kw);
            let k = q + 1 + kw.len();
            lemma_carries_char(s, q, lit, lit.len() - 1);
            lemma_skip_space(s, k);
            lemma_expr(s, k, k + 1, expr);
            assert(expr_rule()(s, k) == spec_expr(s, k));
        },
        None => {},
    }
}

/// The `GROUP BY` clause is read back, and in front of it the clauses
/// before it are closed.
pub proof fn lemma_group_clause(s: Seq<char>, q: int, group_by: Seq<ExprModel>)
    requires
        valid_exprs(group_by),
        carries(s, q, render_group_by(group_by)),
        closed_below(s, q + render_group_by(group_by).len(), 4),
    ensures
        spec_by_list("GROUP"@, s, q) == Ok::<(Seq<ExprModel>, int), Seq<char>>(
            (group_by, q + render_group_by(group_by).len()),
        ),
        closed_below(s, q, 3),
{
    lemma_keywords();
    lemma_literals();
    if group_by.len() > 0 {
        lemma_carries_split(s, q, " GROUP BY "@, render_exprs(group_by));
        lemma_clause_opens(s, q, " GROUP BY "@, "GROUP"@);
        lemma_by_list(s, q, q, " GROUP BY "@, 1, "GROUP"@, group_by);
    } else {
        assert(group_by =~= Seq::<ExprModel>::empty());
    }
}

/// The `WINDOW` clause is read back, and in front of it the clauses
/// before it are closed.
pub proof fn lemma_window_clause(s: Seq<char>, q: int, windows: Seq<NamedWindowDefModel>)
    requires
        valid_named_windows(windows),
        carries(s, q, render_window_clause(windows)),
        closed_below(s, q + render_window_clause(windows).len(), 6),
    ensures
        spec_preceded("WINDOW"@, window_list_rule(), s, q) matches Ok((found, end)) && end == q
            + render_window_clause(windows).len() && list_or_empty(found) == windows,
        closed_below(s, q, 5),
{
    lemma_keywords();
    lemma_literals();
    if windows.len() > 0 {
        lemma_carries_split(s, q, " WINDOW "@, render_windows(windows));
        lemma_clause_opens(s, q, " WINDOW "@, "WINDOW"@);
        let k = q + 7;
        lemma_carries_char(s, q, " WINDOW "@, 7);
        lemma_skip_space(s, k);
        lemma_window_list(s, k, k + 1, windows);
        assert(window_list_rule()(s, k) == spec_window_list(s, k));
    } else {
        assert(windows =~= Seq::<NamedWindowDefModel>::empty());
    }
}

/// The clauses behind `FROM` are read back, and in front of them only
/// they or `FROM` can start.
pub proof fn lemma_clauses(
    s: Seq<char>,
    q: int,
    selection: Option<ExprModel>,
    group_by: Seq<ExprModel>,
    having: Option<ExprModel>,
    windows: Seq<NamedWindowDefModel>,
)
    requires
        valid_optional_expr(selection),
        valid_exprs(group_by),
        valid_optional_expr(having),
        valid_named_windows(windows),
        carries(s, q, render_clauses(selection, group_by, having, windows)),
        closed_below(s, q + render_clauses(selection, group_by, having, windows).len(), 6),
    ensures
        spec_clauses(s, q) == Ok::<
            (
                (Option<ExprModel>, Seq<ExprModel>, Option<ExprModel>, Seq<NamedWindowDefModel>),
                int,
            ),
            Seq<char>,
        >(
            (
                (selection, group_by, having, windows),
                q + render_clauses(selection, group_by, having, windows).len(),
            ),
        ),
        closed_below(s, q, 2),
{
    lemma_keywords();
    lemma_literals();
    let w = render_clause(" WHERE "@, selection);
    let g = render_group_by(group_by);
    let h = render_clause(" HAVING "@, having);
    let n = render_window_clause(windows);
    lemma_carries_split(s, q, w, g + (h + n));
    let q1 = q + w.len();
    lemma_carries_split(s, q1, g, h + n);
    let q2 = q1 + g.len();
    lemma_carries_split(s, q2, h, n);
    let q3 = q2 + h.len();
    lemma_window_clause(s, q3, windows);
    lemma_expr_clause(s, q2, " HAVING "@, "HAVING"@, having);
    lemma_group_clause(s, q1, group_by);
    lemma_expr_clause(s, q, " WHERE "@, "WHERE"@, selection);
}

} // verus!
