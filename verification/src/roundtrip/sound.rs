//! Whatever the parser builds is a query of the grammar.
use vstd::prelude::*;
use crate::ast::expr::{ExprModel};
use crate::ast::set_expr::{
    NamedWindowDefModel, SelectItemModel, SetExprModel, };
use crate::ast::table_ref::{TableRefModel};
use crate::parser::combinator::{
    spec_delimited, spec_preceded, spec_separated_list, spec_separated_rest, Rule,
};
use crate::parser::expr::{
    expr_rule, spec_by_list, spec_expr, spec_expr_list, spec_window_spec,
};
use crate::parser::grammar::{
    ident_list_rule, identifier_rule, named_window_rule, select_item_rule, spec_alias,
    spec_aliased_expr, spec_base_table, spec_clauses, spec_exclude, spec_expr_item,
    spec_from, spec_ident_list, spec_named_window, spec_projection, spec_select,
    spec_select_item, spec_subquery, spec_table_name, spec_table_ref, spec_unnamed_expr,
    spec_wildcard, spec_window_list, };
use crate::parser::input::{skip_trivia};
use crate::parser::token::{
    is_word_char, lemma_word_end_bounds, spec_identifier, spec_keyword, spec_symbol, word_end,
};
use crate::roundtrip::valid::{
    all_word_chars, valid_expr, valid_exprs, valid_ident, valid_idents, valid_item, valid_items,
    valid_named_window, valid_named_windows, valid_optional_expr, valid_optional_ident,
    valid_query, valid_table_ref, valid_wildcard, valid_window_spec,
};

verus! {

/// A word of the text is made of word characters.
pub proof fn lemma_word_sound(s: Seq<char>, i: int)
    ensures
        ({
            let start = skip_trivia(s, i);
            let end = word_end(s, start);
            0 <= start < s.len() && is_word_char(s[start]) ==> start < end <= s.len()
                && all_word_chars(s.subrange(start, end)) && s.subrange(start, end)[0]
                == s[start]
        }),
{
    let start = skip_trivia(s, i);
    let end = word_end(s, start);
    if 0 <= start < s.len() && is_word_char(s[start]) {
        lemma_word_end_bounds(s, start);
        lemma_word_end_bounds(s, start + 1);
        let w = s.subrange(start, end);
        assert forall|k: int| 0 <= k < w.len() implies is_word_char(#[trigger] w[k]) by {
            assert(is_word_char(s[start + k]));
        }
    }
}

/// What is read as an identifier is one of the grammar.
pub proof fn lemma_identifier_sound(s: Seq<char>, i: int)
    ensures
        spec_identifier(s, i) matches Ok((w, _)) ==> valid_ident(w),
{
    lemma_word_sound(s, i);
}

/// What is read as an expression is one of the grammar.
pub proof fn lemma_expr_sound(s: Seq<char>, i: int)
    ensures
        spec_expr(s, i) matches Ok((x, _)) ==> valid_expr(x),
{
    lemma_word_sound(s, i);
    lemma_identifier_sound(s, i);
}

/// Whether every value that the rule `p` yields on the text `s` is valid.
pub open spec fn sound<T>(p: Rule<T>, valid: spec_fn(T) -> bool, s: Seq<char>) -> bool {
    forall|j: int| (#[trigger] p(s, j)) matches Ok((x, _)) ==> valid(x)
}

/// The items behind the first are valid, where those gathered so far are.
pub proof fn lemma_rest_sound<T>(
    p: Rule<T>,
    valid: spec_fn(T) -> bool,
    sep: char,
    s: Seq<char>,
    i: int,
    acc: Seq<T>,
)
    requires
        sound(p, valid, s),
        forall|k: int| 0 <= k < acc.len() ==> valid(#[trigger] acc[k]),
    ensures
        spec_separated_rest(p, sep, s, i, acc) matches Ok((v, _)) ==> v.len() >= acc.len() && (
        forall|k: int| 0 <= k < v.len() ==> valid(#[trigger] v[k])),
    decreases s.len() - i,
{
    match spec_symbol(s, i, sep) {
        None => {},
        Some(j) => match p(s, j) {
            Err(_) => {},
            Ok((item, k)) => {
                if i < k <= s.len() {
                    assert(valid(item));
                    lemma_rest_sound(p, valid, sep, s, k, acc.push(item));
                }
            },
        },
    }
}

/// A separated list holds at least one item, and valid items only.
pub proof fn lemma_list_sound<T>(
    p: Rule<T>,
    valid: spec_fn(T) -> bool,
    sep: char,
    s: Seq<char>,
    i: int,
)
    requires
        sound(p, valid, s),
    ensures
        spec_separated_list(p, sep, s, i) matches Ok((v, _)) ==> v.len() > 0 && (forall|k: int|
            0 <= k < v.len() ==> valid(#[trigger] v[k])),
{
    match p(s, i) {
        Err(_) => {},
        Ok((item, k)) => {
            assert(valid(item));
            lemma_rest_sound(p, valid, sep, s, k, seq![item]);
        },
    }
}

/// A list of identifiers is not empty and holds identifiers of the
/// grammar.
pub proof fn lemma_ident_list_sound(s: Seq<char>, i: int)
    ensures
        spec_ident_list(s, i) matches Ok((v, _)) ==> v.len() > 0 && valid_idents(v),
{
    let p = identifier_rule();
    let valid = |w: Seq<char>| valid_ident(w);
    assert(sound(p, valid, s)) by {
        assert forall|j: int| (#[trigger] p(s, j)) matches Ok((x, _)) ==> valid(x) by {
            lemma_identifier_sound(s, j);
        }
    }
    lemma_list_sound(p, valid, ',', s, i);
}

/// A list of expressions is not empty and holds expressions of the
/// grammar.
pub proof fn lemma_expr_list_sound(s: Seq<char>, i: int)
    ensures
        spec_expr_list(s, i) matches Ok((v, _)) ==> v.len() > 0 && valid_exprs(v),
{
    let p = expr_rule();
    let valid = |x: ExprModel| valid_expr(x);
    assert(sound(p, valid, s)) by {
        assert forall|j: int| (#[trigger] p(s, j)) matches Ok((x, _)) ==> valid(x) by {
            lemma_expr_sound(s, j);
        }
    }
    lemma_list_sound(p, valid, ',', s, i);
}

/// A list clause holds expressions of the grammar.
pub proof fn lemma_by_list_sound(kw: Seq<char>, s: Seq<char>, i: int)
    ensures
        spec_by_list(kw, s, i) matches Ok((v, _)) ==> valid_exprs(v),
{
    match spec_keyword(s, i, kw) {
        None => {},
        Some(j) => match spec_keyword(s, j, "BY"@) {
            None => {},
            Some(k) => {
                lemma_expr_list_sound(s, k);
            },
        },
    }
}

/// A window body that was read is one of the grammar.
pub proof fn lemma_window_spec_sound(s: Seq<char>, i: int)
    ensures
        spec_window_spec(s, i) matches Ok((w, _)) ==> valid_window_spec(w),
{
    lemma_by_list_sound("PARTITION"@, s, i);
    match spec_by_list("PARTITION"@, s, i) {
        Err(_) => {},
        Ok((_, j)) => {
            lemma_by_list_sound("ORDER"@, s, j);
        },
    }
}

/// A window definition that was read is one of the grammar.
pub proof fn lemma_named_window_sound(s: Seq<char>, i: int)
    ensures
        spec_named_window(s, i) matches Ok((w, _)) ==> valid_named_window(w),
{
    lemma_identifier_sound(s, i);
    match spec_identifier(s, i) {
        Err(_) => {},
        Ok((_, j)) => match spec_keyword(s, j, "AS"@) {
            None => {},
            Some(k) => match spec_symbol(s, k, '(') {
                None => {},
                Some(inner) => {
                    lemma_window_spec_sound(s, inner);
                },
            },
        },
    }
}

/// A list of window definitions holds definitions of the grammar.
pub proof fn lemma_window_list_sound(s: Seq<char>, i: int)
    ensures
        spec_window_list(s, i) matches Ok((v, _)) ==> valid_named_windows(v),
{
    let p = named_window_rule();
    let valid = |w: NamedWindowDefModel| valid_named_window(w);
    assert(sound(p, valid, s)) by {
        assert forall|j: int| (#[trigger] p(s, j)) matches Ok((x, _)) ==> valid(x) by {
            lemma_named_window_sound(s, j);
        }
    }
    lemma_list_sound(p, valid, ',', s, i);
}

/// A list of identifiers in parentheses holds identifiers of the grammar.
pub proof fn lemma_parenthesized_idents_sound(s: Seq<char>, i: int)
    ensures
        spec_delimited('(', ident_list_rule(), ')', s, i) matches Ok((v, _)) ==> valid_idents(v),
{
    match spec_symbol(s, i, '(') {
        None => {},
        Some(j) => {
            lemma_ident_list_sound(s, j);
        },
    }
}

/// Wildcard options that were read are of the grammar.
pub proof fn lemma_wildcard_sound(s: Seq<char>, i: int)
    ensures
        spec_wildcard(s, i) matches Ok((o, _)) ==> valid_wildcard(o),
{
    match spec_symbol(s, i, '*') {
        None => {},
        Some(j) => {
            match spec_keyword(s, j, "EXCLUDE"@) {
                None => {},
                Some(a) => {
                    lemma_parenthesized_idents_sound(s, a);
                    lemma_identifier_sound(s, a);
                },
            }
            match spec_exclude(s, j) {
                Err(_) => {},
                Ok((_, k)) => match spec_keyword(s, k, "EXCEPT"@) {
                    None => {},
                    Some(b) => {
                        lemma_parenthesized_idents_sound(s, b);
                    },
                },
            }
        },
    }
}

/// A projection term that was read is one of the grammar, whichever
/// alternative read it.
pub proof fn lemma_select_item_sound(s: Seq<char>, i: int)
    ensures
        spec_select_item(s, i) matches Ok((x, _)) ==> valid_item(x),
{
    lemma_wildcard_sound(s, i);
    lemma_expr_sound(s, i);
    match spec_expr(s, i) {
        Err(_) => {},
        Ok((_, j)) => match spec_keyword(s, j, "AS"@) {
            None => {},
            Some(k) => {
                lemma_identifier_sound(s, k);
            },
        },
    }
    assert(spec_expr_item(s, i) == match spec_aliased_expr(s, i) {
        Ok(found) => Ok(found),
        Err(_) => spec_unnamed_expr(s, i),
    });
}

/// A projection that was read is not empty and holds terms of the
/// grammar.
pub proof fn lemma_projection_sound(s: Seq<char>, i: int)
    ensures
        spec_projection(s, i) matches Ok(((_, v), _)) ==> v.len() > 0 && valid_items(v),
{
    let p = select_item_rule();
    let valid = |x: SelectItemModel| valid_item(x);
    assert(sound(p, valid, s)) by {
        assert forall|j: int| (#[trigger] p(s, j)) matches Ok((x, _)) ==> valid(x) by {
            lemma_select_item_sound(s, j);
        }
    }
    match spec_keyword(s, i, "SELECT"@) {
        None => {},
        Some(j) => {
            let k = match spec_keyword(s, j, "DISTINCT"@) {
                Some(k) => k,
                None => j,
            };
            lemma_list_sound(p, valid, ',', s, k);
        },
    }
}

/// An alias that was read is an identifier of the grammar.
pub proof fn lemma_alias_sound(s: Seq<char>, i: int)
    ensures
        spec_alias(s, i) matches Ok((alias, _)) ==> valid_optional_ident(alias),
{
    lemma_identifier_sound(s, i);
    match spec_keyword(s, i, "AS"@) {
        None => {},
        Some(j) => {
            lemma_identifier_sound(s, j);
        },
    }
}

/// A named table that was read is one of the grammar, at any depth.
pub proof fn lemma_base_table_sound(s: Seq<char>, i: int)
    ensures
        spec_base_table(s, i) matches Ok((table, _)) ==> valid_table_ref(table, 0),
{
    lemma_identifier_sound(s, i);
    match spec_identifier(s, i) {
        Err(_) => {},
        Ok((_, j)) => {
            match spec_symbol(s, j, '.') {
                None => {},
                Some(k) => {
                    lemma_identifier_sound(s, k);
                },
            }
        },
    }
    match spec_table_name(s, i) {
        Err(_) => {},
        Ok((_, j)) => {
            lemma_alias_sound(s, j);
        },
    }
}

/// The expression of a clause that was read is one of the grammar.
pub proof fn lemma_preceded_expr_sound(kw: Seq<char>, s: Seq<char>, i: int)
    ensures
        spec_preceded(kw, expr_rule(), s, i) matches Ok((x, _)) ==> valid_optional_expr(x),
{
    match spec_keyword(s, i, kw) {
        None => {},
        Some(j) => {
            lemma_expr_sound(s, j);
        },
    }
}

/// The clauses behind `FROM` that were read are of the grammar.
pub proof fn lemma_clauses_sound(s: Seq<char>, i: int)
    ensures
        spec_clauses(s, i) matches Ok(((selection, group_by, having, windows), _))
            ==> valid_optional_expr(selection) && valid_exprs(group_by) && valid_optional_expr(
            having,
        ) && valid_named_windows(windows),
{
    lemma_preceded_expr_sound("WHERE"@, s, i);
    match spec_preceded("WHERE"@, expr_rule(), s, i) {
        Err(_) => {},
        Ok((_, a)) => {
            lemma_by_list_sound("GROUP"@, s, a);
            match spec_by_list("GROUP"@, s, a) {
                Err(_) => {},
                Ok((_, b)) => {
                    lemma_preceded_expr_sound("HAVING"@, s, b);
                    match spec_preceded("HAVING"@, expr_rule(), s, b) {
                        Err(_) => {},
                        Ok((_, c)) => match spec_keyword(s, c, "WINDOW"@) {
                            None => {},
                            Some(d) => {
                                lemma_window_list_sound(s, d);
                            },
                        },
                    }
                },
            }
        },
    }
}

/// A table reference that is valid at one depth is valid at every greater
/// depth.
pub proof fn lemma_table_ref_deeper(table: TableRefModel, depth: nat, more: nat)
    requires
        valid_table_ref(table, depth),
        depth <= more,
    ensures
        valid_table_ref(table, more),
    decreases table,
{
    match table {
        TableRefModel::BaseTable { .. } => {},
        TableRefModel::Subquery { subquery, alias } => {
            lemma_query_deeper(subquery.body, (depth - 1) as nat, (more - 1) as nat);
        },
    }
}

/// A query that is valid at one depth is valid at every greater depth.
pub proof fn lemma_query_deeper(query: SetExprModel, depth: nat, more: nat)
    requires
        valid_query(query, depth),
        depth <= more,
    ensures
        valid_query(query, more),
    decreases query,
{
    match query {
        SetExprModel::Select { from: Some(table), .. } => {
            lemma_table_ref_deeper(table, depth, more);
        },
        _ => {},
    }
}

/// A table reference that was read is one of the grammar, and nests no
/// more queries than were allowed.
pub proof fn lemma_table_ref_sound(s: Seq<char>, i: int, depth: nat)
    ensures
        spec_table_ref(s, i, depth) matches Ok((table, _)) ==> valid_table_ref(table, depth),
    decreases depth, 1nat,
{
    match spec_subquery(s, i, depth) {
        Ok(_) => {
            let j = spec_symbol(s, i, '(')->Some_0;
            lemma_select_sound(s, j, (depth - 1) as nat);
            match spec_select(s, j, (depth - 1) as nat) {
                Err(_) => {},
                Ok((_, k)) => match spec_symbol(s, k, ')') {
                    None => {},
                    Some(m) => {
                        lemma_alias_sound(s, m);
                    },
                },
            }
        },
        Err(_) => {
            lemma_base_table_sound(s, i);
            match spec_base_table(s, i) {
                Err(_) => {},
                Ok((table, _)) => {
                    lemma_table_ref_deeper(table, 0, depth);
                },
            }
        },
    }
}

/// Every query that the parser builds is a query of the grammar, with no
/// more nested queries than the parser was allowed.
pub proof fn lemma_select_sound(s: Seq<char>, i: int, depth: nat)
    ensures
        spec_select(s, i, depth) matches Ok((query, _)) ==> valid_query(query, depth),
    decreases depth, 3nat,
{
    lemma_projection_sound(s, i);
    match spec_projection(s, i) {
        Err(_) => {},
        Ok((_, a)) => {
            match spec_keyword(s, a, "FROM"@) {
                None => {},
                Some(j) => {
                    lemma_table_ref_sound(s, j, depth);
                },
            }
            match spec_from(s, a, depth) {
                Err(_) => {},
                Ok((_, b)) => {
                    lemma_clauses_sound(s, b);
                },
            }
        },
    }
}

} // verus!
