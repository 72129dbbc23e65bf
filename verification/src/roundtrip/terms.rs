//! How projection terms and table names are read back.
use vstd::prelude::*;
use crate::ast::set_expr::{render_items, SelectItemModel, WildcardOptionsModel};
use crate::ast::table_ref::{render_alias, TableNameModel, TableRefModel};
use crate::parser::combinator::spec_separated_list;
use crate::parser::grammar::{
    ident_list_rule, identifier_rule, select_item_rule, spec_alias, spec_aliased_expr,
    spec_base_table, spec_except, spec_exclude, spec_expr_item, spec_ident_list,
    spec_select_item, spec_table_name, spec_unnamed_expr, spec_wildcard, spec_wildcard_item,
};
use crate::parser::input::{is_space, skip_trivia};
use crate::parser::token::{spec_identifier, spec_keyword, spec_symbol};
use crate::roundtrip::lists::{lemma_list, reads_back, starts_token, stops_at_commas};
use crate::roundtrip::rules::lemma_ident_list;
use crate::roundtrip::tokens::{
    carries, lemma_carries_char, lemma_carries_split, lemma_keyword_literal, lemma_skip_here,
    lemma_skip_space, lemma_symbol_token, lemma_word_token, symbol_at, word_stop,
};
use crate::roundtrip::valid::{
    valid_idents, valid_item, valid_items, valid_optional_ident, valid_table_name,
    valid_wildcard,
};
use crate::roundtrip::words::{
    item_stop, lemma_expr, lemma_ident, lemma_keywords, lemma_literals, term_stop,
};
use crate::text::{join, join_rest};

verus! {

/// The `EXCLUDE` clause of a wildcard is read back.
pub proof fn lemma_exclude(s: Seq<char>, q: int, o: WildcardOptionsModel)
    requires
        valid_idents(o.exclude),
        carries(s, q, o.render_exclude()),
        word_stop(s, q + o.render_exclude().len()),
        o.exclude.len() == 0 ==> spec_keyword(s, q, "EXCLUDE"@) is None,
    ensures
        spec_exclude(s, q) == Ok::<(Seq<Seq<char>>, int), Seq<char>>(
            (o.exclude, q + o.render_exclude().len()),
        ),
{
    lemma_keywords();
    lemma_literals();
    let v = o.exclude;
    let e = q + o.render_exclude().len();
    if v.len() == 0 {
        assert(v =~= Seq::<Seq<char>>::empty());
    } else if v.len() == 1 {
        lemma_carries_split(s, q, " EXCLUDE "@, v[0]);
        lemma_keyword_literal(s, q, q, " EXCLUDE "@, 0, 1, "EXCLUDE"@);
        lemma_carries_char(s, q, " EXCLUDE "@, 8);
        lemma_skip_space(s, q + 8);
        lemma_ident(s, q + 8, q + 9, v[0]);
        lemma_word_token(s, q + 8, v[0], e);
        assert(seq![v[0]] =~= v);
    } else {
        let list = join(v, ", "@);
        lemma_carries_split(s, q, " EXCLUDE ("@ + list, ")"@);
        lemma_carries_split(s, q, " EXCLUDE ("@, list);
        lemma_keyword_literal(s, q, q, " EXCLUDE ("@, 0, 1, "EXCLUDE"@);
        lemma_carries_char(s, q, " EXCLUDE ("@, 8);
        lemma_carries_char(s, q, " EXCLUDE ("@, 9);
        lemma_skip_space(s, q + 8);
        lemma_skip_here(s, q + 9);
        let k = q + 10 + list.len();
        lemma_carries_char(s, k, ")"@, 0);
        lemma_skip_here(s, k);
        assert(symbol_at(s, k, k));
        lemma_symbol_token(s, k, k);
        lemma_ident_list(s, q + 10, q + 10, v);
        assert(spec_symbol(s, q + 8, '(') == Some(q + 10));
        assert(ident_list_rule()(s, q + 10) == spec_ident_list(s, q + 10));
    }
}

/// The `EXCEPT` clause of a wildcard is read back.
pub proof fn lemma_except(s: Seq<char>, q: int, o: WildcardOptionsModel)
    requires
        valid_idents(o.except),
        carries(s, q, o.render_except()),
        o.except.len() == 0 ==> spec_keyword(s, q, "EXCEPT"@) is None,
    ensures
        spec_except(s, q) == Ok::<(Seq<Seq<char>>, int), Seq<char>>(
            (o.except, q + o.render_except().len()),
        ),
{
    lemma_keywords();
    lemma_literals();
    let v = o.except;
    if v.len() == 0 {
        assert(v =~= Seq::<Seq<char>>::empty());
    } else {
        let list = join(v, ", "@);
        lemma_carries_split(s, q, " EXCEPT ("@ + list, ")"@);
        lemma_carries_split(s, q, " EXCEPT ("@, list);
        lemma_keyword_literal(s, q, q, " EXCEPT ("@, 0, 1, "EXCEPT"@);
        lemma_carries_char(s, q, " EXCEPT ("@, 7);
        lemma_carries_char(s, q, " EXCEPT ("@, 8);
        lemma_skip_space(s, q + 7);
        lemma_skip_here(s, q + 8);
        let k = q + 9 + list.len();
        lemma_carries_char(s, k, ")"@, 0);
        lemma_skip_here(s, k);
        assert(symbol_at(s, k, k));
        lemma_symbol_token(s, k, k);
        lemma_ident_list(s, q + 9, q + 9, v);
        assert(spec_symbol(s, q + 7, '(') == Some(q + 9));
        assert(ident_list_rule()(s, q + 9) == spec_ident_list(s, q + 9));
    }
}

/// A wildcard with its options is read back.
pub proof fn lemma_wildcard(s: Seq<char>, i0: int, i: int, o: WildcardOptionsModel)
    requires
        valid_wildcard(o),
        skip_trivia(s, i0) == skip_trivia(s, i),
        carries(s, i, o.render()),
        term_stop(s, i + o.render().len()),
    ensures
        spec_wildcard(s, i0) == Ok::<(WildcardOptionsModel, int), Seq<char>>(
            (o, i + o.render().len()),
        ),
        symbol_at(s, i0, i),
{
    lemma_keywords();
    lemma_literals();
    let ex = o.render_exclude();
    let exc = o.render_except();
    let e = i + o.render().len();
    lemma_carries_split(s, i, "*"@ + ex, exc);
    lemma_carries_split(s, i, "*"@, ex);
    lemma_carries_char(s, i, "*"@, 0);
    lemma_skip_here(s, i);
    let j = i + 1;
    let e1 = j + ex.len();
    if o.except.len() > 0 {
        lemma_carries_split(s, e1, " EXCEPT ("@ + join(o.except, ", "@), ")"@);
        lemma_carries_split(s, e1, " EXCEPT ("@, join(o.except, ", "@));
        lemma_keyword_literal(s, e1, e1, " EXCEPT ("@, 0, 1, "EXCEPT"@);
        lemma_carries_char(s, e1, " EXCEPT ("@, 0);
        lemma_word_token(s, e1, " EXCEPT ("@.subrange(1, 7), e1 + 7);
    } else {
        assert(e1 == e);
    }
    lemma_exclude(s, j, o);
    lemma_except(s, e1, o);
}

/// A projection term is read back.
pub proof fn lemma_select_item(s: Seq<char>, i0: int, i: int, x: SelectItemModel)
    requires
        valid_item(x),
        skip_trivia(s, i0) == skip_trivia(s, i),
        carries(s, i, x.render()),
        term_stop(s, i + x.render().len()),
    ensures
        spec_select_item(s, i0) == Ok::<(SelectItemModel, int), Seq<char>>(
            (x, i + x.render().len()),
        ),
        spec_keyword(s, i0, "DISTINCT"@) is None,
        skip_trivia(s, i) == i,
{
    lemma_keywords();
    lemma_literals();
    let e = i + x.render().len();
    match x {
        SelectItemModel::Wildcard(o) => {
            lemma_wildcard(s, i0, i, o);
            lemma_symbol_token(s, i0, i);
        },
        SelectItemModel::UnnamedExpr(expr) => {
            lemma_expr(s, i0, i, expr);
            lemma_word_token(s, i0, expr.render(), e);
            assert(spec_wildcard_item(s, i0) is Err);
            assert(spec_aliased_expr(s, i0) is Err);
            assert(spec_expr_item(s, i0) == spec_unnamed_expr(s, i0));
        },
        SelectItemModel::ExprWithAlias { expr, alias } => {
            lemma_carries_split(s, i, expr.render() + " AS "@, alias);
            lemma_carries_split(s, i, expr.render(), " AS "@);
            let e1 = i + expr.render().len();
            lemma_carries_char(s, e1, " AS "@, 0);
            lemma_carries_char(s, e1, " AS "@, 3);
            lemma_expr(s, i0, i, expr);
            lemma_word_token(s, i0, expr.render(), e1);
            lemma_keyword_literal(s, e1, e1, " AS "@, 0, 1, "AS"@);
            lemma_skip_space(s, e1 + 3);
            lemma_ident(s, e1 + 3, e1 + 4, alias);
            assert(spec_wildcard_item(s, i0) is Err);
            assert(spec_expr_item(s, i0) == spec_aliased_expr(s, i0));
        },
    }
}

/// The first character of a projection term starts a token.
pub proof fn lemma_item_first(x: SelectItemModel)
    requires
        valid_item(x),
    ensures
        x.render().len() > 0,
        !is_space(x.render()[0]),
        x.render()[0] != '-',
        x.render()[0] != '/',
{
    lemma_literals();
    match x {
        SelectItemModel::Wildcard(o) => {
            assert(o.render()[0] == '*');
        },
        SelectItemModel::UnnamedExpr(expr) => {},
        SelectItemModel::ExprWithAlias { expr, alias } => {
            assert(x.render()[0] == expr.render()[0]);
        },
    }
}

/// A projection list is read back.
pub proof fn lemma_items(s: Seq<char>, i0: int, i: int, v: Seq<SelectItemModel>)
    requires
        v.len() > 0,
        valid_items(v),
        skip_trivia(s, i0) == skip_trivia(s, i),
        carries(s, i, render_items(v)),
        term_stop(s, i + render_items(v).len()),
        spec_symbol(s, i + render_items(v).len(), ',') is None,
    ensures
        spec_separated_list(select_item_rule(), ',', s, i0) == Ok::<
            (Seq<SelectItemModel>, int),
            Seq<char>,
        >((v, i + render_items(v).len())),
        spec_keyword(s, i0, "DISTINCT"@) is None,
{
    let p = select_item_rule();
    let render = |m: SelectItemModel| m.render();
    let valid = |m: SelectItemModel| valid_item(m);
    let stop = |s: Seq<char>, e: int| term_stop(s, e);
    assert(reads_back(p, render, valid, stop, s)) by {
        assert forall|j0: int, j: int, x: SelectItemModel|
            #![trigger p(s, j0), carries(s, j, render(x))]
            valid(x) && skip_trivia(s, j0) == j && carries(s, j, render(x)) && stop(
                s,
                j + render(x).len(),
            ) implies p(s, j0) == Ok::<(SelectItemModel, int), Seq<char>>(
            (x, j + render(x).len()),
        ) by {
            lemma_item_first(x);
            lemma_carries_char(s, j, x.render(), 0);
            lemma_skip_here(s, j);
            lemma_select_item(s, j0, j, x);
        }
    }
    assert(starts_token(render, valid)) by {
        assert forall|x: SelectItemModel| #[trigger] valid(x) implies render(x).len() > 0
            && !is_space(render(x)[0]) && render(x)[0] != '-' && render(x)[0] != '/' by {
            lemma_item_first(x);
        }
    }
    assert(stops_at_commas(stop, s)) by {
        assert forall|q: int| 0 <= q < s.len() && s[q] == ',' implies #[trigger] stop(s, q) by {
            lemma_skip_here(s, q);
            assert(symbol_at(s, q, q));
            lemma_symbol_token(s, q, q);
        }
    }
    let parts = v.map_values(render);
    assert(parts =~= v.map_values(|m: SelectItemModel| m.render()));
    lemma_list(p, render, valid, stop, s, i0, i, v);
    // the first term, for what stands in front of the list
    lemma_literals();
    let tail = join_rest(parts.skip(1), ", "@);
    lemma_carries_split(s, i, parts[0], tail);
    let k = i + parts[0].len();
    if v.len() > 1 {
        assert(tail == ", "@ + parts.skip(1)[0] + join_rest(parts.skip(1).skip(1), ", "@));
        lemma_carries_split(
            s,
            k,
            ", "@ + parts.skip(1)[0],
            join_rest(parts.skip(1).skip(1), ", "@),
        );
        lemma_carries_split(s, k, ", "@, parts.skip(1)[0]);
        lemma_carries_char(s, k, ", "@, 0);
        assert(stop(s, k));
    } else {
        assert(parts.skip(1).len() == 0);
        assert(tail.len() == 0);
    }
    lemma_select_item(s, i0, i, v[0]);
}

/// The optional alias of a table reference is read back.
pub proof fn lemma_alias(s: Seq<char>, q: int, alias: Option<Seq<char>>)
    requires
        valid_optional_ident(alias),
        carries(s, q, render_alias(alias)),
        item_stop(s, q + render_alias(alias).len()),
    ensures
        spec_alias(s, q) == Ok::<(Option<Seq<char>>, int), Seq<char>>(
            (alias, q + render_alias(alias).len()),
        ),
        word_stop(s, q),
        spec_symbol(s, q, '.') is None,
{
    lemma_keywords();
    lemma_literals();
    match alias {
        Some(name) => {
            lemma_carries_split(s, q, " AS "@, name);
            lemma_carries_char(s, q, " AS "@, 0);
            lemma_carries_char(s, q, " AS "@, 3);
            lemma_keyword_literal(s, q, q, " AS "@, 0, 1, "AS"@);
            lemma_word_token(s, q, " AS "@.subrange(1, 3), q + 3);
            lemma_skip_space(s, q + 3);
            lemma_ident(s, q + 3, q + 4, name);
            assert(identifier_rule()(s, q + 3) == spec_identifier(s, q + 3));
        },
        None => {
            assert(identifier_rule()(s, q) == spec_identifier(s, q));
        },
    }
}

/// A table name is read back.
pub proof fn lemma_table_name(s: Seq<char>, i0: int, i: int, name: TableNameModel)
    requires
        valid_table_name(name),
        skip_trivia(s, i0) == skip_trivia(s, i),
        carries(s, i, name.render()),
        word_stop(s, i + name.render().len()),
        spec_symbol(s, i + name.render().len(), '.') is None,
    ensures
        spec_table_name(s, i0) == Ok::<(TableNameModel, int), Seq<char>>(
            (name, i + name.render().len()),
        ),
        spec_symbol(s, i0, '(') is None,
{
    lemma_literals();
    match name.database {
        Some(database) => {
            lemma_carries_split(s, i, database + "."@, name.table);
            lemma_carries_split(s, i, database, "."@);
            let e1 = i + database.len();
            lemma_carries_char(s, e1, "."@, 0);
            lemma_ident(s, i0, i, database);
            lemma_word_token(s, i0, database, e1);
            lemma_skip_here(s, e1);
            lemma_ident(s, e1 + 1, e1 + 1, name.table);
        },
        None => {
            lemma_ident(s, i0, i, name.table);
            lemma_word_token(s, i0, name.table, i + name.table.len());
        },
    }
}

/// A named table with its optional alias is read back.
pub proof fn lemma_base_table(
    s: Seq<char>,
    i0: int,
    i: int,
    name: TableNameModel,
    alias: Option<Seq<char>>,
)
    requires
        valid_table_name(name),
        valid_optional_ident(alias),
        skip_trivia(s, i0) == skip_trivia(s, i),
        carries(s, i, name.render() + render_alias(alias)),
        item_stop(s, i + name.render().len() + render_alias(alias).len()),
    ensures
        spec_base_table(s, i0) == Ok::<(TableRefModel, int), Seq<char>>(
            (
                TableRefModel::BaseTable { name, alias },
                i + name.render().len() + render_alias(alias).len(),
            ),
        ),
        spec_symbol(s, i0, '(') is None,
{
    lemma_carries_split(s, i, name.render(), render_alias(alias));
    let e1 = i + name.render().len();
    lemma_alias(s, e1, alias);
    lemma_table_name(s, i0, i, name);
}

} // verus!
