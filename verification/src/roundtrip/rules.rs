//! How the parts of a query are read back from their canonical text.
use vstd::prelude::*;
use crate::ast::expr::{render_exprs, ExprModel, WindowSpecModel};
use crate::ast::set_expr::{render_windows, NamedWindowDefModel};
use crate::parser::expr::{expr_rule, spec_by_list, spec_expr_list, spec_window_spec};
use crate::parser::grammar::{
    identifier_rule, named_window_rule, spec_ident_list, spec_named_window, spec_window_list,
    window_spec_rule,
};
use crate::parser::input::skip_trivia;
use crate::parser::token::{is_word_char, spec_keyword, spec_symbol};
use crate::roundtrip::lists::{lemma_list, reads_back, starts_token};
use crate::roundtrip::tokens::{
    carries, lemma_carries_char, lemma_carries_split, lemma_keyword_literal, lemma_skip_here,
    lemma_skip_space, lemma_symbol_token, lemma_word_token, spells, symbol_at, word_stop,
};
use crate::roundtrip::valid::{
    valid_expr, valid_exprs, valid_ident, valid_idents, valid_named_window, valid_named_windows,
    valid_window_spec,
};
use crate::roundtrip::words::{
    lemma_expr, lemma_ident, lemma_keywords, lemma_literals, lemma_word_starts_token,
};
use crate::text::join;

verus! {

/// A list of identifiers is read back.
pub proof fn lemma_ident_list(s: Seq<char>, i0: int, i: int, v: Seq<Seq<char>>)
    requires
        v.len() > 0,
        valid_idents(v),
        skip_trivia(s, i0) == skip_trivia(s, i),
        carries(s, i, join(v, ", "@)),
        word_stop(s, i + join(v, ", "@).len()),
        spec_symbol(s, i + join(v, ", "@).len(), ',') is None,
    ensures
        spec_ident_list(s, i0) == Ok::<(Seq<Seq<char>>, int), Seq<char>>(
            (v, i + join(v, ", "@).len()),
        ),
{
    let p = identifier_rule();
    let render = |w: Seq<char>| w;
    let valid = |w: Seq<char>| valid_ident(w);
    let stop = |s: Seq<char>, e: int| word_stop(s, e);
    assert(reads_back(p, render, valid, stop, s)) by {
        assert forall|j0: int, j: int, x: Seq<char>|
            #![trigger p(s, j0), carries(s, j, render(x))]
            valid(x) && skip_trivia(s, j0) == j && carries(s, j, render(x)) && stop(
                s,
                j + render(x).len(),
            ) implies p(s, j0) == Ok::<(Seq<char>, int), Seq<char>>((x, j + render(x).len())) by {
            lemma_word_starts_token(s, j, x);
            lemma_ident(s, j0, j, x);
        }
    }
    assert(v.map_values(render) =~= v);
    lemma_list(p, render, valid, stop, s, i0, i, v);
}

/// A list of expressions is read back.
pub proof fn lemma_expr_list(s: Seq<char>, i0: int, i: int, v: Seq<ExprModel>)
    requires
        v.len() > 0,
        valid_exprs(v),
        skip_trivia(s, i0) == skip_trivia(s, i),
        carries(s, i, render_exprs(v)),
        word_stop(s, i + render_exprs(v).len()),
        spec_symbol(s, i + render_exprs(v).len(), ',') is None,
    ensures
        spec_expr_list(s, i0) == Ok::<(Seq<ExprModel>, int), Seq<char>>(
            (v, i + render_exprs(v).len()),
        ),
        skip_trivia(s, i) == i,
{
    let p = expr_rule();
    let render = |m: ExprModel| m.render();
    let valid = |m: ExprModel| valid_expr(m);
    let stop = |s: Seq<char>, e: int| word_stop(s, e);
    assert(reads_back(p, render, valid, stop, s)) by {
        assert forall|j0: int, j: int, x: ExprModel|
            #![trigger p(s, j0), carries(s, j, render(x))]
            valid(x) && skip_trivia(s, j0) == j && carries(s, j, render(x)) && stop(
                s,
                j + render(x).len(),
            ) implies p(s, j0) == Ok::<(ExprModel, int), Seq<char>>((x, j + render(x).len())) by {
            lemma_word_starts_token(s, j, x.render());
            lemma_expr(s, j0, j, x);
        }
    }
    assert(v.map_values(render) =~= v.map_values(|m: ExprModel| m.render()));
    lemma_list(p, render, valid, stop, s, i0, i, v);
}

/// A list clause (`GROUP BY`, `PARTITION BY`, `ORDER BY`) with a list that
/// is not empty is read back.
pub proof fn lemma_by_list(
    s: Seq<char>,
    i0: int,
    i: int,
    lit: Seq<char>,
    lead: int,
    kw: Seq<char>,
    v: Seq<ExprModel>,
)
    requires
        v.len() > 0,
        valid_exprs(v),
        spells(lit, 0, lead, kw),
        spells(lit, lead + kw.len(), 1, "BY"@),
        lit.len() == lead + kw.len() + 4,
        lit[lit.len() - 1] == ' ',
        skip_trivia(s, i0) == skip_trivia(s, i),
        carries(s, i, lit + render_exprs(v)),
        word_stop(s, i + lit.len() + render_exprs(v).len()),
        spec_symbol(s, i + lit.len() + render_exprs(v).len(), ',') is None,
    ensures
        spec_by_list(kw, s, i0) == Ok::<(Seq<ExprModel>, int), Seq<char>>(
            (v, i + lit.len() + render_exprs(v).len()),
        ),
        spec_keyword(s, i0, kw) is Some,
{
    lemma_keywords();
    lemma_carries_split(s, i, lit, render_exprs(v));
    lemma_keyword_literal(s, i0, i, lit, 0, lead, kw);
    let j = i + lead + kw.len();
    lemma_keyword_literal(s, j, i, lit, lead + kw.len(), 1, "BY"@);
    let k = j + 3;
    lemma_carries_char(s, i, lit, lit.len() - 1);
    lemma_skip_space(s, k);
    lemma_expr_list(s, k, k + 1, v);
}

/// A window body in front of a closing parenthesis is read back.
pub proof fn lemma_window_spec(s: Seq<char>, q: int, w: WindowSpecModel)
    requires
        valid_window_spec(w),
        carries(s, q, w.render()),
        q + w.render().len() < s.len(),
        s[q + w.render().len()] == ')',
    ensures
        spec_window_spec(s, q) == Ok::<(WindowSpecModel, int), Seq<char>>(
            (w, q + w.render().len()),
        ),
{
    lemma_keywords();
    lemma_literals();
    let e = q + w.render().len();
    let p = w.partition_by;
    let o = w.order_by;
    let pt = "PARTITION BY "@ + render_exprs(p);
    let ot = "ORDER BY "@ + render_exprs(o);
    lemma_skip_here(s, e);
    assert(symbol_at(s, e, e));
    lemma_symbol_token(s, e, e);
    if p.len() > 0 && o.len() > 0 {
        lemma_carries_split(s, q, pt + " "@, ot);
        lemma_carries_split(s, q, pt, " "@);
        let e1 = q + pt.len();
        lemma_carries_char(s, e1, " "@, 0);
        lemma_skip_space(s, e1);
        lemma_carries_split(s, e1 + 1, "ORDER BY "@, render_exprs(o));
        lemma_keyword_literal(s, e1, e1 + 1, "ORDER BY "@, 0, 0, "ORDER"@);
        let word = "ORDER BY "@.subrange(0, 5);
        lemma_word_token(s, e1, word, e1 + 6);
        lemma_by_list(s, q, q, "PARTITION BY "@, 0, "PARTITION"@, p);
        lemma_by_list(s, e1, e1 + 1, "ORDER BY "@, 0, "ORDER"@, o);
    } else if p.len() > 0 {
        assert(w.render() =~= pt);
        lemma_by_list(s, q, q, "PARTITION BY "@, 0, "PARTITION"@, p);
        assert(o =~= Seq::<ExprModel>::empty());
    } else if o.len() > 0 {
        assert(w.render() =~= ot);
        lemma_carries_split(s, q, "ORDER BY "@, render_exprs(o));
        lemma_keyword_literal(s, q, q, "ORDER BY "@, 0, 0, "ORDER"@);
        let word = "ORDER BY "@.subrange(0, 5);
        lemma_word_token(s, q, word, q + 5);
        lemma_by_list(s, q, q, "ORDER BY "@, 0, "ORDER"@, o);
        assert(p =~= Seq::<ExprModel>::empty());
    } else {
        assert(w.render() =~= Seq::<char>::empty());
        assert(p =~= Seq::<ExprModel>::empty());
        assert(o =~= Seq::<ExprModel>::empty());
    }
}

/// A window definition is read back.
pub proof fn lemma_named_window(s: Seq<char>, i0: int, i: int, w: NamedWindowDefModel)
    requires
        valid_named_window(w),
        skip_trivia(s, i0) == skip_trivia(s, i),
        carries(s, i, w.render()),
    ensures
        spec_named_window(s, i0) == Ok::<(NamedWindowDefModel, int), Seq<char>>(
            (w, i + w.render().len()),
        ),
{
    lemma_keywords();
    lemma_literals();
    let body = w.spec.render();
    lemma_carries_split(s, i, w.name + " AS ("@ + body, ")"@);
    lemma_carries_split(s, i, w.name + " AS ("@, body);
    lemma_carries_split(s, i, w.name, " AS ("@);
    let e1 = i + w.name.len();
    lemma_carries_char(s, e1, " AS ("@, 0);
    lemma_carries_char(s, e1, " AS ("@, 3);
    lemma_carries_char(s, e1, " AS ("@, 4);
    lemma_ident(s, i0, i, w.name);
    lemma_keyword_literal(s, e1, e1, " AS ("@, 0, 1, "AS"@);
    lemma_skip_space(s, e1 + 3);
    lemma_skip_here(s, e1 + 4);
    let inner = e1 + 5;
    let close = inner + body.len();
    lemma_carries_char(s, close, ")"@, 0);
    lemma_window_spec(s, inner, w.spec);
    lemma_skip_here(s, close);
    assert(spec_symbol(s, e1 + 3, '(') == Some(inner));
    assert(spec_symbol(s, close, ')') == Some(close + 1));
    assert(window_spec_rule()(s, inner) == spec_window_spec(s, inner));
}

/// A list of window definitions is read back.
pub proof fn lemma_window_list(s: Seq<char>, i0: int, i: int, v: Seq<NamedWindowDefModel>)
    requires
        v.len() > 0,
        valid_named_windows(v),
        skip_trivia(s, i0) == skip_trivia(s, i),
        carries(s, i, render_windows(v)),
        spec_symbol(s, i + render_windows(v).len(), ',') is None,
    ensures
        spec_window_list(s, i0) == Ok::<(Seq<NamedWindowDefModel>, int), Seq<char>>(
            (v, i + render_windows(v).len()),
        ),
{
    let p = named_window_rule();
    let render = |m: NamedWindowDefModel| m.render();
    let valid = |m: NamedWindowDefModel| valid_named_window(m);
    let stop = |s: Seq<char>, e: int| true;
    assert(reads_back(p, render, valid, stop, s)) by {
        assert forall|j0: int, j: int, x: NamedWindowDefModel|
            #![trigger p(s, j0), carries(s, j, render(x))]
            valid(x) && skip_trivia(s, j0) == j && carries(s, j, render(x)) && stop(
                s,
                j + render(x).len(),
            ) implies p(s, j0) == Ok::<(NamedWindowDefModel, int), Seq<char>>(
            (x, j + render(x).len()),
        ) by {
            lemma_window_first(s, j, x);
            lemma_named_window(s, j0, j, x);
        }
    }
    assert(starts_token(render, valid)) by {
        assert forall|x: NamedWindowDefModel| #[trigger] valid(x) implies render(x).len() > 0
            && !crate::parser::input::is_space(render(x)[0]) && render(x)[0] != '-' && render(x)[0] != '/' by {
            assert(render(x)[0] == x.name[0]);
        }
    }
    assert(v.map_values(render) =~= v.map_values(|m: NamedWindowDefModel| m.render()));
    lemma_list(p, render, valid, stop, s, i0, i, v);
}

/// Where a window definition stands at `j`, a token starts at `j`.
pub proof fn lemma_window_first(s: Seq<char>, j: int, w: NamedWindowDefModel)
    requires
        valid_named_window(w),
        carries(s, j, w.render()),
    ensures
        skip_trivia(s, j) == j,
{
    lemma_carries_char(s, j, w.render(), 0);
    assert(w.render()[0] == w.name[0]);
    lemma_skip_here(s, j);
}

} // verus!
