//! The keywords of the canonical text, and how names and expressions are
//! read back.
use vstd::prelude::*;
use crate::ast::expr::ExprModel;
use crate::parser::expr::spec_expr;
use crate::parser::input::skip_trivia;
use crate::parser::token::{
    is_digit, is_reserved, is_word_char, spec_identifier,
    spec_keyword, spec_symbol, upper, upper_seq, };
use crate::roundtrip::tokens::{
    carries, lemma_carries_char, lemma_keyword_literal, lemma_skip_here, lemma_word_at,
    lemma_word_token, spelled, spells, word_at, word_stop,
};
use crate::roundtrip::valid::{all_word_chars, valid_expr, valid_ident};

verus! {

/// The length and the first letter of every keyword.
pub proof fn lemma_keywords()
    ensures
        "SELECT"@.len() == 6 && "SELECT"@[0] == 'S',
        "DISTINCT"@.len() == 8 && "DISTINCT"@[0] == 'D',
        "FROM"@.len() == 4 && "FROM"@[0] == 'F',
        "WHERE"@.len() == 5 && "WHERE"@[0] == 'W',
        "GROUP"@.len() == 5 && "GROUP"@[0] == 'G',
        "BY"@.len() == 2 && "BY"@[0] == 'B',
        "HAVING"@.len() == 6 && "HAVING"@[0] == 'H',
        "WINDOW"@.len() == 6 && "WINDOW"@[0] == 'W',
        "AS"@.len() == 2 && "AS"@[0] == 'A',
        "EXCLUDE"@.len() == 7 && "EXCLUDE"@[0] == 'E',
        "EXCEPT"@.len() == 6 && "EXCEPT"@[0] == 'E',
        "PARTITION"@.len() == 9 && "PARTITION"@[0] == 'P',
        "ORDER"@.len() == 5 && "ORDER"@[0] == 'O',
{
    reveal_strlit("SELECT");
    reveal_strlit("DISTINCT");
    reveal_strlit("FROM");
    reveal_strlit("WHERE");
    reveal_strlit("GROUP");
    reveal_strlit("BY");
    reveal_strlit("HAVING");
    reveal_strlit("WINDOW");
    reveal_strlit("AS");
    reveal_strlit("EXCLUDE");
    reveal_strlit("EXCEPT");
    reveal_strlit("PARTITION");
    reveal_strlit("ORDER");
}

/// The literals of the canonical text spell their keywords.
pub proof fn lemma_literals()
    ensures
        "SELECT "@.len() == 7 && spells("SELECT "@, 0, 0, "SELECT"@),
        "DISTINCT "@.len() == 9 && spells("DISTINCT "@, 0, 0, "DISTINCT"@),
        " FROM "@.len() == 6 && spells(" FROM "@, 0, 1, "FROM"@),
        " WHERE "@.len() == 7 && spells(" WHERE "@, 0, 1, "WHERE"@),
        " GROUP BY "@.len() == 10 && spells(" GROUP BY "@, 0, 1, "GROUP"@) && spells(
            " GROUP BY "@,
            6,
            1,
            "BY"@,
        ),
        " HAVING "@.len() == 8 && spells(" HAVING "@, 0, 1, "HAVING"@),
        " WINDOW "@.len() == 8 && spells(" WINDOW "@, 0, 1, "WINDOW"@),
        " AS "@.len() == 4 && spells(" AS "@, 0, 1, "AS"@),
        " AS ("@.len() == 5 && spells(" AS ("@, 0, 1, "AS"@) && " AS ("@[3] == ' ' && " AS ("@[4]
            == '(',
        " EXCLUDE "@.len() == 9 && spells(" EXCLUDE "@, 0, 1, "EXCLUDE"@),
        " EXCLUDE ("@.len() == 10 && spells(" EXCLUDE ("@, 0, 1, "EXCLUDE"@) && " EXCLUDE ("@[8]
            == ' ' && " EXCLUDE ("@[9] == '(',
        " EXCEPT ("@.len() == 9 && spells(" EXCEPT ("@, 0, 1, "EXCEPT"@) && " EXCEPT ("@[7] == ' '
            && " EXCEPT ("@[8] == '(',
        "PARTITION BY "@.len() == 13 && spells("PARTITION BY "@, 0, 0, "PARTITION"@) && spells(
            "PARTITION BY "@,
            9,
            1,
            "BY"@,
        ),
        "ORDER BY "@.len() == 9 && spells("ORDER BY "@, 0, 0, "ORDER"@) && spells(
            "ORDER BY "@,
            5,
            1,
            "BY"@,
        ),
        "SELECT "@[6] == ' ' && "DISTINCT "@[8] == ' ' && " FROM "@[5] == ' ' && " WHERE "@[6]
            == ' ' && " GROUP BY "@[9] == ' ' && " HAVING "@[7] == ' ' && " WINDOW "@[7] == ' '
            && " AS "@[3] == ' ' && " EXCLUDE "@[8] == ' ' && "PARTITION BY "@[12] == ' '
            && "ORDER BY "@[8] == ' ',
        ", "@.len() == 2 && ", "@[0] == ',' && ", "@[1] == ' ',
        " "@.len() == 1 && " "@[0] == ' ',
        "."@.len() == 1 && "."@[0] == '.',
        "("@.len() == 1 && "("@[0] == '(',
        ")"@.len() == 1 && ")"@[0] == ')',
        "*"@.len() == 1 && "*"@[0] == '*',
{
    reveal_with_fuel(spelled, 10);
    lemma_keywords();
    reveal_strlit("SELECT");
    reveal_strlit("DISTINCT");
    reveal_strlit("FROM");
    reveal_strlit("WHERE");
    reveal_strlit("GROUP");
    reveal_strlit("BY");
    reveal_strlit("HAVING");
    reveal_strlit("WINDOW");
    reveal_strlit("AS");
    reveal_strlit("EXCLUDE");
    reveal_strlit("EXCEPT");
    reveal_strlit("PARTITION");
    reveal_strlit("ORDER");
    reveal_strlit("SELECT ");
    reveal_strlit("DISTINCT ");
    reveal_strlit(" FROM ");
    reveal_strlit(" WHERE ");
    reveal_strlit(" GROUP BY ");
    reveal_strlit(" HAVING ");
    reveal_strlit(" WINDOW ");
    reveal_strlit(" AS ");
    reveal_strlit(" AS (");
    reveal_strlit(" EXCLUDE ");
    reveal_strlit(" EXCLUDE (");
    reveal_strlit(" EXCEPT (");
    reveal_strlit("PARTITION BY ");
    reveal_strlit("ORDER BY ");
    reveal_strlit(", ");
    reveal_strlit(" ");
    reveal_strlit(".");
    reveal_strlit("(");
    reveal_strlit(")");
    reveal_strlit("*");
}

/// What may stand behind a projection term: no word character, and none
/// of the keywords that would continue the term.
pub open spec fn term_stop(s: Seq<char>, e: int) -> bool {
    &&& word_stop(s, e)
    &&& spec_keyword(s, e, "AS"@) is None
    &&& spec_keyword(s, e, "EXCLUDE"@) is None
    &&& spec_keyword(s, e, "EXCEPT"@) is None
}

/// What may stand behind a list or a table reference: in addition no
/// comma, no dot and no identifier.
pub open spec fn item_stop(s: Seq<char>, e: int) -> bool {
    &&& term_stop(s, e)
    &&& spec_symbol(s, e, ',') is None
    &&& spec_symbol(s, e, '.') is None
    &&& spec_identifier(s, e) is Err
}

/// Whether at `e` no clause can start that stands before the clause of
/// the given rank: `FROM` has rank 1, `WHERE` 2, `GROUP BY` 3, `HAVING` 4
/// and `WINDOW` 5. With rank 6 no clause can start at all.
pub open spec fn closed_below(s: Seq<char>, e: int, rank: int) -> bool {
    &&& item_stop(s, e)
    &&& (rank > 1 ==> spec_keyword(s, e, "FROM"@) is None)
    &&& (rank > 2 ==> spec_keyword(s, e, "WHERE"@) is None)
    &&& (rank > 3 ==> spec_keyword(s, e, "GROUP"@) is None)
    &&& (rank > 4 ==> spec_keyword(s, e, "HAVING"@) is None)
    &&& (rank > 5 ==> spec_keyword(s, e, "WINDOW"@) is None)
}

/// The rank of a clause keyword.
pub open spec fn clause_rank(kw: Seq<char>) -> int {
    if kw == "FROM"@ {
        1
    } else if kw == "WHERE"@ {
        2
    } else if kw == "GROUP"@ {
        3
    } else if kw == "HAVING"@ {
        4
    } else {
        5
    }
}

/// Where a clause keyword stands behind a blank, the clauses before its
/// own are closed.
pub proof fn lemma_clause_opens(s: Seq<char>, q: int, lit: Seq<char>, kw: Seq<char>)
    requires
        carries(s, q, lit),
        spells(lit, 0, 1, kw),
        kw == "FROM"@ || kw == "WHERE"@ || kw == "GROUP"@ || kw == "HAVING"@ || kw == "WINDOW"@,
    ensures
        closed_below(s, q, clause_rank(kw)),
        spec_keyword(s, q, kw) == Some(q + 1 + kw.len()),
        q + 1 + kw.len() < s.len(),
{
    lemma_keywords();
    lemma_keyword_literal(s, q, q, lit, 0, 1, kw);
    let w = lit.subrange(1, 1 + kw.len() as int);
    lemma_word_token(s, q, w, q + 1 + kw.len());
    lemma_carries_char(s, q, lit, 0);
    assert(is_reserved(w));
}

/// An identifier of the grammar is read back as it stands.
pub proof fn lemma_ident(s: Seq<char>, i0: int, i: int, w: Seq<char>)
    requires
        skip_trivia(s, i0) == skip_trivia(s, i),
        carries(s, i, w),
        valid_ident(w),
        word_stop(s, i + w.len()),
    ensures
        spec_identifier(s, i0) == Ok::<(Seq<char>, int), Seq<char>>((w, i + w.len())),
        word_at(s, i0, w, i + w.len()),
        skip_trivia(s, i) == i,
{
    lemma_word_starts_token(s, i, w);
    lemma_word_at(s, i0, i, w);
    lemma_word_token(s, i0, w, i + w.len());
}

/// The first character of an identifier or a number starts a token.
pub proof fn lemma_word_starts_token(s: Seq<char>, i: int, w: Seq<char>)
    requires
        carries(s, i, w),
        w.len() > 0,
        is_word_char(w[0]),
    ensures
        skip_trivia(s, i) == i,
{
    lemma_carries_char(s, i, w, 0);
    lemma_skip_here(s, i);
}

/// An expression of the grammar is read back as it stands.
pub proof fn lemma_expr(s: Seq<char>, i0: int, i: int, x: ExprModel)
    requires
        skip_trivia(s, i0) == skip_trivia(s, i),
        carries(s, i, x.render()),
        valid_expr(x),
        word_stop(s, i + x.render().len()),
    ensures
        spec_expr(s, i0) == Ok::<(ExprModel, int), Seq<char>>((x, i + x.render().len())),
        word_at(s, i0, x.render(), i + x.render().len()),
        !is_reserved(x.render()),
        x.render().len() > 0,
        is_word_char(x.render()[0]),
        skip_trivia(s, i) == i,
{
    let w = x.render();
    lemma_word_starts_token(s, i, w);
    match x {
        ExprModel::Identifier(name) => {
            lemma_ident(s, i0, i, w);
            lemma_carries_char(s, i, w, 0);
        },
        ExprModel::Number(digits) => {
            assert(is_digit(w[0]));
            assert(all_word_chars(w));
            lemma_word_at(s, i0, i, w);
            lemma_carries_char(s, i, w, 0);
            lemma_keywords();
            assert(upper_seq(w)[0] == upper(w[0]));
        },
    }
}

} // verus!
