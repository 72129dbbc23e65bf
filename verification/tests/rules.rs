use sqlfront::ast::expr::Expr;
use sqlfront::ast::set_expr::SelectItem;
use sqlfront::ast::table_ref::TableRef;
use sqlfront::parser::expr::{parse_by_list, parse_expr, parse_expr_list, parse_window_spec};
use sqlfront::parser::grammar::{
    base_table, clauses, expr_item, from_clause, ident_list, named_window_definition, projection,
    select_item, select_statement, subquery, table_alias, table_name, table_reference,
    wildcard_item, wildcard_options, window_list,
};
use sqlfront::parser::input::Input;
use sqlfront::parser::to_chars;

fn text_of(e: &Expr) -> String {
    e.to_text()
}

#[test]
fn expressions() {
    let chars = to_chars(" 0123,");
    let (rest, e) = parse_expr(Input::new(&chars)).unwrap();
    assert!(matches!(&e, Expr::Number(d) if d == "0123"));
    assert_eq!(rest.offset(), 5);
    let chars = to_chars("abc def");
    let (rest, e) = parse_expr(Input::new(&chars)).unwrap();
    assert!(matches!(&e, Expr::Identifier(name) if name.value == "abc"));
    assert_eq!(rest.offset(), 3);
    let chars = to_chars("12ab");
    assert_eq!(parse_expr(Input::new(&chars)).unwrap_err().0, "invalid number at offset 0");
    for text in ["", "*", "from", "(1)"] {
        let chars = to_chars(text);
        let failure = parse_expr(Input::new(&chars)).unwrap_err();
        assert_eq!(failure.0, "expected expression at offset 0");
    }
}

#[test]
fn expression_lists() {
    let chars = to_chars("a ,1, b c");
    let (rest, list) = parse_expr_list(Input::new(&chars)).unwrap();
    let texts: Vec<String> = list.iter().map(text_of).collect();
    assert_eq!(texts, vec!["a", "1", "b"]);
    assert_eq!(rest.remaining_text(), " c");
    for (text, message) in [
        ("a, ", "expected expression at offset 3"),
        (", a", "expected expression at offset 0"),
    ] {
        let chars = to_chars(text);
        assert_eq!(parse_expr_list(Input::new(&chars)).unwrap_err().0, message);
    }
}

#[test]
fn list_clauses() {
    let chars = to_chars(" group by a, b");
    let (rest, list) = parse_by_list("GROUP", Input::new(&chars)).unwrap();
    assert_eq!(list.len(), 2);
    assert_eq!(rest.remaining(), 0);
    let chars = to_chars(" order by a");
    let (rest, list) = parse_by_list("GROUP", Input::new(&chars)).unwrap();
    assert!(list.is_empty());
    assert_eq!(rest.offset(), 0);
    for (text, message) in [
        ("GROUP a", "expected BY at offset 6"),
        ("GROUP BY", "expected expression at offset 8"),
    ] {
        let chars = to_chars(text);
        assert_eq!(parse_by_list("GROUP", Input::new(&chars)).unwrap_err().0, message);
    }
}

#[test]
fn window_bodies() {
    for (text, expected, left) in [
        ("partition by a order by b)", "PARTITION BY a ORDER BY b", ")"),
        ("ORDER BY b, c", "ORDER BY b, c", ""),
        ("PARTITION BY a", "PARTITION BY a", ""),
        (")", "", ")"),
        ("ORDER BY a PARTITION BY b", "ORDER BY a", " PARTITION BY b"),
    ] {
        let chars = to_chars(text);
        let (rest, spec) = parse_window_spec(Input::new(&chars)).unwrap();
        assert_eq!(spec.to_text(), expected);
        assert_eq!(rest.remaining_text(), left);
    }
    let chars = to_chars("PARTITION a");
    assert_eq!(
        parse_window_spec(Input::new(&chars)).unwrap_err().0,
        "expected BY at offset 10"
    );
}

#[test]
fn named_windows() {
    let chars = to_chars("w as (order by a), v AS ( ) x");
    let (rest, list) = window_list(Input::new(&chars)).unwrap();
    assert_eq!(list.len(), 2);
    assert_eq!(list[0].to_text(), "w AS (ORDER BY a)");
    assert_eq!(list[1].to_text(), "v AS ()");
    assert_eq!(rest.remaining_text(), " x");
    for (text, message) in [
        ("w (a)", "expected AS at offset 2"),
        ("w AS a", "expected '(' at offset 5"),
        ("w AS (ORDER BY a", "expected ')' at offset 16"),
        ("AS (a)", "expected identifier at offset 0"),
    ] {
        let chars = to_chars(text);
        assert_eq!(named_window_definition(Input::new(&chars)).unwrap_err().0, message);
    }
}

#[test]
fn identifier_lists() {
    let chars = to_chars("a, b ,c)");
    let (rest, list) = ident_list(Input::new(&chars)).unwrap();
    let names: Vec<&str> = list.iter().map(|i| i.value.as_str()).collect();
    assert_eq!(names, vec!["a", "b", "c"]);
    assert_eq!(rest.remaining_text(), ")");
}

#[test]
fn wildcards() {
    for (text, expected, left) in [
        ("*", "*", ""),
        (" * , a", "*", " , a"),
        ("* exclude a", "* EXCLUDE a", ""),
        ("* EXCLUDE (a)", "* EXCLUDE a", ""),
        ("* EXCLUDE (a, b) FROM t", "* EXCLUDE (a, b)", " FROM t"),
        ("* EXCEPT (a)", "* EXCEPT (a)", ""),
        ("* EXCLUDE a EXCEPT (b, c)", "* EXCLUDE a EXCEPT (b, c)", ""),
        ("* EXCEPT (a) EXCLUDE b", "* EXCEPT (a)", " EXCLUDE b"),
    ] {
        let chars = to_chars(text);
        let (rest, options) = wildcard_options(Input::new(&chars)).unwrap();
        assert_eq!(options.to_text(), expected);
        assert_eq!(rest.remaining_text(), left);
    }
    for (text, message) in [
        ("a", "expected '*' at offset 0"),
        ("* EXCEPT a", "expected '(' at offset 9"),
        ("* EXCEPT (a", "expected ')' at offset 11"),
        ("* EXCEPT ()", "expected identifier at offset 10"),
        ("* EXCLUDE", "expected identifier at offset 9"),
        ("* EXCLUDE ()", "expected identifier at offset 11"),
        ("* EXCLUDE (a, )", "expected identifier at offset 14"),
    ] {
        let chars = to_chars(text);
        assert_eq!(wildcard_options(Input::new(&chars)).unwrap_err().0, message);
    }
}

#[test]
fn select_items() {
    let chars = to_chars("a AS b, c");
    let (rest, item) = select_item(Input::new(&chars)).unwrap();
    assert!(matches!(&item, SelectItem::ExprWithAlias { alias, .. } if alias.value == "b"));
    assert_eq!(rest.remaining_text(), ", c");
    let chars = to_chars("a b");
    let (rest, item) = select_item(Input::new(&chars)).unwrap();
    assert!(matches!(&item, SelectItem::UnnamedExpr(_)));
    assert_eq!(rest.remaining_text(), " b");
    // without an alias behind it, AS is left unread
    let chars = to_chars("a AS FROM t");
    let (rest, item) = expr_item(Input::new(&chars)).unwrap();
    assert!(matches!(&item, SelectItem::UnnamedExpr(_)));
    assert_eq!(rest.remaining_text(), " AS FROM t");
    let chars = to_chars("* EXCLUDE a");
    let (_, item) = wildcard_item(Input::new(&chars)).unwrap();
    assert!(matches!(&item, SelectItem::Wildcard(o) if o.exclude.len() == 1));
    // of the failures of all alternatives, the last one is reported
    let chars = to_chars("* EXCEPT a");
    assert_eq!(
        select_item(Input::new(&chars)).unwrap_err().0,
        "expected expression at offset 0"
    );
    let chars = to_chars("12x");
    assert_eq!(select_item(Input::new(&chars)).unwrap_err().0, "invalid number at offset 0");
}

#[test]
fn projections() {
    let chars = to_chars("select distinct a, * from t");
    let (rest, (distinct, items)) = projection(Input::new(&chars)).unwrap();
    assert!(distinct);
    assert_eq!(items.len(), 2);
    assert_eq!(rest.remaining_text(), " from t");
    let chars = to_chars("SELECT distinct_a");
    let (_, (distinct, items)) = projection(Input::new(&chars)).unwrap();
    assert!(!distinct);
    assert_eq!(items[0].to_text(), "distinct_a");
    for (text, message) in [
        ("SELECTa", "expected SELECT at offset 0"),
        ("SELECT a,", "expected expression at offset 9"),
    ] {
        let chars = to_chars(text);
        assert_eq!(projection(Input::new(&chars)).unwrap_err().0, message);
    }
}

#[test]
fn table_names_and_aliases() {
    let chars = to_chars("db . t x");
    let (rest, name) = table_name(Input::new(&chars)).unwrap();
    assert_eq!(name.to_text(), "db.t");
    assert_eq!(rest.remaining_text(), " x");
    let chars = to_chars("db.");
    assert_eq!(
        table_name(Input::new(&chars)).unwrap_err().0,
        "expected identifier at offset 3"
    );
    for (text, expected, left) in [
        (" AS x", Some("x"), ""),
        (" x WHERE", Some("x"), " WHERE"),
        (" WHERE a", None, " WHERE a"),
        (")", None, ")"),
        ("", None, ""),
    ] {
        let chars = to_chars(text);
        let (rest, alias) = table_alias(Input::new(&chars)).unwrap();
        assert_eq!(alias.map(|a| a.value), expected.map(String::from));
        assert_eq!(rest.remaining_text(), left);
    }
    let chars = to_chars(" AS WHERE");
    assert_eq!(
        table_alias(Input::new(&chars)).unwrap_err().0,
        "expected identifier at offset 4"
    );
    let chars = to_chars("t AS u GROUP");
    let (rest, table) = base_table(Input::new(&chars)).unwrap();
    assert_eq!(table.to_text(), "t AS u");
    assert_eq!(rest.remaining_text(), " GROUP");
}

#[test]
fn table_references_and_depth() {
    let chars = to_chars("(SELECT a FROM (SELECT b) c) d");
    let (rest, table) = table_reference(Input::new(&chars), 2).unwrap();
    assert_eq!(table.to_text(), "(SELECT a FROM (SELECT b) AS c) AS d");
    assert_eq!(rest.remaining(), 0);
    assert!(matches!(&table, TableRef::Subquery { .. }));
    // one level of nesting is not enough for two nested queries
    assert_eq!(
        table_reference(Input::new(&chars), 1).unwrap_err().0,
        "expected identifier at offset 0"
    );
    assert_eq!(
        subquery(Input::new(&chars), 1).unwrap_err().0,
        "expected identifier at offset 15"
    );
    assert_eq!(
        subquery(Input::new(&chars), 0).unwrap_err().0,
        "query nesting too deep at offset 0"
    );
    for (text, message) in [
        ("t", "expected '(' at offset 0"),
        ("(SELECT a", "expected ')' at offset 9"),
        ("(a)", "expected SELECT at offset 1"),
    ] {
        let chars = to_chars(text);
        assert_eq!(subquery(Input::new(&chars), 3).unwrap_err().0, message);
    }
    let chars = to_chars("t");
    assert!(matches!(table_reference(Input::new(&chars), 0).unwrap().1, TableRef::BaseTable { .. }));
}

#[test]
fn from_and_other_clauses() {
    let chars = to_chars(" WHERE a");
    let (rest, from) = from_clause(Input::new(&chars), 4).unwrap();
    assert!(from.is_none());
    assert_eq!(rest.offset(), 0);
    let chars = to_chars(" FROM");
    assert_eq!(
        from_clause(Input::new(&chars), 4).unwrap_err().0,
        "expected identifier at offset 5"
    );
    let chars = to_chars(" where a group by b having c window w as ()");
    let (rest, (selection, group_by, having, windows)) = clauses(Input::new(&chars)).unwrap();
    assert_eq!(selection.unwrap().to_text(), "a");
    assert_eq!(group_by.len(), 1);
    assert_eq!(having.unwrap().to_text(), "c");
    assert_eq!(windows.len(), 1);
    assert_eq!(rest.remaining(), 0);
    // the order of the clauses is fixed
    let chars = to_chars(" HAVING a WHERE b");
    let (rest, (selection, _, having, _)) = clauses(Input::new(&chars)).unwrap();
    assert!(selection.is_none());
    assert!(having.is_some());
    assert_eq!(rest.remaining_text(), " WHERE b");
    for (text, message) in [
        (" WHERE", "expected expression at offset 6"),
        (" GROUP a", "expected BY at offset 7"),
        (" HAVING ,", "expected expression at offset 8"),
        (" WINDOW", "expected identifier at offset 7"),
    ] {
        let chars = to_chars(text);
        assert_eq!(clauses(Input::new(&chars)).unwrap_err().0, message);
    }
}

#[test]
fn statements_from_a_cursor() {
    let chars = to_chars("  SELECT a FROM t) x");
    let (rest, query) = select_statement(Input::new(&chars), 0).unwrap();
    assert_eq!(query.to_text(), "SELECT a FROM t");
    assert_eq!(rest.remaining_text(), ") x");
    assert_eq!(rest.line_column(), (0, 17));
}
