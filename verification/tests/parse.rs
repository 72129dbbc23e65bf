use sqlfront::ast::expr::Expr;
use sqlfront::ast::set_expr::{SelectItem, SetExpr};
use sqlfront::ast::table_ref::TableRef;
use sqlfront::parser::{parse, parse_all};

fn select_parts(query: &SetExpr) -> (bool, usize, bool, bool, usize, bool, usize) {
    match query {
        SetExpr::Select { distinct, projection, from, selection, group_by, having, named_windows } => (
            *distinct,
            projection.len(),
            from.is_some(),
            selection.is_some(),
            group_by.len(),
            having.is_some(),
            named_windows.len(),
        ),
    }
}

#[test]
fn clause_optionality() {
    let (query, rest) = parse("SELECT 1").unwrap();
    assert_eq!(rest, "");
    assert_eq!(select_parts(&query), (false, 1, false, false, 0, false, 0));
    match &query {
        SetExpr::Select { projection, .. } => match &projection[0] {
            SelectItem::UnnamedExpr(Expr::Number(digits)) => assert_eq!(digits, "1"),
            other => panic!("unexpected item {:?}", other),
        },
    }
}

fn table_of(sql: &str) -> TableRef {
    match parse_all(sql).unwrap() {
        SetExpr::Select { from, .. } => from.unwrap(),
    }
}

#[test]
fn alias_forms() {
    for sql in ["SELECT a FROM t AS x", "SELECT a FROM t x"] {
        match table_of(sql) {
            TableRef::BaseTable { name, alias } => {
                assert_eq!(name.table.value, "t");
                assert!(name.database.is_none());
                assert_eq!(alias.unwrap().value, "x");
            },
            other => panic!("unexpected table {:?}", other),
        }
    }
}

#[test]
fn subquery_nesting() {
    let query = parse_all("SELECT a FROM (SELECT b FROM t) AS s").unwrap();
    assert_eq!(query.to_text(), "SELECT a FROM (SELECT b FROM t) AS s");
    match table_of("SELECT a FROM (SELECT b FROM t) AS s") {
        TableRef::Subquery { subquery, alias } => {
            assert_eq!(alias.unwrap().value, "s");
            match subquery.body {
                SetExpr::Select { from: Some(TableRef::BaseTable { name, alias }), .. } => {
                    assert_eq!(name.table.value, "t");
                    assert!(alias.is_none());
                },
                other => panic!("unexpected inner query {:?}", other),
            }
        },
        other => panic!("unexpected table {:?}", other),
    }
}

#[test]
fn qualified_table_name() {
    match table_of("SELECT a FROM db.t") {
        TableRef::BaseTable { name, .. } => {
            assert_eq!(name.database.unwrap().value, "db");
            assert_eq!(name.table.value, "t");
        },
        other => panic!("unexpected table {:?}", other),
    }
    match table_of("SELECT a FROM t") {
        TableRef::BaseTable { name, .. } => assert!(name.database.is_none()),
        other => panic!("unexpected table {:?}", other),
    }
}

#[test]
fn failure_on_malformed_input() {
    assert!(parse("SELECT FROM").is_err());
    assert!(parse("SELECT * EXCEPT x").is_err());
    assert_eq!(parse("SELECT * EXCEPT x").unwrap_err().0, "expected expression at offset 7");
}

#[test]
fn trailing_input_detection() {
    let (query, rest) = parse("SELECT 1; SELECT 2").unwrap();
    assert_eq!(query.to_text(), "SELECT 1");
    assert_eq!(rest, "; SELECT 2");
    assert_eq!(parse_all("SELECT 1; SELECT 2").unwrap_err().0, "trailing input at offset 8");
    assert!(parse_all("SELECT 1  -- done\n").is_ok());
}

#[test]
fn keywords_in_any_case_and_free_layout() {
    let sql = "select DISTINCT a ,b\n  from -- the table\n db.t\tas/* short */x where c group  by d,e \
               having f window w as ( partition by g order by h ) ";
    let query = parse_all(sql).unwrap();
    assert_eq!(
        query.to_text(),
        "SELECT DISTINCT a, b FROM db.t AS x WHERE c GROUP BY d, e HAVING f \
         WINDOW w AS (PARTITION BY g ORDER BY h)"
    );
}

#[test]
fn canonical_text_parses_back_to_itself() {
    for sql in [
        "SELECT 1",
        "SELECT *",
        "SELECT DISTINCT a AS b, * EXCLUDE c, * EXCLUDE (d, e) EXCEPT (f), 7",
        "SELECT a FROM db.t AS x WHERE b GROUP BY c, d HAVING e WINDOW w AS (), v AS (ORDER BY f)",
        "SELECT a FROM (SELECT b FROM (SELECT * EXCEPT (c) FROM t) AS u WHERE d) HAVING e",
        "SELECT a WINDOW w AS (PARTITION BY b, c ORDER BY d)",
        "SELECT a GROUP BY b",
    ] {
        let (query, rest) = parse(sql).unwrap();
        assert_eq!(rest, "");
        assert_eq!(query.to_text(), sql);
        assert_eq!(parse_all(&query.to_text()).unwrap().to_text(), sql);
    }
}

#[test]
fn rendering_normalizes() {
    for (sql, canonical) in [
        ("select a from t x", "SELECT a FROM t AS x"),
        ("SELECT * EXCLUDE (a) FROM t", "SELECT * EXCLUDE a FROM t"),
        ("SELECT a FROM (select b) s", "SELECT a FROM (SELECT b) AS s"),
        ("SELECT a FROM db . t", "SELECT a FROM db.t"),
        ("SELECT a Having b", "SELECT a HAVING b"),
    ] {
        let once = parse_all(sql).unwrap().to_text();
        assert_eq!(once, canonical);
        assert_eq!(parse_all(&once).unwrap().to_text(), canonical);
    }
}

#[test]
fn failures_carry_one_message() {
    for (sql, message) in [
        ("", "expected SELECT at offset 0"),
        ("  SELEC 1", "expected SELECT at offset 2"),
        ("SELECT", "expected expression at offset 6"),
        ("SELECT FROM", "expected expression at offset 7"),
        ("SELECT a,", "expected expression at offset 9"),
        ("SELECT 1x", "invalid number at offset 7"),
        ("SELECT é", "expected expression at offset 7"),
        ("SELECT a FROM", "expected identifier at offset 13"),
        ("SELECT a FROM (SELECT b", "expected identifier at offset 14"),
        ("SELECT a FROM t AS", "expected identifier at offset 18"),
        ("SELECT a FROM t WHERE", "expected expression at offset 21"),
        ("SELECT a GROUP b", "expected BY at offset 15"),
        ("SELECT a WINDOW w", "expected AS at offset 17"),
        ("SELECT a WINDOW w AS", "expected '(' at offset 20"),
        ("SELECT a WINDOW w AS (PARTITION BY b", "expected ')' at offset 36"),
        ("SELECT e\nFROM t WHERE /* é */ 1a", "invalid number at offset 30"),
    ] {
        assert_eq!(parse(sql).unwrap_err().0, message, "for {:?}", sql);
        assert_eq!(parse_all(sql).unwrap_err().0, message, "for {:?}", sql);
    }
}

#[test]
fn what_follows_a_query_is_handed_back() {
    for (sql, left, offset) in [
        ("SELECT a b", " b", 9),
        ("SELECT a AS FROM t", " AS FROM t", 9),
        ("SELECT a FROM t WHERE b ORDER BY c", " ORDER BY c", 24),
        ("SELECT a FROM t, u", ", u", 15),
        ("SELECT a é", " é", 9),
        ("SELECT a /* never closed", " /* never closed", 9),
    ] {
        let (_, rest) = parse(sql).unwrap();
        assert_eq!(rest, left);
        let expected = format!("trailing input at offset {}", offset);
        assert_eq!(parse_all(sql).unwrap_err().0, expected);
    }
}

fn nested(levels: usize) -> String {
    let mut sql = String::from("SELECT a FROM t");
    for _ in 0..levels {
        sql = format!("SELECT a FROM ({}) AS s", sql);
    }
    sql
}

#[test]
fn nesting_is_bounded() {
    let deepest = nested(sqlfront::parser::MAX_DEPTH);
    assert_eq!(parse_all(&deepest).unwrap().to_text(), deepest);
    let too_deep = nested(sqlfront::parser::MAX_DEPTH + 1);
    assert_eq!(parse_all(&too_deep).unwrap_err().0, "expected identifier at offset 14");
}
