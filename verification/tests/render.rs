use sqlfront::ast::expr::{Expr, WindowSpec};
use sqlfront::ast::set_expr::{NamedWindowDef, SelectItem, SetExpr, WildcardOptions};
use sqlfront::ast::statement::SelectStatement;
use sqlfront::ast::table_ref::{TableName, TableRef};
use sqlfront::ast::Ident;

fn id(name: &str) -> Ident {
    Ident::new(name)
}

fn col(name: &str) -> Expr {
    Expr::Identifier(id(name))
}

fn select(projection: Vec<SelectItem>) -> SetExpr {
    SetExpr::Select {
        distinct: false,
        projection,
        from: None,
        selection: None,
        group_by: vec![],
        having: None,
        named_windows: vec![],
    }
}

#[test]
fn ident_renders_verbatim() {
    assert_eq!(id("MixedCase_1").to_text(), "MixedCase_1");
    assert_eq!(Ident { value: String::from("x") }, id("x"));
}

#[test]
fn wildcard_cardinality_rule() {
    let one = WildcardOptions { exclude: vec![id("x")], except: vec![] };
    assert_eq!(one.to_text(), "* EXCLUDE x");
    let two = WildcardOptions { exclude: vec![id("x"), id("y")], except: vec![] };
    assert_eq!(two.to_text(), "* EXCLUDE (x, y)");
    let except = WildcardOptions { exclude: vec![], except: vec![id("x")] };
    assert_eq!(except.to_text(), "* EXCEPT (x)");
}

#[test]
fn wildcard_with_both_clauses_and_with_none() {
    let both = WildcardOptions { exclude: vec![id("a")], except: vec![id("b"), id("c")] };
    assert_eq!(both.to_text(), "* EXCLUDE a EXCEPT (b, c)");
    let none = WildcardOptions { exclude: vec![], except: vec![] };
    assert_eq!(none.to_text(), "*");
    assert_eq!(SelectItem::Wildcard(both).to_text(), "* EXCLUDE a EXCEPT (b, c)");
}

#[test]
fn select_items_render() {
    assert_eq!(SelectItem::UnnamedExpr(col("a")).to_text(), "a");
    assert_eq!(SelectItem::UnnamedExpr(Expr::Number(String::from("42"))).to_text(), "42");
    let aliased = SelectItem::ExprWithAlias { expr: col("a"), alias: id("b") };
    assert_eq!(aliased.to_text(), "a AS b");
}

#[test]
fn window_specs_render() {
    let empty = WindowSpec { partition_by: vec![], order_by: vec![] };
    assert_eq!(empty.to_text(), "");
    let partition = WindowSpec { partition_by: vec![col("a"), col("b")], order_by: vec![] };
    assert_eq!(partition.to_text(), "PARTITION BY a, b");
    let order = WindowSpec { partition_by: vec![], order_by: vec![col("c")] };
    assert_eq!(order.to_text(), "ORDER BY c");
    let both = WindowSpec { partition_by: vec![col("a")], order_by: vec![col("b"), col("c")] };
    assert_eq!(both.to_text(), "PARTITION BY a ORDER BY b, c");
    let named = NamedWindowDef { name: id("w"), spec: both };
    assert_eq!(named.to_text(), "w AS (PARTITION BY a ORDER BY b, c)");
    let bare = NamedWindowDef { name: id("w"), spec: empty };
    assert_eq!(bare.to_text(), "w AS ()");
}

#[test]
fn table_references_render() {
    let plain = TableName { database: None, table: id("t") };
    assert_eq!(plain.to_text(), "t");
    let qualified = TableName { database: Some(id("db")), table: id("t") };
    assert_eq!(qualified.to_text(), "db.t");
    let base = TableRef::BaseTable { name: qualified, alias: Some(id("x")) };
    assert_eq!(base.to_text(), "db.t AS x");
    let inner = SelectStatement { body: select(vec![SelectItem::UnnamedExpr(col("b"))]) };
    assert_eq!(inner.to_text(), "SELECT b");
    let sub = TableRef::Subquery { subquery: Box::new(inner.clone()), alias: None };
    assert_eq!(sub.to_text(), "(SELECT b)");
    let named = TableRef::Subquery { subquery: Box::new(inner), alias: Some(id("s")) };
    assert_eq!(named.to_text(), "(SELECT b) AS s");
}

#[test]
fn query_renders_every_clause_in_order() {
    let query = SetExpr::Select {
        distinct: true,
        projection: vec![
            SelectItem::ExprWithAlias { expr: col("a"), alias: id("x") },
            SelectItem::Wildcard(WildcardOptions {
                exclude: vec![id("b"), id("c")],
                except: vec![],
            }),
        ],
        from: Some(TableRef::BaseTable {
            name: TableName { database: Some(id("db")), table: id("t") },
            alias: Some(id("u")),
        }),
        selection: Some(col("w")),
        group_by: vec![col("g"), col("h")],
        having: Some(col("k")),
        named_windows: vec![
            NamedWindowDef {
                name: id("w1"),
                spec: WindowSpec { partition_by: vec![col("p")], order_by: vec![col("o")] },
            },
            NamedWindowDef {
                name: id("w2"),
                spec: WindowSpec { partition_by: vec![], order_by: vec![] },
            },
        ],
    };
    assert_eq!(
        query.to_text(),
        "SELECT DISTINCT a AS x, * EXCLUDE (b, c) FROM db.t AS u WHERE w GROUP BY g, h HAVING k \
         WINDOW w1 AS (PARTITION BY p ORDER BY o), w2 AS ()"
    );
    assert_eq!(query.clone().to_text(), query.to_text());
}

#[test]
fn query_without_clauses_renders_projection_only() {
    assert_eq!(select(vec![SelectItem::UnnamedExpr(col("a"))]).to_text(), "SELECT a");
    assert_eq!(select(vec![]).to_text(), "SELECT ");
    let three = select(vec![
        SelectItem::UnnamedExpr(col("a")),
        SelectItem::UnnamedExpr(col("b")),
        SelectItem::UnnamedExpr(col("c")),
    ]);
    assert_eq!(three.to_text(), "SELECT a, b, c");
}
