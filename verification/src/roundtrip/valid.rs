//! Which models the grammar can build.
use vstd::prelude::*;
use crate::ast::expr::{ExprModel, WindowSpecModel};
use crate::ast::set_expr::{
    NamedWindowDefModel, SelectItemModel, SetExprModel, WildcardOptionsModel,
};
use crate::ast::table_ref::{TableNameModel, TableRefModel};
use crate::parser::token::{all_digits, is_reserved, is_word_char, is_word_start};

verus! {

/// Whether every character of `w` is a word character.
pub open spec fn all_word_chars(w: Seq<char>) -> bool {
    forall|k: int| 0 <= k < w.len() ==> is_word_char(#[trigger] w[k])
}

/// An identifier of the grammar: a word that starts with a letter or an
/// underscore and is not reserved.
pub open spec fn valid_ident(w: Seq<char>) -> bool {
    w.len() > 0 && is_word_start(w[0]) && all_word_chars(w) && !is_reserved(w)
}

/// Identifiers of the grammar only.
pub open spec fn valid_idents(v: Seq<Seq<char>>) -> bool {
    forall|k: int| 0 <= k < v.len() ==> valid_ident(#[trigger] v[k])
}

/// Nothing, or an identifier of the grammar.
pub open spec fn valid_optional_ident(o: Option<Seq<char>>) -> bool {
    o matches Some(w) ==> valid_ident(w)
}

/// An expression of the grammar.
pub open spec fn valid_expr(e: ExprModel) -> bool {
    match e {
        ExprModel::Identifier(name) => valid_ident(name),
        ExprModel::Number(digits) => digits.len() > 0 && all_digits(digits),
    }
}

/// Expressions of the grammar only.
pub open spec fn valid_exprs(v: Seq<ExprModel>) -> bool {
    forall|k: int| 0 <= k < v.len() ==> valid_expr(#[trigger] v[k])
}

/// Nothing, or an expression of the grammar.
pub open spec fn valid_optional_expr(o: Option<ExprModel>) -> bool {
    o matches Some(e) ==> valid_expr(e)
}

/// A window body of the grammar.
pub open spec fn valid_window_spec(w: WindowSpecModel) -> bool {
    valid_exprs(w.partition_by) && valid_exprs(w.order_by)
}

/// A window definition of the grammar.
pub open spec fn valid_named_window(w: NamedWindowDefModel) -> bool {
    valid_ident(w.name) && valid_window_spec(w.spec)
}

/// Window definitions of the grammar only.
pub open spec fn valid_named_windows(v: Seq<NamedWindowDefModel>) -> bool {
    forall|k: int| 0 <= k < v.len() ==> valid_named_window(#[trigger] v[k])
}

/// Wildcard options of the grammar.
pub open spec fn valid_wildcard(o: WildcardOptionsModel) -> bool {
    valid_idents(o.exclude) && valid_idents(o.except)
}

/// A projection term of the grammar.
pub open spec fn valid_item(item: SelectItemModel) -> bool {
    match item {
        SelectItemModel::UnnamedExpr(expr) => valid_expr(expr),
        SelectItemModel::ExprWithAlias { expr, alias } => valid_expr(expr) && valid_ident(alias),
        SelectItemModel::Wildcard(options) => valid_wildcard(options),
    }
}

/// Projection terms of the grammar only.
pub open spec fn valid_items(v: Seq<SelectItemModel>) -> bool {
    forall|k: int| 0 <= k < v.len() ==> valid_item(#[trigger] v[k])
}

/// A table name of the grammar.
pub open spec fn valid_table_name(name: TableNameModel) -> bool {
    valid_optional_ident(name.database) && valid_ident(name.table)
}

/// A table reference of the grammar that nests at most `depth` queries.
pub open spec fn valid_table_ref(table: TableRefModel, depth: nat) -> bool
    decreases table,
{
    match table {
        TableRefModel::BaseTable { name, alias } => valid_table_name(name) && valid_optional_ident(
            alias,
        ),
        TableRefModel::Subquery { subquery, alias } => depth > 0 && valid_query(
            subquery.body,
            (depth - 1) as nat,
        ) && valid_optional_ident(alias),
    }
}

/// A query of the grammar that nests at most `depth` queries: the
/// projection is not empty, every name is an identifier of the grammar and
/// every number is made of digits.
pub open spec fn valid_query(query: SetExprModel, depth: nat) -> bool
    decreases query,
{
    match query {
        SetExprModel::Select {
            distinct,
            projection,
            from,
            selection,
            group_by,
            having,
            named_windows,
        } => {
            &&& projection.len() > 0
            &&& valid_items(projection)
            &&& (match from {
                Some(table) => valid_table_ref(table, depth),
                None => true,
            })
            &&& valid_optional_expr(selection)
            &&& valid_exprs(group_by)
            &&& valid_optional_expr(having)
            &&& valid_named_windows(named_windows)
        },
    }
}

} // verus!
