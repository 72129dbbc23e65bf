//! The grammar rules of a `SELECT` query.
//!
//! Every rule is a function from a position in the text to the node it
//! builds and the position behind it, or to a failure. Nested queries are
//! followed down to a bounded depth only.
use vstd::prelude::*;
use crate::ast::expr::{Expr, ExprModel};
use crate::ast::set_expr::{
    NamedWindowDef, NamedWindowDefModel, SelectItem, SelectItemModel, SetExpr, SetExprModel,
    WildcardOptions, WildcardOptionsModel,
};
use crate::ast::statement::{SelectStatement, SelectStatementModel};
use crate::ast::table_ref::{TableName, TableNameModel, TableRef, TableRefModel};
use crate::ast::Ident;
use crate::parser::combinator::{
    alt, delimited, missing, missing_symbol, opt, preceded, separated_list, spec_alt,
    spec_delimited, spec_opt, spec_preceded, spec_separated_list, Rule,
};
use crate::parser::error::{located, PError};
use crate::parser::expr::{
    expr_rule, parse_by_list, parse_expr, parse_window_spec, spec_by_list, spec_expr,
    spec_window_spec,
};
use crate::parser::input::{skip_trivia, IResult, Input};
use crate::parser::token::{
    agrees, identifier, keyword, spec_identifier, spec_keyword, spec_symbol, symbol, Parsed,
};

verus! {

/// [`spec_identifier`] as a rule.
pub open spec fn identifier_rule() -> Rule<Seq<char>> {
    |s: Seq<char>, i: int| spec_identifier(s, i)
}

/// One or more identifiers separated by commas.
pub open spec fn spec_ident_list(s: Seq<char>, i: int) -> Parsed<Seq<Seq<char>>> {
    spec_separated_list(identifier_rule(), ',', s, i)
}

/// [`spec_ident_list`] as a rule.
pub open spec fn ident_list_rule() -> Rule<Seq<Seq<char>>> {
    |s: Seq<char>, i: int| spec_ident_list(s, i)
}

/// The `EXCLUDE` clause of a wildcard: behind the keyword, one bare
/// identifier or a parenthesized list. Without the keyword, no column.
pub open spec fn spec_exclude(s: Seq<char>, i: int) -> Parsed<Seq<Seq<char>>> {
    match spec_keyword(s, i, "EXCLUDE"@) {
        None => Ok((Seq::empty(), i)),
        Some(j) => if spec_symbol(s, j, '(') is Some {
            spec_delimited('(', ident_list_rule(), ')', s, j)
        } else {
            match spec_identifier(s, j) {
                Err(e) => Err(e),
                Ok((name, k)) => Ok((seq![name], k)),
            }
        },
    }
}

/// The `EXCEPT` clause of a wildcard: behind the keyword, a parenthesized
/// list, also for one column. Without the keyword, no column.
pub open spec fn spec_except(s: Seq<char>, i: int) -> Parsed<Seq<Seq<char>>> {
    match spec_keyword(s, i, "EXCEPT"@) {
        None => Ok((Seq::empty(), i)),
        Some(j) => spec_delimited('(', ident_list_rule(), ')', s, j),
    }
}

/// A wildcard: `*`, then the `EXCLUDE` clause, then the `EXCEPT` clause.
pub open spec fn spec_wildcard(s: Seq<char>, i: int) -> Parsed<WildcardOptionsModel> {
    match spec_symbol(s, i, '*') {
        None => Err(missing('*', s, i)),
        Some(j) => match spec_exclude(s, j) {
            Err(e) => Err(e),
            Ok((exclude, k)) => match spec_except(s, k) {
                Err(e) => Err(e),
                Ok((except, end)) => Ok((WildcardOptionsModel { exclude, except }, end)),
            },
        },
    }
}

/// A wildcard as a projection term.
pub open spec fn spec_wildcard_item(s: Seq<char>, i: int) -> Parsed<SelectItemModel> {
    match spec_wildcard(s, i) {
        Err(e) => Err(e),
        Ok((options, end)) => Ok((SelectItemModel::Wildcard(options), end)),
    }
}

/// An expression, `AS` and an alias.
pub open spec fn spec_aliased_expr(s: Seq<char>, i: int) -> Parsed<SelectItemModel> {
    match spec_expr(s, i) {
        Err(e) => Err(e),
        Ok((expr, j)) => match spec_keyword(s, j, "AS"@) {
            None => Err(located("expected AS"@, skip_trivia(s, j))),
            Some(k) => match spec_identifier(s, k) {
                Err(e) => Err(e),
                Ok((alias, end)) => Ok((SelectItemModel::ExprWithAlias { expr, alias }, end)),
            },
        },
    }
}

/// An expression alone.
pub open spec fn spec_unnamed_expr(s: Seq<char>, i: int) -> Parsed<SelectItemModel> {
    match spec_expr(s, i) {
        Err(e) => Err(e),
        Ok((expr, end)) => Ok((SelectItemModel::UnnamedExpr(expr), end)),
    }
}

/// An expression with an alias or, failing that, the expression alone.
pub open spec fn spec_expr_item(s: Seq<char>, i: int) -> Parsed<SelectItemModel> {
    spec_alt(
        |s: Seq<char>, i: int| spec_aliased_expr(s, i),
        |s: Seq<char>, i: int| spec_unnamed_expr(s, i),
        s,
        i,
    )
}

/// [`spec_wildcard_item`] as a rule.
pub open spec fn wildcard_item_rule() -> Rule<SelectItemModel> {
    |s: Seq<char>, i: int| spec_wildcard_item(s, i)
}

/// [`spec_expr_item`] as a rule.
pub open spec fn expr_item_rule() -> Rule<SelectItemModel> {
    |s: Seq<char>, i: int| spec_expr_item(s, i)
}

/// One projection term. The alternatives are tried in this order: a
/// wildcard, an expression with an alias, an expression alone.
pub open spec fn spec_select_item(s: Seq<char>, i: int) -> Parsed<SelectItemModel> {
    spec_alt(wildcard_item_rule(), expr_item_rule(), s, i)
}

/// [`spec_select_item`] as a rule.
pub open spec fn select_item_rule() -> Rule<SelectItemModel> {
    |s: Seq<char>, i: int| spec_select_item(s, i)
}

/// The alias of a table reference: `AS` and an identifier, or an
/// identifier alone, or nothing.
pub open spec fn spec_alias(s: Seq<char>, i: int) -> Parsed<Option<Seq<char>>> {
    match spec_preceded("AS"@, identifier_rule(), s, i) {
        Err(e) => Err(e),
        Ok((Some(alias), end)) => Ok((Some(alias), end)),
        Ok((None, _)) => spec_opt(identifier_rule(), s, i),
    }
}

/// A table name: `table`, or `database.table`.
pub open spec fn spec_table_name(s: Seq<char>, i: int) -> Parsed<TableNameModel> {
    match spec_identifier(s, i) {
        Err(e) => Err(e),
        Ok((first, j)) => match spec_symbol(s, j, '.') {
            None => Ok((TableNameModel { database: None, table: first }, j)),
            Some(k) => match spec_identifier(s, k) {
                Err(e) => Err(e),
                Ok((second, end)) => Ok(
                    (TableNameModel { database: Some(first), table: second }, end),
                ),
            },
        },
    }
}

/// A named table with its optional alias.
pub open spec fn spec_base_table(s: Seq<char>, i: int) -> Parsed<TableRefModel> {
    match spec_table_name(s, i) {
        Err(e) => Err(e),
        Ok((name, j)) => match spec_alias(s, j) {
            Err(e) => Err(e),
            Ok((alias, end)) => Ok((TableRefModel::BaseTable { name, alias }, end)),
        },
    }
}

/// [`spec_window_spec`] as a rule.
pub open spec fn window_spec_rule() -> Rule<crate::ast::expr::WindowSpecModel> {
    |s: Seq<char>, i: int| spec_window_spec(s, i)
}

/// A window definition: a name, `AS`, and a window body in parentheses.
pub open spec fn spec_named_window(s: Seq<char>, i: int) -> Parsed<NamedWindowDefModel> {
    match spec_identifier(s, i) {
        Err(e) => Err(e),
        Ok((name, j)) => match spec_keyword(s, j, "AS"@) {
            None => Err(located("expected AS"@, skip_trivia(s, j))),
            Some(k) => match spec_delimited('(', window_spec_rule(), ')', s, k) {
                Err(e) => Err(e),
                Ok((spec, end)) => Ok((NamedWindowDefModel { name, spec }, end)),
            },
        },
    }
}

/// [`spec_named_window`] as a rule.
pub open spec fn named_window_rule() -> Rule<NamedWindowDefModel> {
    |s: Seq<char>, i: int| spec_named_window(s, i)
}

/// One or more window definitions separated by commas.
pub open spec fn spec_window_list(s: Seq<char>, i: int) -> Parsed<Seq<NamedWindowDefModel>> {
    spec_separated_list(named_window_rule(), ',', s, i)
}

/// [`spec_window_list`] as a rule.
pub open spec fn window_list_rule() -> Rule<Seq<NamedWindowDefModel>> {
    |s: Seq<char>, i: int| spec_window_list(s, i)
}

/// The list that an optional list clause stands for.
pub open spec fn list_or_empty<T>(list: Option<Seq<T>>) -> Seq<T> {
    match list {
        Some(list) => list,
        None => Seq::empty(),
    }
}

/// The clauses behind `FROM`, each optional, in their fixed order: the
/// `WHERE` predicate, the `GROUP BY` list, the `HAVING` predicate and the
/// `WINDOW` definitions.
pub open spec fn spec_clauses(s: Seq<char>, i: int) -> Parsed<
    (Option<ExprModel>, Seq<ExprModel>, Option<ExprModel>, Seq<NamedWindowDefModel>),
> {
    match spec_preceded("WHERE"@, expr_rule(), s, i) {
        Err(e) => Err(e),
        Ok((selection, a)) => match spec_by_list("GROUP"@, s, a) {
            Err(e) => Err(e),
            Ok((group_by, b)) => match spec_preceded("HAVING"@, expr_rule(), s, b) {
                Err(e) => Err(e),
                Ok((having, c)) => match spec_preceded("WINDOW"@, window_list_rule(), s, c) {
                    Err(e) => Err(e),
                    Ok((windows, end)) => Ok(
                        ((selection, group_by, having, list_or_empty(windows)), end),
                    ),
                },
            },
        },
    }
}

/// The start of a query: `SELECT`, an optional `DISTINCT`, and the
/// projection list.
pub open spec fn spec_projection(s: Seq<char>, i: int) -> Parsed<(bool, Seq<SelectItemModel>)> {
    match spec_keyword(s, i, "SELECT"@) {
        None => Err(located("expected SELECT"@, skip_trivia(s, i))),
        Some(j) => {
            let distinct = spec_keyword(s, j, "DISTINCT"@);
            let k = match distinct {
                Some(k) => k,
                None => j,
            };
            match spec_separated_list(select_item_rule(), ',', s, k) {
                Err(e) => Err(e),
                Ok((projection, end)) => Ok(((distinct is Some, projection), end)),
            }
        },
    }
}

/// A subquery as a table reference: a query in parentheses with its
/// optional alias. `depth` is the number of nested queries still allowed.
pub open spec fn spec_subquery(s: Seq<char>, i: int, depth: nat) -> Parsed<TableRefModel>
    decreases depth, 0nat,
{
    if depth == 0 {
        Err(located("query nesting too deep"@, skip_trivia(s, i)))
    } else {
        match spec_symbol(s, i, '(') {
            None => Err(missing('(', s, i)),
            Some(j) => match spec_select(s, j, (depth - 1) as nat) {
                Err(e) => Err(e),
                Ok((body, k)) => match spec_symbol(s, k, ')') {
                    None => Err(missing(')', s, k)),
                    Some(m) => match spec_alias(s, m) {
                        Err(e) => Err(e),
                        Ok((alias, end)) => Ok(
                            (
                                TableRefModel::Subquery {
                                    subquery: Box::new(SelectStatementModel { body }),
                                    alias,
                                },
                                end,
                            ),
                        ),
                    },
                },
            },
        }
    }
}

/// A table reference: a subquery or, failing that, a named table.
pub open spec fn spec_table_ref(s: Seq<char>, i: int, depth: nat) -> Parsed<TableRefModel>
    decreases depth, 1nat,
{
    match spec_subquery(s, i, depth) {
        Ok(found) => Ok(found),
        Err(_) => spec_base_table(s, i),
    }
}

/// The `FROM` clause: absent without the keyword, else one table
/// reference.
pub open spec fn spec_from(s: Seq<char>, i: int, depth: nat) -> Parsed<Option<TableRefModel>>
    decreases depth, 2nat,
{
    match spec_keyword(s, i, "FROM"@) {
        None => Ok((None, i)),
        Some(j) => match spec_table_ref(s, j, depth) {
            Err(e) => Err(e),
            Ok((table, end)) => Ok((Some(table), end)),
        },
    }
}

/// A query body: the projection, the `FROM` clause, then the other
/// clauses.
pub open spec fn spec_select(s: Seq<char>, i: int, depth: nat) -> Parsed<SetExprModel>
    decreases depth, 3nat,
{
    match spec_projection(s, i) {
        Err(e) => Err(e),
        Ok(((distinct, projection), a)) => match spec_from(s, a, depth) {
            Err(e) => Err(e),
            Ok((from, b)) => match spec_clauses(s, b) {
                Err(e) => Err(e),
                Ok(((selection, group_by, having, named_windows), end)) => Ok(
                    (
                        SetExprModel::Select {
                            distinct,
                            projection,
                            from,
                            selection,
                            group_by,
                            having,
                            named_windows,
                        },
                        end,
                    ),
                ),
            },
        },
    }
}

/// Parses one or more identifiers separated by commas.
pub fn ident_list<'a>(input: Input<'a>) -> (r: IResult<'a, Vec<Ident>>)
    ensures
        agrees(r, input, spec_ident_list(input.text(), input.pos())),
{
    separated_list(identifier, ',', input, Ghost(identifier_rule()))
}

/// Parses the options of a wildcard, from the `*` on.
pub fn wildcard_options<'a>(input: Input<'a>) -> (r: IResult<'a, WildcardOptions>)
    ensures
        agrees(r, input, spec_wildcard(input.text(), input.pos())),
{
    let star = match symbol(input, '*') {
        Some(star) => star,
        None => {
            return missing_symbol('*', input);
        },
    };
    let (rest, exclude) = match keyword(star, "EXCLUDE") {
        None => (star, Vec::new()),
        Some(after) => {
            if symbol(after, '(').is_some() {
                delimited('(', ident_list, ')', after, Ghost(ident_list_rule()))?
            } else {
                let (rest, name) = identifier(after)?;
                let mut one: Vec<Ident> = Vec::new();
                one.push(name);
                (rest, one)
            }
        },
    };
    proof {
        assert(exclude.deep_view() =~= spec_exclude(input.text(), star.pos())->Ok_0.0);
    }
    let (rest, except) = match keyword(rest, "EXCEPT") {
        None => (rest, Vec::new()),
        Some(after) => delimited('(', ident_list, ')', after, Ghost(ident_list_rule()))?,
    };
    proof {
        assert(except.deep_view() =~= spec_except(
            input.text(),
            spec_exclude(input.text(), star.pos())->Ok_0.1,
        )->Ok_0.0);
    }
    Ok((rest, WildcardOptions { exclude, except }))
}

/// Parses a wildcard as a projection term.
pub fn wildcard_item<'a>(input: Input<'a>) -> (r: IResult<'a, SelectItem>)
    ensures
        agrees(r, input, spec_wildcard_item(input.text(), input.pos())),
{
    let (rest, options) = wildcard_options(input)?;
    Ok((rest, SelectItem::Wildcard(options)))
}

/// Parses an expression with an alias or, failing that, the expression
/// alone. The expression is parsed once for both alternatives.
pub fn expr_item<'a>(input: Input<'a>) -> (r: IResult<'a, SelectItem>)
    ensures
        agrees(r, input, spec_expr_item(input.text(), input.pos())),
{
    let (rest, expr) = parse_expr(input)?;
    match keyword(rest, "AS") {
        None => Ok((rest, SelectItem::UnnamedExpr(expr))),
        Some(after) => match identifier(after) {
            Ok((end, alias)) => Ok((end, SelectItem::ExprWithAlias { expr, alias })),
            Err(_) => Ok((rest, SelectItem::UnnamedExpr(expr))),
        },
    }
}

/// Parses one projection term.
pub fn select_item<'a>(input: Input<'a>) -> (r: IResult<'a, SelectItem>)
    ensures
        agrees(r, input, spec_select_item(input.text(), input.pos())),
{
    alt(wildcard_item, expr_item, input, Ghost(wildcard_item_rule()), Ghost(expr_item_rule()))
}

/// Parses the optional alias of a table reference.
pub fn table_alias<'a>(input: Input<'a>) -> (r: IResult<'a, Option<Ident>>)
    ensures
        agrees(r, input, spec_alias(input.text(), input.pos())),
{
    let (rest, found) = preceded("AS", identifier, input, Ghost(identifier_rule()))?;
    match found {
        Some(alias) => Ok((rest, Some(alias))),
        None => opt(identifier, input, Ghost(identifier_rule())),
    }
}

/// Parses a table name.
pub fn table_name<'a>(input: Input<'a>) -> (r: IResult<'a, TableName>)
    ensures
        agrees(r, input, spec_table_name(input.text(), input.pos())),
{
    let (rest, first) = identifier(input)?;
    match symbol(rest, '.') {
        None => Ok((rest, TableName { database: None, table: first })),
        Some(after) => {
            let (end, second) = identifier(after)?;
            Ok((end, TableName { database: Some(first), table: second }))
        },
    }
}

/// Parses a named table with its optional alias.
pub fn base_table<'a>(input: Input<'a>) -> (r: IResult<'a, TableRef>)
    ensures
        agrees(r, input, spec_base_table(input.text(), input.pos())),
{
    let (rest, name) = table_name(input)?;
    let (end, alias) = table_alias(rest)?;
    Ok((end, TableRef::BaseTable { name, alias }))
}

/// Parses a window definition.
pub fn named_window_definition<'a>(input: Input<'a>) -> (r: IResult<'a, NamedWindowDef>)
    ensures
        agrees(r, input, spec_named_window(input.text(), input.pos())),
{
    let (rest, name) = identifier(input)?;
    match keyword(rest, "AS") {
        None => Err(PError::at("expected AS", rest.skip_trivia())),
        Some(after) => {
            let (end, spec) = delimited(
                '(',
                parse_window_spec,
                ')',
                after,
                Ghost(window_spec_rule()),
            )?;
            Ok((end, NamedWindowDef { name, spec }))
        },
    }
}

/// Parses one or more window definitions separated by commas.
pub fn window_list<'a>(input: Input<'a>) -> (r: IResult<'a, Vec<NamedWindowDef>>)
    ensures
        agrees(r, input, spec_window_list(input.text(), input.pos())),
{
    separated_list(named_window_definition, ',', input, Ghost(named_window_rule()))
}

/// Parses the clauses behind `FROM`.
pub fn clauses<'a>(input: Input<'a>) -> (r: IResult<
    'a,
    (Option<Expr>, Vec<Expr>, Option<Expr>, Vec<NamedWindowDef>),
>)
    ensures
        agrees(r, input, spec_clauses(input.text(), input.pos())),
{
    let (rest, selection) = preceded("WHERE", parse_expr, input, Ghost(expr_rule()))?;
    let (rest, group_by) = parse_by_list("GROUP", rest)?;
    let (rest, having) = preceded("HAVING", parse_expr, rest, Ghost(expr_rule()))?;
    let (rest, windows) = preceded("WINDOW", window_list, rest, Ghost(window_list_rule()))?;
    let named_windows = match windows {
        Some(list) => list,
        None => Vec::new(),
    };
    proof {
        assert(named_windows.deep_view() =~= list_or_empty(windows.deep_view()));
    }
    Ok((rest, (selection, group_by, having, named_windows)))
}

/// Parses the start of a query: `SELECT`, `DISTINCT` and the projection.
pub fn projection<'a>(input: Input<'a>) -> (r: IResult<'a, (bool, Vec<SelectItem>)>)
    ensures
        agrees(r, input, spec_projection(input.text(), input.pos())),
{
    match keyword(input, "SELECT") {
        None => Err(PError::at("expected SELECT", input.skip_trivia())),
        Some(after) => {
            let (rest, distinct) = match keyword(after, "DISTINCT") {
                Some(rest) => (rest, true),
                None => (after, false),
            };
            let (end, items) = separated_list(select_item, ',', rest, Ghost(select_item_rule()))?;
            Ok((end, (distinct, items)))
        },
    }
}

/// Parses a subquery as a table reference. `depth` is the number of
/// nested queries still allowed.
pub fn subquery<'a>(input: Input<'a>, depth: usize) -> (r: IResult<'a, TableRef>)
    ensures
        agrees(r, input, spec_subquery(input.text(), input.pos(), depth as nat)),
    decreases depth, 0nat,
{
    if depth == 0 {
        return Err(PError::at("query nesting too deep", input.skip_trivia()));
    }
    match symbol(input, '(') {
        None => missing_symbol('(', input),
        Some(inside) => {
            let (rest, body) = select_statement(inside, depth - 1)?;
            match symbol(rest, ')') {
                None => missing_symbol(')', rest),
                Some(after) => {
                    let (end, alias) = table_alias(after)?;
                    Ok(
                        (
                            end,
                            TableRef::Subquery {
                                subquery: Box::new(SelectStatement { body }),
                                alias,
                            },
                        ),
                    )
                },
            }
        },
    }
}

/// Parses a table reference: a subquery or, failing that, a named table.
pub fn table_reference<'a>(input: Input<'a>, depth: usize) -> (r: IResult<'a, TableRef>)
    ensures
        agrees(r, input, spec_table_ref(input.text(), input.pos(), depth as nat)),
    decreases depth, 1nat,
{
    match subquery(input, depth) {
        Ok(found) => Ok(found),
        Err(_) => base_table(input),
    }
}

/// Parses the optional `FROM` clause.
pub fn from_clause<'a>(input: Input<'a>, depth: usize) -> (r: IResult<'a, Option<TableRef>>)
    ensures
        agrees(r, input, spec_from(input.text(), input.pos(), depth as nat)),
    decreases depth, 2nat,
{
    proof {
        use_type_invariant(&input);
        input.lemma_in_bounds();
    }
    match keyword(input, "FROM") {
        None => Ok((input, None)),
        Some(after) => {
            let (rest, table) = table_reference(after, depth)?;
            Ok((rest, Some(table)))
        },
    }
}

/// Parses a query body. `depth` is the number of nested queries allowed
/// inside it.
pub fn select_statement<'a>(input: Input<'a>, depth: usize) -> (r: IResult<'a, SetExpr>)
    ensures
        agrees(r, input, spec_select(input.text(), input.pos(), depth as nat)),
    decreases depth, 3nat,
{
    let (rest, (distinct, projection)) = projection(input)?;
    let (rest, from) = from_clause(rest, depth)?;
    let (rest, (selection, group_by, having, named_windows)) = clauses(rest)?;
    Ok(
        (
            rest,
            SetExpr::Select {
                distinct,
                projection,
                from,
                selection,
                group_by,
                having,
                named_windows,
            },
        ),
    )
}

} // verus!
