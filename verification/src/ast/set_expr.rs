//! The body of a query and the items of its clauses.
use vstd::prelude::*;
use crate::ast::{idents_to_text, Ident};
use crate::ast::expr::{exprs_to_text, render_exprs, Expr, ExprModel, WindowSpec, WindowSpecModel};
use crate::ast::table_ref::{TableRef, TableRefModel};
use crate::text::{join, join_texts};

verus! {

/// The columns that narrow a `*` projection.
#[derive(Debug)]
pub struct WildcardOptions {
    pub exclude: Vec<Ident>,
    pub except: Vec<Ident>,
}

/// The model of a [`WildcardOptions`].
pub struct WildcardOptionsModel {
    pub exclude: Seq<Seq<char>>,
    pub except: Seq<Seq<char>>,
}

impl WildcardOptionsModel {
    /// The `EXCLUDE` clause: absent for no column, bare for one column,
    /// parenthesized for several.
    pub open spec fn render_exclude(self) -> Seq<char> {
        if self.exclude.len() == 0 {
            Seq::empty()
        } else if self.exclude.len() == 1 {
            " EXCLUDE "@ + self.exclude[0]
        } else {
            " EXCLUDE ("@ + join(self.exclude, ", "@) + ")"@
        }
    }

    /// The `EXCEPT` clause: absent for no column, else always parenthesized.
    pub open spec fn render_except(self) -> Seq<char> {
        if self.except.len() == 0 {
            Seq::empty()
        } else {
            " EXCEPT ("@ + join(self.except, ", "@) + ")"@
        }
    }

    /// The canonical text: the star, then the two clauses.
    pub open spec fn render(self) -> Seq<char> {
        "*"@ + self.render_exclude() + self.render_except()
    }
}

/// The cardinality rule of the two clauses: `EXCLUDE` stands bare before
/// one column and in parentheses before several; `EXCEPT` stands in
/// parentheses also before one column.
pub proof fn lemma_wildcard_cardinality(x: Seq<char>, y: Seq<char>)
    ensures
        (WildcardOptionsModel { exclude: seq![x], except: seq![] }).render() == "*"@
            + " EXCLUDE "@ + x,
        (WildcardOptionsModel { exclude: seq![x, y], except: seq![] }).render() == "*"@
            + " EXCLUDE ("@ + x + ", "@ + y + ")"@,
        (WildcardOptionsModel { exclude: seq![], except: seq![x] }).render() == "*"@
            + " EXCEPT ("@ + x + ")"@,
{
    let none = Seq::<Seq<char>>::empty();
    let nothing = Seq::<char>::empty();
    assert(seq![x].skip(1) =~= none);
    assert(seq![x, y].skip(1) =~= seq![y]);
    assert(seq![y].skip(1) =~= none);
    assert(crate::text::join_rest(none, ", "@) =~= nothing);
    assert(crate::text::join_rest(seq![y], ", "@) =~= ", "@ + y);
    assert(join(seq![x], ", "@) =~= x);
    assert(join(seq![x, y], ", "@) =~= x + ", "@ + y);
    let one = WildcardOptionsModel { exclude: seq![x], except: seq![] };
    let two = WildcardOptionsModel { exclude: seq![x, y], except: seq![] };
    let other = WildcardOptionsModel { exclude: seq![], except: seq![x] };
    assert(one.render() =~= "*"@ + " EXCLUDE "@ + x);
    assert(two.render() =~= "*"@ + " EXCLUDE ("@ + x + ", "@ + y + ")"@);
    assert(other.render() =~= "*"@ + " EXCEPT ("@ + x + ")"@);
}

impl View for WildcardOptions {
    type V = WildcardOptionsModel;

    open spec fn view(&self) -> WildcardOptionsModel {
        WildcardOptionsModel {
            exclude: self.exclude.deep_view(),
            except: self.except.deep_view(),
        }
    }
}

impl DeepView for WildcardOptions {
    type V = WildcardOptionsModel;

    open spec fn deep_view(&self) -> WildcardOptionsModel {
        self@
    }
}

impl Clone for WildcardOptions {
    fn clone(&self) -> (r: Self)
        ensures
            r@ == self@,
    {
        let r = WildcardOptions { exclude: self.exclude.clone(), except: self.except.clone() };
        proof {
            assert(r.exclude.deep_view() =~= self.exclude.deep_view());
            assert(r.except.deep_view() =~= self.except.deep_view());
        }
        r
    }
}

impl WildcardOptions {
    /// The canonical text of the narrowed wildcard.
    pub fn to_text(&self) -> (s: String)
        ensures
            s@ == self@.render(),
    {
        let mut out = "*".to_string();
        if self.exclude.len() == 1 {
            out.append(" EXCLUDE ");
            out.append(self.exclude[0].value.as_str());
        } else if self.exclude.len() > 1 {
            out.append(" EXCLUDE (");
            let list = idents_to_text(&self.exclude);
            out.append(list.as_str());
            out.append(")");
        }
        if !self.except.is_empty() {
            out.append(" EXCEPT (");
            let list = idents_to_text(&self.except);
            out.append(list.as_str());
            out.append(")");
        }
        proof {
            assert(out@ =~= self@.render());
        }
        out
    }
}

/// One entry of a projection list.
#[derive(Debug)]
pub enum SelectItem {
    UnnamedExpr(Expr),
    ExprWithAlias { expr: Expr, alias: Ident },
    Wildcard(WildcardOptions),
}

/// The model of a [`SelectItem`].
pub enum SelectItemModel {
    UnnamedExpr(ExprModel),
    ExprWithAlias { expr: ExprModel, alias: Seq<char> },
    Wildcard(WildcardOptionsModel),
}

impl SelectItemModel {
    /// The canonical text of the projection term.
    pub open spec fn render(self) -> Seq<char> {
        match self {
            SelectItemModel::UnnamedExpr(expr) => expr.render(),
            SelectItemModel::ExprWithAlias { expr, alias } => expr.render() + " AS "@ + alias,
            SelectItemModel::Wildcard(options) => options.render(),
        }
    }
}

impl View for SelectItem {
    type V = SelectItemModel;

    open spec fn view(&self) -> SelectItemModel {
        match self {
            SelectItem::UnnamedExpr(expr) => SelectItemModel::UnnamedExpr(expr@),
            SelectItem::ExprWithAlias { expr, alias } => SelectItemModel::ExprWithAlias {
                expr: expr@,
                alias: alias@,
            },
            SelectItem::Wildcard(options) => SelectItemModel::Wildcard(options@),
        }
    }
}

impl DeepView for SelectItem {
    type V = SelectItemModel;

    open spec fn deep_view(&self) -> SelectItemModel {
        self@
    }
}

impl Clone for SelectItem {
    fn clone(&self) -> (r: Self)
        ensures
            r@ == self@,
    {
        let r = match self {
            SelectItem::UnnamedExpr(expr) => SelectItem::UnnamedExpr(expr.clone()),
            SelectItem::ExprWithAlias { expr, alias } => SelectItem::ExprWithAlias {
                expr: expr.clone(),
                alias: alias.clone(),
            },
            SelectItem::Wildcard(options) => SelectItem::Wildcard(options.clone()),
        };
        r
    }
}

impl SelectItem {
    /// The canonical text of the projection term.
    pub fn to_text(&self) -> (s: String)
        ensures
            s@ == self@.render(),
    {
        match self {
            SelectItem::UnnamedExpr(expr) => expr.to_text(),
            SelectItem::ExprWithAlias { expr, alias } => {
                let mut out = expr.to_text();
                out.append(" AS ");
                out.append(alias.value.as_str());
                out
            },
            SelectItem::Wildcard(options) => options.to_text(),
        }
    }
}

/// A window specification bound to a name by the `WINDOW` clause.
#[derive(Debug)]
pub struct NamedWindowDef {
    pub name: Ident,
    pub spec: WindowSpec,
}

/// The model of a [`NamedWindowDef`].
pub struct NamedWindowDefModel {
    pub name: Seq<char>,
    pub spec: WindowSpecModel,
}

impl NamedWindowDefModel {
    /// `name AS (spec)`.
    pub open spec fn render(self) -> Seq<char> {
        self.name + " AS ("@ + self.spec.render() + ")"@
    }
}

impl View for NamedWindowDef {
    type V = NamedWindowDefModel;

    open spec fn view(&self) -> NamedWindowDefModel {
        NamedWindowDefModel { name: self.name@, spec: self.spec@ }
    }
}

impl DeepView for NamedWindowDef {
    type V = NamedWindowDefModel;

    open spec fn deep_view(&self) -> NamedWindowDefModel {
        self@
    }
}

impl Clone for NamedWindowDef {
    fn clone(&self) -> (r: Self)
        ensures
            r@ == self@,
    {
        let r = NamedWindowDef { name: self.name.clone(), spec: self.spec.clone() };
        r
    }
}

impl NamedWindowDef {
    /// The canonical text of the definition.
    pub fn to_text(&self) -> (s: String)
        ensures
            s@ == self@.render(),
    {
        let mut out = self.name.to_text();
        out.append(" AS (");
        let body = self.spec.to_text();
        out.append(body.as_str());
        out.append(")");
        out
    }
}

/// The canonical text of a projection list.
pub open spec fn render_items(v: Seq<SelectItemModel>) -> Seq<char> {
    join(v.map_values(|m: SelectItemModel| m.render()), ", "@)
}

/// The canonical text of a list of window definitions.
pub open spec fn render_windows(v: Seq<NamedWindowDefModel>) -> Seq<char> {
    join(v.map_values(|m: NamedWindowDefModel| m.render()), ", "@)
}

/// A query body.
#[derive(Debug)]
pub enum SetExpr {
    Select {
        distinct: bool,
        projection: Vec<SelectItem>,
        from: Option<TableRef>,
        selection: Option<Expr>,
        group_by: Vec<Expr>,
        having: Option<Expr>,
        named_windows: Vec<NamedWindowDef>,
    },
}

/// The model of a [`SetExpr`].
pub enum SetExprModel {
    Select {
        distinct: bool,
        projection: Seq<SelectItemModel>,
        from: Option<TableRefModel>,
        selection: Option<ExprModel>,
        group_by: Seq<ExprModel>,
        having: Option<ExprModel>,
        named_windows: Seq<NamedWindowDefModel>,
    },
}

/// `keyword` and the expression's text, or nothing.
pub open spec fn render_clause(keyword: Seq<char>, e: Option<ExprModel>) -> Seq<char> {
    match e {
        Some(e) => keyword + e.render(),
        None => Seq::empty(),
    }
}

/// The start of a query: `SELECT`, `DISTINCT` if set, and the projection.
pub open spec fn render_projection(distinct: bool, projection: Seq<SelectItemModel>) -> Seq<char> {
    "SELECT "@ + (if distinct {
        "DISTINCT "@
    } else {
        Seq::empty()
    }) + render_items(projection)
}

/// The `GROUP BY` clause, or nothing for an empty list.
pub open spec fn render_group_by(group_by: Seq<ExprModel>) -> Seq<char> {
    if group_by.len() > 0 {
        " GROUP BY "@ + render_exprs(group_by)
    } else {
        Seq::empty()
    }
}

/// The `WINDOW` clause, or nothing for an empty list.
pub open spec fn render_window_clause(named_windows: Seq<NamedWindowDefModel>) -> Seq<char> {
    if named_windows.len() > 0 {
        " WINDOW "@ + render_windows(named_windows)
    } else {
        Seq::empty()
    }
}

/// The clauses behind `FROM`, each present only where it has content.
pub open spec fn render_clauses(
    selection: Option<ExprModel>,
    group_by: Seq<ExprModel>,
    having: Option<ExprModel>,
    named_windows: Seq<NamedWindowDefModel>,
) -> Seq<char> {
    render_clause(" WHERE "@, selection) + (render_group_by(group_by) + (render_clause(
        " HAVING "@,
        having,
    ) + render_window_clause(named_windows)))
}

impl SetExprModel {
    /// The `FROM` clause, or nothing without a table reference.
    pub open spec fn render_from(self) -> Seq<char>
        decreases self, 0nat,
    {
        match self {
            SetExprModel::Select { from: Some(from), .. } => " FROM "@ + from.render(),
            _ => Seq::empty(),
        }
    }

    /// The canonical text of the query body: `SELECT`, the projection, then
    /// each clause that is present, in their fixed order.
    pub open spec fn render(self) -> Seq<char>
        decreases self, 1nat,
    {
        match self {
            SetExprModel::Select {
                distinct,
                projection,
                from,
                selection,
                group_by,
                having,
                named_windows,
            } => render_projection(distinct, projection) + self.render_from() + render_clauses(
                selection,
                group_by,
                having,
                named_windows,
            ),
        }
    }
}

impl View for SetExpr {
    type V = SetExprModel;

    open spec fn view(&self) -> SetExprModel {
        self.model()
    }
}

impl DeepView for SetExpr {
    type V = SetExprModel;

    open spec fn deep_view(&self) -> SetExprModel {
        self@
    }
}

impl SetExpr {
    /// The model of the query body.
    pub open spec fn model(self) -> SetExprModel
        decreases self,
    {
        match self {
            SetExpr::Select {
                distinct,
                projection,
                from,
                selection,
                group_by,
                having,
                named_windows,
            } => SetExprModel::Select {
                distinct,
                projection: projection.deep_view(),
                from: match from {
                    Some(from) => Some(from.model()),
                    None => None,
                },
                selection: selection.deep_view(),
                group_by: group_by.deep_view(),
                having: having.deep_view(),
                named_windows: named_windows.deep_view(),
            },
        }
    }

    /// The canonical text of the query body.
    pub fn to_text(&self) -> (s: String)
        ensures
            s@ == self@.render(),
        decreases self,
    {
        match self {
            SetExpr::Select {
                distinct,
                projection,
                from,
                selection,
                group_by,
                having,
                named_windows,
            } => {
                let mut out = "SELECT ".to_string();
                out.append(if *distinct { "DISTINCT " } else { "" });
                let items = join_texts(
                    projection,
                    SelectItem::to_text,
                    ", ",
                    Ghost(|x: SelectItem| x@.render()),
                );
                proof {
                    reveal_strlit("");
                    assert(""@ =~= Seq::<char>::empty());
                    assert(projection@.map_values(|x: SelectItem| x@.render())
                        =~= projection.deep_view().map_values(|m: SelectItemModel| m.render()));
                }
                out.append(items.as_str());
                let from_clause = match from {
                    Some(from) => prefixed(" FROM ", from.to_text()),
                    None => String::new(),
                };
                out.append(from_clause.as_str());
                let mut tail = clause_to_text(" HAVING ", having);
                tail.append(window_clause_to_text(named_windows).as_str());
                let mut middle = if !group_by.is_empty() {
                    prefixed(" GROUP BY ", exprs_to_text(group_by))
                } else {
                    String::new()
                };
                middle.append(tail.as_str());
                let mut clauses = clause_to_text(" WHERE ", selection);
                clauses.append(middle.as_str());
                out.append(clauses.as_str());
                out
            },
        }
    }
}

/// Renders the `WINDOW` clause.
fn window_clause_to_text(named_windows: &Vec<NamedWindowDef>) -> (s: String)
    ensures
        s@ == render_window_clause(named_windows.deep_view()),
{
    if !named_windows.is_empty() {
        let list = join_texts(
            named_windows,
            NamedWindowDef::to_text,
            ", ",
            Ghost(|x: NamedWindowDef| x@.render()),
        );
        proof {
            assert(named_windows@.map_values(|x: NamedWindowDef| x@.render())
                =~= named_windows.deep_view().map_values(|m: NamedWindowDefModel| m.render()));
        }
        prefixed(" WINDOW ", list)
    } else {
        String::new()
    }
}

impl Clone for SetExpr {
    fn clone(&self) -> (r: Self)
        ensures
            r@ == self@,
        decreases self,
    {
        match self {
            SetExpr::Select {
                distinct,
                projection,
                from,
                selection,
                group_by,
                having,
                named_windows,
            } => {
                let r = SetExpr::Select {
                    distinct: *distinct,
                    projection: projection.clone(),
                    from: match from {
                        Some(table) => Some(table.clone()),
                        None => None,
                    },
                    selection: selection.clone(),
                    group_by: group_by.clone(),
                    having: having.clone(),
                    named_windows: named_windows.clone(),
                };
                proof {
                    assert(r->projection.deep_view() =~= projection.deep_view());
                    assert(r->group_by.deep_view() =~= group_by.deep_view());
                    assert(r->named_windows.deep_view() =~= named_windows.deep_view());
                }
                r
            },
        }
    }
}

/// `prefix` followed by `body`.
pub fn prefixed(prefix: &str, body: String) -> (s: String)
    ensures
        s@ == prefix@ + body@,
{
    let mut out = prefix.to_string();
    out.append(body.as_str());
    out
}

/// Renders an optional expression behind its clause keyword.
fn clause_to_text(keyword: &str, e: &Option<Expr>) -> (s: String)
    ensures
        s@ == render_clause(keyword@, e.deep_view()),
{
    match e {
        Some(e) => prefixed(keyword, e.to_text()),
        None => String::new(),
    }
}

} // verus!
