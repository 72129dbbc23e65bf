//! Scalar expressions and window specifications.
use vstd::prelude::*;
use crate::ast::Ident;
use crate::text::{join, join_texts};

verus! {

/// A scalar expression.
#[derive(Debug)]
pub enum Expr {
    /// A column or other named value.
    Identifier(Ident),
    /// An unsigned integer literal, kept as its digits.
    Number(String),
}

/// The model of an [`Expr`].
pub enum ExprModel {
    Identifier(Seq<char>),
    Number(Seq<char>),
}

impl ExprModel {
    /// The canonical text of the expression.
    pub open spec fn render(self) -> Seq<char> {
        match self {
            ExprModel::Identifier(name) => name,
            ExprModel::Number(digits) => digits,
        }
    }
}

impl View for Expr {
    type V = ExprModel;

    open spec fn view(&self) -> ExprModel {
        match self {
            Expr::Identifier(id) => ExprModel::Identifier(id@),
            Expr::Number(digits) => ExprModel::Number(digits@),
        }
    }
}

impl DeepView for Expr {
    type V = ExprModel;

    open spec fn deep_view(&self) -> ExprModel {
        self@
    }
}

impl Clone for Expr {
    fn clone(&self) -> (r: Self)
        ensures
            r@ == self@,
    {
        let r = match self {
            Expr::Identifier(id) => Expr::Identifier(id.clone()),
            Expr::Number(digits) => Expr::Number(digits.clone()),
        };
        r
    }
}

impl Expr {
    /// The canonical text of the expression.
    pub fn to_text(&self) -> (s: String)
        ensures
            s@ == self@.render(),
    {
        match self {
            Expr::Identifier(id) => id.to_text(),
            Expr::Number(digits) => digits.clone(),
        }
    }
}

/// The canonical texts of a sequence of expression models.
pub open spec fn render_exprs(v: Seq<ExprModel>) -> Seq<char> {
    join(v.map_values(|m: ExprModel| m.render()), ", "@)
}

/// Renders expressions separated by `", "`.
pub fn exprs_to_text(items: &Vec<Expr>) -> (s: String)
    ensures
        s@ == render_exprs(items.deep_view()),
{
    let s = join_texts(items, Expr::to_text, ", ", Ghost(|x: Expr| x@.render()));
    proof {
        assert(items@.map_values(|x: Expr| x@.render()) =~= items.deep_view().map_values(
            |m: ExprModel| m.render(),
        ));
    }
    s
}

/// The body of a window definition: how rows are partitioned and ordered.
#[derive(Debug)]
pub struct WindowSpec {
    pub partition_by: Vec<Expr>,
    pub order_by: Vec<Expr>,
}

/// The model of a [`WindowSpec`].
pub struct WindowSpecModel {
    pub partition_by: Seq<ExprModel>,
    pub order_by: Seq<ExprModel>,
}

impl WindowSpecModel {
    /// The canonical text: the `PARTITION BY` clause, then the `ORDER BY`
    /// clause, each present only when its list is non-empty.
    pub open spec fn render(self) -> Seq<char> {
        let partition = if self.partition_by.len() > 0 {
            "PARTITION BY "@ + render_exprs(self.partition_by)
        } else {
            Seq::empty()
        };
        let order = if self.order_by.len() > 0 {
            "ORDER BY "@ + render_exprs(self.order_by)
        } else {
            Seq::empty()
        };
        if self.partition_by.len() > 0 && self.order_by.len() > 0 {
            partition + " "@ + order
        } else {
            partition + order
        }
    }
}

impl View for WindowSpec {
    type V = WindowSpecModel;

    open spec fn view(&self) -> WindowSpecModel {
        WindowSpecModel {
            partition_by: self.partition_by.deep_view(),
            order_by: self.order_by.deep_view(),
        }
    }
}

impl DeepView for WindowSpec {
    type V = WindowSpecModel;

    open spec fn deep_view(&self) -> WindowSpecModel {
        self@
    }
}

impl Clone for WindowSpec {
    fn clone(&self) -> (r: Self)
        ensures
            r@ == self@,
    {
        let r = WindowSpec {
            partition_by: self.partition_by.clone(),
            order_by: self.order_by.clone(),
        };
        proof {
            assert(r.partition_by.deep_view() =~= self.partition_by.deep_view());
            assert(r.order_by.deep_view() =~= self.order_by.deep_view());
        }
        r
    }
}

impl WindowSpec {
    /// The canonical text of the window specification.
    pub fn to_text(&self) -> (s: String)
        ensures
            s@ == self@.render(),
    {
        let mut out = String::new();
        if !self.partition_by.is_empty() {
            out.append("PARTITION BY ");
            let list = exprs_to_text(&self.partition_by);
            out.append(list.as_str());
        }
        if !self.order_by.is_empty() {
            if !self.partition_by.is_empty() {
                out.append(" ");
            }
            out.append("ORDER BY ");
            let list = exprs_to_text(&self.order_by);
            out.append(list.as_str());
        }
        proof {
            assert(out@ =~= self@.render());
        }
        out
    }
}

} // verus!
