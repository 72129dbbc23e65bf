//! The statement that encloses a query body.
use vstd::prelude::*;
use crate::ast::set_expr::{SetExpr, SetExprModel};

verus! {

/// A complete `SELECT` statement, as it appears nested in a table reference.
#[derive(Debug)]
pub struct SelectStatement {
    pub body: SetExpr,
}

/// The model of a [`SelectStatement`].
pub struct SelectStatementModel {
    pub body: SetExprModel,
}

impl SelectStatementModel {
    /// The canonical text of the statement: that of its body.
    pub open spec fn render(self) -> Seq<char>
        decreases self,
    {
        self.body.render()
    }
}

impl View for SelectStatement {
    type V = SelectStatementModel;

    open spec fn view(&self) -> SelectStatementModel {
        self.model()
    }
}

impl DeepView for SelectStatement {
    type V = SelectStatementModel;

    open spec fn deep_view(&self) -> SelectStatementModel {
        self@
    }
}

impl SelectStatement {
    /// The model of the statement.
    pub open spec fn model(self) -> SelectStatementModel
        decreases self,
    {
        SelectStatementModel { body: self.body.model() }
    }

    /// The canonical text of the statement.
    pub fn to_text(&self) -> (s: String)
        ensures
            s@ == self@.render(),
        decreases self,
    {
        self.body.to_text()
    }
}

impl Clone for SelectStatement {
    fn clone(&self) -> (r: Self)
        ensures
            r@ == self@,
        decreases self,
    {
        SelectStatement { body: self.body.clone() }
    }
}

} // verus!
