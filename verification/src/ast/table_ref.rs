//! Table names and the single term of a `FROM` clause.
use vstd::prelude::*;
use crate::ast::Ident;
use crate::ast::statement::{SelectStatement, SelectStatementModel};

verus! {

/// A table name, optionally qualified by its database.
#[derive(Debug)]
pub struct TableName {
    pub database: Option<Ident>,
    pub table: Ident,
}

/// The model of a [`TableName`].
pub struct TableNameModel {
    pub database: Option<Seq<char>>,
    pub table: Seq<char>,
}

impl TableNameModel {
    /// `database.table`, or `table` alone.
    pub open spec fn render(self) -> Seq<char> {
        match self.database {
            Some(database) => database + "."@ + self.table,
            None => self.table,
        }
    }
}

impl View for TableName {
    type V = TableNameModel;

    open spec fn view(&self) -> TableNameModel {
        TableNameModel {
            database: self.database.deep_view(),
            table: self.table@,
        }
    }
}

impl DeepView for TableName {
    type V = TableNameModel;

    open spec fn deep_view(&self) -> TableNameModel {
        self@
    }
}

impl Clone for TableName {
    fn clone(&self) -> (r: Self)
        ensures
            r@ == self@,
    {
        let r = TableName { database: self.database.clone(), table: self.table.clone() };
        r
    }
}

impl TableName {
    /// The canonical text of the name.
    pub fn to_text(&self) -> (s: String)
        ensures
            s@ == self@.render(),
    {
        let mut out = String::new();
        if let Some(database) = &self.database {
            out.append(database.value.as_str());
            out.append(".");
        }
        out.append(self.table.value.as_str());
        proof {
            assert(out@ =~= self@.render());
        }
        out
    }
}

/// The text of an optional alias: `" AS "` and the alias, or nothing.
pub open spec fn render_alias(alias: Option<Seq<char>>) -> Seq<char> {
    match alias {
        Some(alias) => " AS "@ + alias,
        None => Seq::empty(),
    }
}

/// What a query selects from: a named table or a parenthesized subquery.
#[derive(Debug)]
pub enum TableRef {
    BaseTable { name: TableName, alias: Option<Ident> },
    Subquery { subquery: Box<SelectStatement>, alias: Option<Ident> },
}

/// The model of a [`TableRef`].
pub enum TableRefModel {
    BaseTable { name: TableNameModel, alias: Option<Seq<char>> },
    Subquery { subquery: Box<SelectStatementModel>, alias: Option<Seq<char>> },
}

impl TableRefModel {
    /// The canonical text: one `FROM` term, a subquery always in parentheses.
    pub open spec fn render(self) -> Seq<char>
        decreases self,
    {
        match self {
            TableRefModel::BaseTable { name, alias } => name.render() + render_alias(alias),
            TableRefModel::Subquery { subquery, alias } => "("@ + subquery.render() + ")"@
                + render_alias(alias),
        }
    }
}

impl View for TableRef {
    type V = TableRefModel;

    open spec fn view(&self) -> TableRefModel {
        self.model()
    }
}

impl DeepView for TableRef {
    type V = TableRefModel;

    open spec fn deep_view(&self) -> TableRefModel {
        self@
    }
}

impl TableRef {
    /// The model of the table reference.
    pub open spec fn model(self) -> TableRefModel
        decreases self,
    {
        match self {
            TableRef::BaseTable { name, alias } => TableRefModel::BaseTable {
                name: name@,
                alias: alias.deep_view(),
            },
            TableRef::Subquery { subquery, alias } => TableRefModel::Subquery {
                subquery: Box::new((*subquery).model()),
                alias: alias.deep_view(),
            },
        }
    }

    /// The canonical text of the table reference.
    pub fn to_text(&self) -> (s: String)
        ensures
            s@ == self@.render(),
        decreases self,
    {
        let mut out = String::new();
        let alias = match self {
            TableRef::BaseTable { name, alias } => {
                let text = name.to_text();
                out.append(text.as_str());
                alias
            },
            TableRef::Subquery { subquery, alias } => {
                out.append("(");
                let text = subquery.to_text();
                out.append(text.as_str());
                out.append(")");
                alias
            },
        };
        if let Some(alias) = alias {
            out.append(" AS ");
            out.append(alias.value.as_str());
        }
        proof {
            assert(out@ =~= self@.render());
        }
        out
    }
}

impl Clone for TableRef {
    fn clone(&self) -> (r: Self)
        ensures
            r@ == self@,
        decreases self,
    {
        match self {
            TableRef::BaseTable { name, alias } => TableRef::BaseTable {
                name: name.clone(),
                alias: alias.clone(),
            },
            TableRef::Subquery { subquery, alias } => TableRef::Subquery {
                subquery: Box::new(SelectStatement { body: subquery.body.clone() }),
                alias: alias.clone(),
            },
        }
    }
}

} // verus!
