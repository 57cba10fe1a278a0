//! FROM items of SELECT.
use vstd::prelude::*;

use crate::expression::Expression;
use crate::names::{AliasName, TableName};

verus! {

/// Table name with (optional) alias.
#[derive(Eq, PartialEq, Ord, PartialOrd, Hash, Debug)]
pub struct TableWithAlias {
    /// table name
    pub table_name: TableName,
    /// alias
    pub alias: Option<AliasName>,
}

impl Clone for TableWithAlias {
    fn clone(&self) -> (r: Self)
        ensures
            r == *self,
    {
        TableWithAlias {
            table_name: self.table_name.clone(),
            alias: match &self.alias {
                Some(a) => Some(a.clone()),
                None => None,
            },
        }
    }
}

impl TableWithAlias {
    /// Constructor.
    pub fn new(table_name: TableName, alias: Option<AliasName>) -> (r: Self)
        ensures
            r.table_name == table_name,
            r.alias == alias,
    {
        TableWithAlias { table_name, alias }
    }
}

/// JOIN type
#[derive(Clone, Copy, Eq, PartialEq, Ord, PartialOrd, Hash, Debug, Structural)]
pub enum JoinType {
    /// INNER JOIN
    InnerJoin,
}

/// FROM ...
#[derive(PartialEq, Debug)]
pub enum FromItem {
    /// T (AS TA)?
    TableVariant(TableWithAlias),
    /// T (AS TA)? INNER JOIN ... ON ...
    JoinVariant {
        /// join type
        join_type: JoinType,
        /// T
        left: Box<FromItem>,
        /// ...
        right: Box<FromItem>,
        /// ...
        on: Expression,
    },
}

impl FromItem {
    /// The tables of this FROM item, left to right.
    pub open spec fn spec_tables(self) -> Seq<TableWithAlias>
        decreases self,
    {
        match self {
            FromItem::TableVariant(t) => seq![t],
            FromItem::JoinVariant { left, right, .. } => left.spec_tables() + right.spec_tables(),
        }
    }

    /// The tables of this FROM item, left to right.
    pub fn tables(&self) -> (r: Vec<TableWithAlias>)
        ensures
            r@ == self.spec_tables(),
        decreases self,
    {
        match self {
            FromItem::TableVariant(table_with_alias) => {
                let mut v = Vec::new();
                v.push(table_with_alias.clone());
                assert(v@ =~= seq![*table_with_alias]);
                v
            },
            FromItem::JoinVariant { left, right, .. } => {
                let mut left_tables = (**left).tables();
                let mut right_tables = (**right).tables();
                left_tables.append(&mut right_tables);
                left_tables
            },
        }
    }
}

} // verus!
