use vstd::prelude::*;

use crate::names::{ColumnName, TableName};
use crate::schema::schema_index::SchemaIndex;
use crate::schema::schema_name::{name_matches, SchemaName};
use crate::text::str_equal;

verus! {

/// Full name in storage-engine: `TableName . ColumnName`.
#[derive(Eq, PartialEq, Ord, PartialOrd, Hash, Debug)]
pub struct TableColumnName {
    /// Table name.
    pub table: TableName,
    /// Column name.
    pub column: ColumnName,
}

impl Clone for TableColumnName {
    fn clone(&self) -> (r: Self)
        ensures
            r == *self,
    {
        TableColumnName { table: self.table.clone(), column: self.column.clone() }
    }
}

impl TableColumnName {
    /// Constructor.
    pub fn new(table: TableName, column: ColumnName) -> (r: Self)
        ensures
            r.table == table,
            r.column == column,
    {
        TableColumnName { table, column }
    }
}

impl SchemaName for TableColumnName {
    /// An index without prefix matches the column name.
    open spec fn spec_attr_matches(&self, attr: Seq<char>) -> bool {
        attr == self.column@
    }

    /// An index with prefix matches the table name and the column name.
    open spec fn spec_prefix_attr_match(&self, prefix: Seq<char>, attr: Seq<char>) -> bool {
        prefix == self.table@ && attr == self.column@
    }

    fn _attr_matches(&self, attr: &str) -> (r: bool) {
        str_equal(attr, self.column.as_str())
    }

    fn _prefix_attr_match(&self, prefix: &str, attr: &str) -> (r: bool) {
        str_equal(prefix, self.table.as_str()) && str_equal(attr, self.column.as_str())
    }
}

/// Law: an index matches a table column name exactly when its attr is the column name and its
/// prefix, if any, is the table name.
pub proof fn lemma_table_column_name_matches(n: TableColumnName, idx: SchemaIndex)
    ensures
        name_matches(n, idx) <==> (idx@.attr == n.column@ && (idx@.prefix matches Some(p) ==> p == n.table@)),
{
}

} // verus!
