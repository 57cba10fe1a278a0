//! Names of fields in records.
use vstd::prelude::*;

use crate::names::{AliasName, ColumnName, CorrelationName, FieldAlias};
use crate::schema::schema_index::SchemaIndex;
use crate::schema::schema_name::{name_matches, SchemaName};
use crate::text::{str_equal, string_of};

verus! {

/// A correlation (table, or subquery) with its optional alias.
#[derive(Eq, PartialEq, Ord, PartialOrd, Hash, Debug)]
pub struct AliasedCorrelationName {
    /// Name of the correlation.
    pub correlation_name: CorrelationName,
    /// Alias of the correlation.
    pub alias: Option<AliasName>,
}

/// Name of a field: a column of a correlation.
#[derive(Eq, PartialEq, Ord, PartialOrd, Hash, Debug)]
pub struct FieldName {
    /// Correlation that the field belongs to.
    pub correlation: AliasedCorrelationName,
    /// Column name.
    pub attribute: ColumnName,
}

/// A field name with its optional alias.
///
/// Given `SELECT c1, ta.c2 AS c2a FROM t AS ta`, the first field is matched by the indexes `c1`,
/// `t.c1` and `ta.c1`; the second by `c2`, `t.c2`, `ta.c2` and `c2a`.
#[derive(Eq, PartialEq, Ord, PartialOrd, Hash, Debug)]
pub struct AliasedFieldName {
    /// Field name.
    pub field_name: FieldName,
    /// Alias of the field.
    pub field_alias: Option<FieldAlias>,
}

impl Clone for AliasedCorrelationName {
    fn clone(&self) -> (r: Self)
        ensures
            r == *self,
    {
        AliasedCorrelationName {
            correlation_name: self.correlation_name.clone(),
            alias: match &self.alias {
                Some(a) => Some(a.clone()),
                None => None,
            },
        }
    }
}

impl Clone for FieldName {
    fn clone(&self) -> (r: Self)
        ensures
            r == *self,
    {
        FieldName { correlation: self.correlation.clone(), attribute: self.attribute.clone() }
    }
}

impl Clone for AliasedFieldName {
    fn clone(&self) -> (r: Self)
        ensures
            r == *self,
    {
        AliasedFieldName {
            field_name: self.field_name.clone(),
            field_alias: match &self.field_alias {
                Some(a) => Some(a.clone()),
                None => None,
            },
        }
    }
}

impl AliasedCorrelationName {
    /// Whether `prefix` names this correlation: its name or its alias.
    pub open spec fn spec_named(self, prefix: Seq<char>) -> bool {
        prefix == self.correlation_name@ || (self.alias matches Some(a) && prefix == a@)
    }

    /// Whether `prefix` names this correlation: its name or its alias.
    pub fn named(&self, prefix: &str) -> (r: bool)
        ensures
            r == self.spec_named(prefix@),
    {
        str_equal(prefix, self.correlation_name.as_str()) || match &self.alias {
            Some(a) => str_equal(prefix, a.as_str()),
            None => false,
        }
    }
}

impl AliasedFieldName {
    /// Constructor.
    pub fn new(field_name: FieldName, field_alias: Option<FieldAlias>) -> (r: Self)
        ensures
            r.field_name == field_name,
            r.field_alias == field_alias,
    {
        AliasedFieldName { field_name, field_alias }
    }

    /// The index `correlation_name.column_name` of this field.
    pub open spec fn spec_to_schema_index(self) -> crate::schema::schema_index::SchemaIndexView {
        crate::schema::schema_index::SchemaIndexView {
            prefix: Some(self.field_name.correlation.correlation_name@),
            attr: self.field_name.attribute@,
        }
    }

    /// The index `correlation_name.column_name` of this field.
    pub fn to_schema_index(&self) -> (r: SchemaIndex)
        ensures
            r@ == self.spec_to_schema_index(),
    {
        SchemaIndex::new(
            Some(string_of(self.field_name.correlation.correlation_name.as_str())),
            string_of(self.field_name.attribute.as_str()),
        )
    }
}

impl SchemaName for AliasedFieldName {
    /// An index without prefix matches the column name or the field alias.
    open spec fn spec_attr_matches(&self, attr: Seq<char>) -> bool {
        attr == self.field_name.attribute@ || (self.field_alias matches Some(a) && attr == a@)
    }

    /// An index with prefix matches when the prefix names the correlation (its name or its alias)
    /// and the attr is the column name.
    open spec fn spec_prefix_attr_match(&self, prefix: Seq<char>, attr: Seq<char>) -> bool {
        self.field_name.correlation.spec_named(prefix) && attr == self.field_name.attribute@
    }

    fn _attr_matches(&self, attr: &str) -> (r: bool) {
        str_equal(attr, self.field_name.attribute.as_str()) || match &self.field_alias {
            Some(a) => str_equal(attr, a._as_str()),
            None => false,
        }
    }

    fn _prefix_attr_match(&self, prefix: &str, attr: &str) -> (r: bool) {
        self.field_name.correlation.named(prefix) && str_equal(attr, self.field_name.attribute.as_str())
    }
}

/// Law: an index with a prefix matches a field only when its attr is the field's column name and
/// its prefix names the field's correlation (by name or alias); without a prefix, when its attr is
/// the column name or the field alias.
pub proof fn lemma_aliased_field_name_matches(n: AliasedFieldName, idx: SchemaIndex)
    ensures
        (idx@.prefix matches Some(p) ==> (name_matches(n, idx) <==> (idx@.attr == n.field_name.attribute@
            && (p == n.field_name.correlation.correlation_name@ || (n.field_name.correlation.alias matches Some(
        a) && p == a@))))),
        idx@.prefix is None ==> (name_matches(n, idx) <==> (idx@.attr == n.field_name.attribute@ || (
        n.field_alias matches Some(a) && idx@.attr == a@))),
{
}

} // verus!
