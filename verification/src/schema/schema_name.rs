use vstd::prelude::*;

use crate::schema::schema_index::SchemaIndex;

verus! {

/// Fully-qualified names of parts of Schema.
pub trait SchemaName: Clone {
    /// Whether the attr part of an index matches to this name.
    spec fn spec_attr_matches(&self, attr: Seq<char>) -> bool;

    /// Whether both the attr part and prefix part of an index match to this name.
    spec fn spec_prefix_attr_match(&self, prefix: Seq<char>, attr: Seq<char>) -> bool;

    /// Whether the attr part of index matches to this name.
    fn _attr_matches(&self, attr: &str) -> (r: bool)
        ensures
            r == self.spec_attr_matches(attr@),
    ;

    /// Whether both the attr part and prefix part of index match to this name.
    fn _prefix_attr_match(&self, prefix: &str, attr: &str) -> (r: bool)
        ensures
            r == self.spec_prefix_attr_match(prefix@, attr@),
    ;

    /// Whether the index matches to this name.
    fn matches(&self, index: &SchemaIndex) -> (r: bool)
        ensures
            r == (match index@.prefix {
                Some(p) => self.spec_prefix_attr_match(p, index@.attr),
                None => self.spec_attr_matches(index@.attr),
            }),
    {
        match index.prefix() {
            Some(prefix) => self._prefix_attr_match(prefix, index.attr()),
            None => self._attr_matches(index.attr()),
        }
    }
}

/// Whether `index` matches to `name`: both parts when the index has a prefix, else its attr part.
pub open spec fn name_matches<N: SchemaName>(name: N, index: SchemaIndex) -> bool {
    match index@.prefix {
        Some(p) => name.spec_prefix_attr_match(p, index@.attr),
        None => name.spec_attr_matches(index@.attr),
    }
}

} // verus!
