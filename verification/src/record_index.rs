use vstd::prelude::*;
use vstd::std_specs::convert::FromSpecImpl;

use crate::schema::r_pos::RPos;
use crate::schema::schema_index::{is_index_text, parse_index, SchemaIndex};

verus! {

/// Matcher to [AliasedFieldName](crate::field::AliasedFieldName): a name, with an optional correlation
/// prefix, to get a value from a record.
pub type NamedRecordIndex = SchemaIndex;

/// Key to extract an SqlValue from a Record.
#[derive(Eq, PartialEq, Ord, PartialOrd, Hash, Debug)]
pub enum RecordIndex {
    /// 0-origin index
    Pos(RPos),
    /// Fuzzy reference to a field.
    ///
    /// Given the following SQL:
    ///
    /// ```sql
    /// SELECT c1, ta.c2 AS c2a FROM t AS ta;
    /// ```
    ///
    /// First field can be extracted either by `"c1"`, `"t.c1"` or `"ta.c1"`,
    /// and second can be by `"c2"`, `"t.c2"`, `"ta.c2"` or `"c2a"`.
    Name(NamedRecordIndex),
}

impl From<usize> for RecordIndex {
    fn from(raw_pos: usize) -> (r: Self) {
        Self::Pos(RPos::new(raw_pos))
    }
}

impl FromSpecImpl<usize> for RecordIndex {
    open spec fn obeys_from_spec() -> bool {
        true
    }

    open spec fn from_spec(raw_pos: usize) -> Self {
        RecordIndex::Pos(RPos::spec_new(raw_pos))
    }
}

impl RecordIndex {
    /// Index by name, from "correlation.attr" or "attr".
    pub fn from_name(s: &str) -> (r: Self)
        requires
            is_index_text(s@),
        ensures
            r matches RecordIndex::Name(idx) && idx@ == parse_index(s@),
    {
        Self::Name(SchemaIndex::from(s))
    }
}

} // verus!
