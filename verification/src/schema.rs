//! Schema: resolves the positions of fields / columns in records / rows by their names.
//!
//! While rows, used in storage-engine, consist of tables' column values,
//! records have higher level of fields like field references, constants, and operations.
//!
//! So a schema for rows consist of sequence of "table_name.column_name" but a schema for records may
//! include unnamed field.

pub mod r_pos;
pub mod schema_index;
pub mod schema_name;

use vstd::prelude::*;

use crate::error::kind::ApllodbErrorKind;
use crate::error::{result_view, ApllodbError, ApllodbErrorView, ApllodbResult};
use crate::schema::r_pos::RPos;
use crate::schema::schema_index::SchemaIndex;
use crate::schema::schema_name::{name_matches, SchemaName};
use vstd::pervasive::cloned;
use crate::text::{concat, string_of};

verus! {

/// The (position, name) pairs of `names` whose name matches `idx`, in order.
pub open spec fn matching_pairs<N: SchemaName>(names: Seq<(RPos, Option<N>)>, idx: SchemaIndex) -> Seq<
    (RPos, N),
>
    decreases names.len(),
{
    if names.len() == 0 {
        Seq::empty()
    } else {
        let rest = matching_pairs(names.drop_last(), idx);
        match names.last().1 {
            Some(name) => if name_matches(name, idx) {
                rest.push((names.last().0, name))
            } else {
                rest
            },
            None => rest,
        }
    }
}

/// What looking `idx` up in `names` gives: the one matching pair, or the error for none or for many.
pub open spec fn index_value<N: SchemaName>(names: Seq<(RPos, Option<N>)>, idx: SchemaIndex) -> Result<
    (RPos, N),
    ApllodbErrorView,
> {
    let m = matching_pairs(names, idx);
    if m.len() == 1 {
        Ok(m[0])
    } else if m.len() == 0 {
        Err(
            ApllodbErrorView {
                kind: ApllodbErrorKind::NameErrorNotFound,
                desc: "no field matches to: "@ + idx.spec_display(),
            },
        )
    } else {
        Err(
            ApllodbErrorView {
                kind: ApllodbErrorKind::AmbiguousColumn,
                desc: "more than 1 fields match to: "@ + idx.spec_display(),
            },
        )
    }
}

/// Whether `r` is what looking `idx` up in `names` gives: the one matching pair (its name cloned),
/// or the error for none or for many.
pub open spec fn is_index_result<N: SchemaName>(
    r: ApllodbResult<(RPos, N)>,
    names: Seq<(RPos, Option<N>)>,
    idx: SchemaIndex,
) -> bool {
    match (r, index_value(names, idx)) {
        (Ok(p), Ok(q)) => p.0 == q.0 && cloned(q.1, p.1),
        (Err(e), Err(f)) => e@ == f,
        _ => false,
    }
}

spec fn at_most_two(n: nat) -> nat {
    if n >= 2 {
        2
    } else {
        n
    }
}

/// Finds the pair of (RPos, Name) of a field/column specified by `idx` among `names`.
///
/// # Failures
///
/// - [NameErrorNotFound](ApllodbErrorKind::NameErrorNotFound) when:
///   - no field matches to this Index.
/// - [AmbiguousColumn](ApllodbErrorKind::AmbiguousColumn) when:
///   - more than 1 of fields match to this Index.
pub fn index_in<N: SchemaName>(names: &Vec<(RPos, Option<N>)>, idx: &SchemaIndex) -> (r: ApllodbResult<
    (RPos, N),
>)
    ensures
        is_index_result(r, names@, *idx),
{
    let mut found: Option<(RPos, N)> = None;
    let mut count: usize = 0;
    let mut i: usize = 0;
    assert(names@.take(0) =~= Seq::<(RPos, Option<N>)>::empty());
    while i < names.len()
        invariant
            i <= names@.len(),
            count == at_most_two(matching_pairs(names@.take(i as int), *idx).len()),
            count >= 1 ==> (found matches Some(f) && f.0 == matching_pairs(names@.take(i as int), *idx)[0].0
                && cloned(matching_pairs(names@.take(i as int), *idx)[0].1, f.1)),
        decreases names@.len() - i,
    {
        proof {
            assert(names@.take(i + 1).drop_last() =~= names@.take(i as int));
        }
        match &names[i].1 {
            Some(name) => {
                if name.matches(idx) {
                    if count == 0 {
                        found = Some((names[i].0, name.clone()));
                    }
                    if count < 2 {
                        count = count + 1;
                    }
                }
            },
            None => {},
        }
        i = i + 1;
    }
    assert(names@.take(names@.len() as int) =~= names@);
    if count == 1 {
        Ok(found.unwrap())
    } else if count == 0 {
        Err(ApllodbError::new(ApllodbErrorKind::NameErrorNotFound, concat(string_of("no field matches to: "), idx.to_string().as_str())))
    } else {
        Err(ApllodbError::new(ApllodbErrorKind::AmbiguousColumn, concat(string_of("more than 1 fields match to: "), idx.to_string().as_str())))
    }
}

/// Schema defines structure of records / rows.
///
/// Main purpose of schema is to resolve fields' / columns' position in records / rows to extract values
/// from them.
pub trait Schema {
    /// Field's / Column's full name.
    type Name: SchemaName;

    /// Pairs of (RPos, Name) of the fields / columns, in order (unnamed fields have no name).
    spec fn spec_names_with_pos(&self) -> Seq<(RPos, Option<Self::Name>)>;

    /// Pairs of (RPos, Name).
    fn names_with_pos(&self) -> (r: Vec<(RPos, Option<Self::Name>)>)
        ensures
            r@ == self.spec_names_with_pos(),
    ;

    /// Number of fields / columns.
    fn len(&self) -> (r: usize)
        ensures
            r == self.spec_names_with_pos().len(),
    ;

    /// is empty?
    fn is_empty(&self) -> (r: bool)
        ensures
            r == (self.spec_names_with_pos().len() == 0),
    {
        self.len() == 0
    }

    /// Finds a pair of (RPos, Name) of a field/column specified by Index.
    ///
    /// # Failures
    ///
    /// - [NameErrorNotFound](ApllodbErrorKind::NameErrorNotFound) when:
    ///   - no field matches to this Index.
    /// - [AmbiguousColumn](ApllodbErrorKind::AmbiguousColumn) when:
    ///   - more than 1 of fields match to this Index.
    fn index(&self, idx: &SchemaIndex) -> (r: ApllodbResult<(RPos, Self::Name)>)
        ensures
            is_index_result(r, self.spec_names_with_pos(), *idx),
    {
        index_in(&self.names_with_pos(), idx)
    }
}

} // verus!
