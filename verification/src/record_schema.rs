use vstd::prelude::*;

use crate::error::{result_view, ApllodbError, ApllodbErrorView, ApllodbResult};
use crate::field::AliasedFieldName;
use crate::schema::r_pos::RPos;
use crate::schema::schema_index::SchemaIndex;
use crate::schema::{index_value, is_index_result, Schema};

verus! {

/// Schema of records.
///
/// Given the following SQL:
///
/// ```sql
/// SELECT c1, t.c2, c3 AS c3a, t.c4 AS c4a, ta.c5, ta.c6 AS c6a, 777, 888 as a888 FROM t AS ta;
/// ```
///
/// then the schema of the resulting records is:
///
/// | `RPos` | `Option<AliasedFieldName>` |
/// |--|--|
/// | 0 | (t;ta).c1 |
/// | 1 | (t;ta).c2 |
/// | 2 | (t;ta).c3 ; c3a |
/// | 3 | (t;ta).c4 ; c4a |
/// | 4 | (t;ta).c5 |
/// | 5 | (t;ta).c6 ; c6a |
/// | 6 | - |
/// | 7 | - ; a888 |
#[derive(Eq, PartialEq, Ord, PartialOrd, Hash, Debug, Default)]
pub struct RecordSchema {
    inner: Vec<(RPos, Option<AliasedFieldName>)>,
}

/// The schema that `projection` gives for `indexes`: the field found by each index, in order, or the
/// error of the first index that finds no field or more than one.
pub open spec fn projection_result(
    names: Seq<(RPos, Option<AliasedFieldName>)>,
    indexes: Seq<SchemaIndex>,
) -> Result<Seq<(RPos, Option<AliasedFieldName>)>, ApllodbErrorView>
    decreases indexes.len(),
{
    if indexes.len() == 0 {
        Ok(Seq::empty())
    } else {
        match projection_result(names, indexes.drop_last()) {
            Err(e) => Err(e),
            Ok(prev) => match index_value(names, indexes.last()) {
                Err(e) => Err(e),
                Ok((pos, name)) => Ok(prev.push((pos, Some(name)))),
            },
        }
    }
}

/// Whether every field of `names` is named.
pub open spec fn all_named(names: Seq<(RPos, Option<AliasedFieldName>)>) -> bool {
    forall|i: int| 0 <= i < names.len() ==> #[trigger] names[i].1 is Some
}

fn clone_entry(e: &(RPos, Option<AliasedFieldName>)) -> (r: (RPos, Option<AliasedFieldName>))
    ensures
        r == *e,
{
    (
        e.0,
        match &e.1 {
            Some(n) => Some(n.clone()),
            None => None,
        },
    )
}

impl RecordSchema {
    /// Pairs of (RPos, Name) of the fields, in order.
    pub closed spec fn spec_inner(&self) -> Seq<(RPos, Option<AliasedFieldName>)> {
        self.inner@
    }

    /// Schema of fields named `names`, at positions 0, 1, ...
    pub fn from_names(names: Vec<AliasedFieldName>) -> (r: Self)
        ensures
            r.spec_inner().len() == names@.len(),
            forall|i: int|
                0 <= i < names@.len() ==> #[trigger] r.spec_inner()[i] == (
                    RPos::spec_new(i as usize),
                    Some(names@[i]),
                ),
    {
        let mut inner: Vec<(RPos, Option<AliasedFieldName>)> = Vec::new();
        let mut names = names;
        let n = names.len();
        let ghost orig = names@;
        // take the names from the back, then put the entries in order
        let mut rev: Vec<AliasedFieldName> = Vec::new();
        while names.len() > 0
            invariant
                names@.len() + rev@.len() == n,
                orig.len() == n,
                names@ == orig.take(names@.len() as int),
                forall|k: int| 0 <= k < rev@.len() ==> #[trigger] rev@[k] == orig[n - 1 - k],
            decreases names@.len(),
        {
            let x = names.pop().unwrap();
            rev.push(x);
            assert(names@ =~= orig.take(names@.len() as int));
        }
        while rev.len() > 0
            invariant
                inner@.len() + rev@.len() == n,
                orig.len() == n,
                forall|k: int| 0 <= k < rev@.len() ==> #[trigger] rev@[k] == orig[n - 1 - k],
                forall|k: int|
                    0 <= k < inner@.len() ==> #[trigger] inner@[k] == (RPos::spec_new(k as usize), Some(orig[k])),
            decreases rev@.len(),
        {
            let x = rev.pop().unwrap();
            let pos = RPos::new(inner.len());
            inner.push((pos, Some(x)));
        }
        RecordSchema { inner }
    }

    /// Whether every field is named (no unnamed constant).
    pub fn assert_all_named(&self)
        requires
            all_named(self.spec_inner()),
    {
    }

    /// Filter specified fields, in the order of `indexes`.
    ///
    /// # Failures
    ///
    /// The error of the first index that finds no field, or more than one (see [Schema::index]).
    pub fn projection(&self, indexes: &[SchemaIndex]) -> (r: ApllodbResult<Self>)
        ensures
            match (r, projection_result(self.spec_inner(), indexes@)) {
                (Ok(s), Ok(v)) => s.spec_inner() == v,
                (Err(e), Err(f)) => e@ == f,
                _ => false,
            },
    {
        let mut new_inner: Vec<(RPos, Option<AliasedFieldName>)> = Vec::new();
        let mut i: usize = 0;
        assert(indexes@.take(0) =~= Seq::<SchemaIndex>::empty());
        while i < indexes.len()
            invariant
                i <= indexes@.len(),
                projection_result(self.spec_inner(), indexes@.take(i as int)) == Ok::<
                    Seq<(RPos, Option<AliasedFieldName>)>,
                    ApllodbErrorView,
                >(new_inner@),
            decreases indexes@.len() - i,
        {
            proof {
                assert(indexes@.take(i + 1).drop_last() =~= indexes@.take(i as int));
            }
            let found = self.index(&indexes[i]);
            match found {
                Ok((pos, name)) => {
                    new_inner.push((pos, Some(name)));
                },
                Err(e) => {
                    proof {
                        lemma_projection_err(self.spec_inner(), indexes@, i as int, e@);
                    }
                    return Err(e);
                },
            }
            i = i + 1;
        }
        assert(indexes@.take(indexes@.len() as int) =~= indexes@);
        Ok(RecordSchema { inner: new_inner })
    }

    /// Get raw AliasedFieldNames, in order.
    ///
    /// # Panics
    ///
    /// A schema with an unnamed field (even an un-aliased constant) is a caller's error: `requires` rules it out.
    pub fn to_aliased_field_names(&self) -> (r: Vec<AliasedFieldName>)
        requires
            all_named(self.spec_inner()),
        ensures
            r@.len() == self.spec_inner().len(),
            forall|i: int| 0 <= i < r@.len() ==> Some(#[trigger] r@[i]) == self.spec_inner()[i].1,
    {
        let mut r: Vec<AliasedFieldName> = Vec::new();
        let mut i: usize = 0;
        while i < self.inner.len()
            invariant
                i <= self.inner@.len(),
                all_named(self.inner@),
                r@.len() == i,
                forall|k: int| 0 <= k < i ==> Some(#[trigger] r@[k]) == self.inner@[k].1,
            decreases self.inner@.len() - i,
        {
            assert(self.inner@[i as int].1 is Some);
            match &self.inner[i].1 {
                Some(n) => r.push(n.clone()),
                None => {},
            }
            i = i + 1;
        }
        r
    }
}

proof fn lemma_projection_err(
    names: Seq<(RPos, Option<AliasedFieldName>)>,
    indexes: Seq<SchemaIndex>,
    i: int,
    e: ApllodbErrorView,
)
    requires
        0 <= i < indexes.len(),
        projection_result(names, indexes.take(i)) is Ok,
        index_value(names, indexes[i]) == Err::<(RPos, AliasedFieldName), ApllodbErrorView>(e),
    ensures
        projection_result(names, indexes) == Err::<Seq<(RPos, Option<AliasedFieldName>)>, ApllodbErrorView>(e),
    decreases indexes.len() - i,
{
    assert(indexes.take(i + 1).drop_last() =~= indexes.take(i));
    if i + 1 < indexes.len() {
        lemma_projection_err_extend(names, indexes, i + 1, e);
    } else {
        assert(indexes.take(i + 1) =~= indexes);
    }
}

proof fn lemma_projection_err_extend(
    names: Seq<(RPos, Option<AliasedFieldName>)>,
    indexes: Seq<SchemaIndex>,
    j: int,
    e: ApllodbErrorView,
)
    requires
        0 < j <= indexes.len(),
        projection_result(names, indexes.take(j)) == Err::<Seq<(RPos, Option<AliasedFieldName>)>, ApllodbErrorView>(e),
    ensures
        projection_result(names, indexes) == Err::<Seq<(RPos, Option<AliasedFieldName>)>, ApllodbErrorView>(e),
    decreases indexes.len() - j,
{
    if j < indexes.len() {
        assert(indexes.take(j + 1).drop_last() =~= indexes.take(j));
        lemma_projection_err_extend(names, indexes, j + 1, e);
    } else {
        assert(indexes.take(j) =~= indexes);
    }
}

impl Schema for RecordSchema {
    type Name = AliasedFieldName;

    open spec fn spec_names_with_pos(&self) -> Seq<(RPos, Option<AliasedFieldName>)> {
        self.spec_inner()
    }

    fn names_with_pos(&self) -> (r: Vec<(RPos, Option<AliasedFieldName>)>) {
        let mut r: Vec<(RPos, Option<AliasedFieldName>)> = Vec::new();
        let mut i: usize = 0;
        while i < self.inner.len()
            invariant
                i <= self.inner@.len(),
                r@ == self.inner@.take(i as int),
            decreases self.inner@.len() - i,
        {
            r.push(clone_entry(&self.inner[i]));
            i = i + 1;
            assert(r@ =~= self.inner@.take(i as int));
        }
        assert(self.inner@.take(self.inner@.len() as int) =~= self.inner@);
        r
    }

    fn len(&self) -> (r: usize) {
        self.inner.len()
    }
}

/// Law: a projection fails with the error of the first index that finds no field, or more than one;
/// else it holds, in the order of the indexes, the field that each index finds, at its position.
pub proof fn lemma_projection_by_index(names: Seq<(RPos, Option<AliasedFieldName>)>, indexes: Seq<SchemaIndex>)
    ensures
        forall|k: int|
            0 <= k < indexes.len() && (#[trigger] index_value(names, indexes[k])) is Err && (forall|m: int|
                0 <= m < k ==> index_value(names, indexes[m]) is Ok) ==> projection_result(names, indexes)
                == Err::<Seq<(RPos, Option<AliasedFieldName>)>, ApllodbErrorView>(
                index_value(names, indexes[k])->Err_0,
            ),
        (forall|k: int| 0 <= k < indexes.len() ==> (#[trigger] index_value(names, indexes[k])) is Ok)
            ==> (projection_result(names, indexes) matches Ok(v) && v.len() == indexes.len() && forall|k: int|
            0 <= k < indexes.len() ==> #[trigger] v[k] == (
                index_value(names, indexes[k])->Ok_0.0,
                Some(index_value(names, indexes[k])->Ok_0.1),
            )),
    decreases indexes.len(),
{
    if indexes.len() > 0 {
        let prev = indexes.drop_last();
        lemma_projection_by_index(names, prev);
        assert forall|k: int| 0 <= k < prev.len() implies prev[k] == indexes[k] by {}
        let n = indexes.len() - 1;
        assert forall|k: int|
            0 <= k < indexes.len() && (#[trigger] index_value(names, indexes[k])) is Err && (forall|m: int|
                0 <= m < k ==> index_value(names, indexes[m]) is Ok) implies projection_result(names, indexes)
            == Err::<Seq<(RPos, Option<AliasedFieldName>)>, ApllodbErrorView>(
            index_value(names, indexes[k])->Err_0,
        ) by {
            if k < n {
                assert(prev[k] == indexes[k]);
                assert forall|m: int| 0 <= m < k implies index_value(names, prev[m]) is Ok by {
                    assert(prev[m] == indexes[m]);
                }
                assert(index_value(names, prev[k]) is Err);
            } else {
                assert forall|m: int| 0 <= m < prev.len() implies (#[trigger] index_value(names, prev[m])) is Ok by {
                    assert(prev[m] == indexes[m]);
                    assert(index_value(names, indexes[m]) is Ok);
                }
            }
        }
        if forall|k: int| 0 <= k < indexes.len() ==> (#[trigger] index_value(names, indexes[k])) is Ok {
            assert forall|m: int| 0 <= m < prev.len() implies (#[trigger] index_value(names, prev[m])) is Ok by {
                assert(prev[m] == indexes[m]);
                assert(index_value(names, indexes[m]) is Ok);
            }
            assert(index_value(names, indexes[n]) is Ok);
        }
    }
}

} // verus!
