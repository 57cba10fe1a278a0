use vstd::prelude::*;
use vstd::pervasive::cloned;
use vstd::std_specs::cmp::PartialEqSpec;

verus! {

/// Whether `s[i]` is equal to an item after it.
pub open spec fn has_later_equal<T: PartialEq>(s: Seq<T>, i: int) -> bool {
    exists|j: int| i < j < s.len() && #[trigger] s[i].eq_spec(&s[j])
}

/// Whether `s` holds two items that are equal to each other.
pub open spec fn has_dup<T: PartialEq>(s: Seq<T>) -> bool {
    exists|i: int| 0 <= i < s.len() && #[trigger] has_later_equal(s, i)
}

/// Find a first element that is equal to another element in `items`.
///
/// The answer is a clone of the first `items[i]` that equals some later `items[j]` (compared as
/// `items[i] == items[j]`), as [find_dup_slow] gives.
pub fn find_dup<T: PartialEq + Clone>(items: &[T]) -> (r: Option<T>)
    requires
        <T as PartialEqSpec>::obeys_eq_spec(),
    ensures
        r is None <==> !has_dup(items@),
        r matches Some(x) ==> exists|i: int|
            0 <= i < items@.len() && #[trigger] has_later_equal(items@, i) && (forall|k: int|
                0 <= k < i ==> !#[trigger] has_later_equal(items@, k)) && cloned(items@[i], x),
{
    find_dup_slow(items)
}

/// Find the first element that is equal to another element after it in `items`.
///
/// It uses O(n^2) nested loop algorithm: the answer is a clone of the first `items[i]` that equals
/// some later `items[j]` (compared as `items[i] == items[j]`).
pub fn find_dup_slow<T: PartialEq + Clone>(items: &[T]) -> (r: Option<T>)
    requires
        <T as PartialEqSpec>::obeys_eq_spec(),
    ensures
        r is None <==> !has_dup(items@),
        r matches Some(x) ==> exists|i: int|
            0 <= i < items@.len() && #[trigger] has_later_equal(items@, i) && (forall|k: int|
                0 <= k < i ==> !#[trigger] has_later_equal(items@, k)) && cloned(items@[i], x),
{
    let mut i: usize = 0;
    while i < items.len()
        invariant
            <T as PartialEqSpec>::obeys_eq_spec(),
            i <= items@.len(),
            forall|k: int| 0 <= k < i ==> !#[trigger] has_later_equal(items@, k),
        decreases items@.len() - i,
    {
        let mut j: usize = i + 1;
        while j < items.len()
            invariant
                <T as PartialEqSpec>::obeys_eq_spec(),
                i < j <= items@.len(),
                i < items@.len(),
                forall|k: int| 0 <= k < i ==> !#[trigger] has_later_equal(items@, k),
                forall|k: int| i < k < j ==> !items@[i as int].eq_spec(&items@[k]),
            decreases items@.len() - j,
        {
            if items[i] == items[j] {
                let x = items[i].clone();
                assert(has_later_equal(items@, i as int));
                return Some(x);
            }
            j = j + 1;
        }
        assert(!has_later_equal(items@, i as int));
        i = i + 1;
    }
    None
}

} // verus!
