//! Transaction IDs.
use core::cmp::Ordering;
use vstd::prelude::*;
use vstd::std_specs::cmp::PartialOrdSpec;
use vstd::std_specs::cmp::PartialOrdSpecImpl;

verus! {

/// Transaction ID.
///
/// It is a storage engine's responsibility to generate underlying ID.
/// IDs are equal, and ordered, as the numbers behind them.
#[derive(Copy, Clone, Eq, PartialEq, Ord, Hash, Debug, Structural)]
pub struct TransactionId(i64);

impl View for TransactionId {
    type V = i64;

    closed spec fn view(&self) -> i64 {
        self.0
    }
}

impl TransactionId {
    /// Generate transaction ID.
    pub fn new(id: i64) -> (r: Self)
        ensures
            r@ == id,
    {
        Self(id)
    }

    /// The number behind this ID.
    pub fn as_i64(&self) -> (r: i64)
        ensures
            r == self@,
    {
        self.0
    }
}

impl PartialOrd for TransactionId {
    fn partial_cmp(&self, other: &Self) -> (r: Option<Ordering>) {
        if self.0 < other.0 {
            Some(Ordering::Less)
        } else if self.0 == other.0 {
            Some(Ordering::Equal)
        } else {
            Some(Ordering::Greater)
        }
    }
}

impl PartialOrdSpecImpl for TransactionId {
    open spec fn obeys_partial_cmp_spec() -> bool {
        true
    }

    /// IDs are ordered as the numbers behind them.
    open spec fn partial_cmp_spec(&self, other: &TransactionId) -> Option<Ordering> {
        if self@ < other@ {
            Some(Ordering::Less)
        } else if self@ == other@ {
            Some(Ordering::Equal)
        } else {
            Some(Ordering::Greater)
        }
    }
}

/// Law: two IDs are equal exactly when their numbers are, and one comes before the other exactly
/// when its number is smaller.
pub proof fn lemma_transaction_id_order(a: TransactionId, b: TransactionId)
    ensures
        (a == b) <==> (a@ == b@),
        (PartialOrdSpec::partial_cmp_spec(&a, &b) == Some(Ordering::Less)) <==> (a@ < b@),
        (PartialOrdSpec::partial_cmp_spec(&a, &b) == Some(Ordering::Greater)) <==> (a@ > b@),
{
}

} // verus!
