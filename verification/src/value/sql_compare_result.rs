use vstd::prelude::*;

verus! {

/// Comparison result of two [SqlValue](crate::value::sql_value::SqlValue)s.
#[derive(Clone, Copy, Eq, PartialEq, Hash, Debug, Structural)]
pub enum SqlCompareResult {
    /// v1 = v2
    Eq,
    /// v1 < v2.
    /// Only applicable for ordered values.
    LessThan,
    /// v1 > v2.
    /// Only applicable for ordered values.
    GreaterThan,
    /// v1 != v2.
    /// Only applicable for non-ordered values.
    NotEq,
    /// Either of v1 or v2 is NULL.
    Null,
}

impl SqlCompareResult {
    /// Whether self is Self::Eq
    pub fn is_equal(&self) -> (r: bool)
        ensures
            r == (*self is Eq),
    {
        match self {
            SqlCompareResult::Eq => true,
            _ => false,
        }
    }

    /// The result of an ordered comparison, from `-1` (less), `0` (equal) or `1` (greater).
    pub open spec fn spec_from_order(o: int) -> SqlCompareResult {
        if o < 0 {
            SqlCompareResult::LessThan
        } else if o == 0 {
            SqlCompareResult::Eq
        } else {
            SqlCompareResult::GreaterThan
        }
    }

    /// The result of an ordered comparison, from `-1` (less), `0` (equal) or `1` (greater).
    pub fn from_order(o: i8) -> (r: SqlCompareResult)
        ensures
            r == Self::spec_from_order(o as int),
    {
        if o < 0 {
            SqlCompareResult::LessThan
        } else if o == 0 {
            SqlCompareResult::Eq
        } else {
            SqlCompareResult::GreaterThan
        }
    }
}

} // verus!
