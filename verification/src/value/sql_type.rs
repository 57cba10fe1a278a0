use vstd::prelude::*;

use crate::text::string_of;

verus! {

/// Integer types that are loosely typed as `i64`.
#[derive(Clone, Copy, Eq, PartialEq, Hash, Debug, Structural)]
pub enum I64LooseType {
    /// SMALLINT
    SmallInt,
    /// INTEGER
    Integer,
    /// BIGINT
    BigInt,
}

/// Numeric types: comparable and ordered among each other.
#[derive(Clone, Copy, Eq, PartialEq, Hash, Debug, Structural)]
pub enum NumericComparableType {
    /// Integers
    I64Loose(I64LooseType),
}

/// String types: comparable and ordered among each other.
#[derive(Clone, Copy, Eq, PartialEq, Hash, Debug, Structural)]
pub enum StringComparableLoseType {
    /// TEXT
    Text,
}

/// SQL type of a NOT NULL value.
///
/// Values whose top-level variants are the same are comparable.
#[derive(Clone, Copy, Eq, PartialEq, Hash, Debug, Structural)]
pub enum SqlType {
    /// Numbers (ordered)
    NumericComparable(NumericComparableType),
    /// Strings (ordered)
    StringComparableLoose(StringComparableLoseType),
    /// BOOLEAN (comparable, not ordered)
    BooleanComparable,
}

impl SqlType {
    /// SMALLINT
    pub fn small_int() -> (r: Self)
        ensures
            r == SqlType::NumericComparable(NumericComparableType::I64Loose(I64LooseType::SmallInt)),
    {
        SqlType::NumericComparable(NumericComparableType::I64Loose(I64LooseType::SmallInt))
    }

    /// INTEGER
    pub fn integer() -> (r: Self)
        ensures
            r == SqlType::NumericComparable(NumericComparableType::I64Loose(I64LooseType::Integer)),
    {
        SqlType::NumericComparable(NumericComparableType::I64Loose(I64LooseType::Integer))
    }

    /// BIGINT
    pub fn big_int() -> (r: Self)
        ensures
            r == SqlType::NumericComparable(NumericComparableType::I64Loose(I64LooseType::BigInt)),
    {
        SqlType::NumericComparable(NumericComparableType::I64Loose(I64LooseType::BigInt))
    }

    /// TEXT
    pub fn text() -> (r: Self)
        ensures
            r == SqlType::StringComparableLoose(StringComparableLoseType::Text),
    {
        SqlType::StringComparableLoose(StringComparableLoseType::Text)
    }

    /// BOOLEAN
    pub fn boolean() -> (r: Self)
        ensures
            r == SqlType::BooleanComparable,
    {
        SqlType::BooleanComparable
    }

    /// The type written as in Rust's debug output (e.g. `NumericComparable(I64Loose(Integer))`).
    pub open spec fn spec_debug_text(self) -> Seq<char> {
        match self {
            SqlType::NumericComparable(NumericComparableType::I64Loose(I64LooseType::SmallInt)) =>
                "NumericComparable(I64Loose(SmallInt))"@,
            SqlType::NumericComparable(NumericComparableType::I64Loose(I64LooseType::Integer)) =>
                "NumericComparable(I64Loose(Integer))"@,
            SqlType::NumericComparable(NumericComparableType::I64Loose(I64LooseType::BigInt)) =>
                "NumericComparable(I64Loose(BigInt))"@,
            SqlType::StringComparableLoose(StringComparableLoseType::Text) => "StringComparableLoose(Text)"@,
            SqlType::BooleanComparable => "BooleanComparable"@,
        }
    }

    /// The type written as in Rust's debug output (e.g. `NumericComparable(I64Loose(Integer))`).
    pub fn debug_text(&self) -> (r: String)
        ensures
            r@ == self.spec_debug_text(),
    {
        match self {
            SqlType::NumericComparable(NumericComparableType::I64Loose(I64LooseType::SmallInt)) =>
                string_of("NumericComparable(I64Loose(SmallInt))"),
            SqlType::NumericComparable(NumericComparableType::I64Loose(I64LooseType::Integer)) =>
                string_of("NumericComparable(I64Loose(Integer))"),
            SqlType::NumericComparable(NumericComparableType::I64Loose(I64LooseType::BigInt)) =>
                string_of("NumericComparable(I64Loose(BigInt))"),
            SqlType::StringComparableLoose(StringComparableLoseType::Text) => string_of(
                "StringComparableLoose(Text)",
            ),
            SqlType::BooleanComparable => string_of("BooleanComparable"),
        }
    }
}

/// Kind of a column's data type.
#[derive(Clone, Copy, Eq, PartialEq, Ord, PartialOrd, Hash, Debug, Structural)]
pub enum DataTypeKind {
    /// SMALLINT
    SmallInt,
    /// INTEGER
    Integer,
    /// BIGINT
    BigInt,
    /// TEXT
    Text,
    /// BOOLEAN
    Boolean,
}

/// Data type of a column: its kind and whether it accepts NULL.
#[derive(Clone, Copy, Eq, PartialEq, Ord, PartialOrd, Hash, Debug, Structural)]
pub struct DataType {
    /// Kind
    pub kind: DataTypeKind,
    /// Whether NULL is accepted
    pub nullable: bool,
}

impl DataType {
    /// Constructor.
    pub fn new(kind: DataTypeKind, nullable: bool) -> (r: Self)
        ensures
            r.kind == kind,
            r.nullable == nullable,
    {
        DataType { kind, nullable }
    }
}

/// NOT NULL data types of each of these kinds, in order.
pub fn not_null_sql_types(kinds: &[DataTypeKind]) -> (r: Vec<DataType>)
    ensures
        r@.len() == kinds@.len(),
        forall|i: int| 0 <= i < kinds@.len() ==> #[trigger] r@[i] == DataType::new_spec(kinds@[i], false),
{
    let mut v: Vec<DataType> = Vec::new();
    let mut i: usize = 0;
    while i < kinds.len()
        invariant
            i <= kinds@.len(),
            v@.len() == i,
            forall|k: int| 0 <= k < i ==> #[trigger] v@[k] == DataType::new_spec(kinds@[k], false),
        decreases kinds@.len() - i,
    {
        v.push(DataType::new(kinds[i], false));
        i = i + 1;
    }
    v
}

impl DataType {
    /// The data type of this kind and nullability.
    pub open spec fn new_spec(kind: DataTypeKind, nullable: bool) -> DataType {
        DataType { kind, nullable }
    }
}

} // verus!
