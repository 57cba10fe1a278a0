use vstd::prelude::*;

use crate::error::kind::ApllodbErrorKind;
use crate::error::{result_view, ApllodbError, ApllodbErrorView, ApllodbResult};
use crate::text::{
    concat, int_text, int_text_of, lemma_lex_order_antisymmetric, lemma_lex_order_first_difference,
    lemma_lex_order_prefix, lex_order, lex_order_of, str_debug,
    str_debug_of, string_of,
};
use crate::value::sql_compare_result::SqlCompareResult;
use crate::value::sql_convertible::{unpack_result, SqlConvertible};
use crate::value::sql_type::{
    DataTypeKind, I64LooseType, NumericComparableType, SqlType, StringComparableLoseType,
};

verus! {

/// NOT NULL value.
#[derive(Debug)]
pub enum NNSqlValue {
    /// SMALLINT
    SmallInt(i16),
    /// INTEGER
    Integer(i32),
    /// BIGINT
    BigInt(i64),
    /// TEXT
    Text(String),
    /// BOOLEAN
    Boolean(bool),
}

/// Another name of [NNSqlValue].
pub type NnSqlValue = NNSqlValue;

impl Clone for NNSqlValue {
    fn clone(&self) -> (r: Self)
        ensures
            r == *self,
    {
        match self {
            NNSqlValue::SmallInt(v) => NNSqlValue::SmallInt(*v),
            NNSqlValue::Integer(v) => NNSqlValue::Integer(*v),
            NNSqlValue::BigInt(v) => NNSqlValue::BigInt(*v),
            NNSqlValue::Text(s) => NNSqlValue::Text(s.clone()),
            NNSqlValue::Boolean(b) => NNSqlValue::Boolean(*b),
        }
    }
}

/// Description of the error for comparing values of types that cannot be compared.
pub open spec fn mismatch_text(a: NNSqlValue, b: NNSqlValue) -> Seq<char> {
    "`self` and `other` are not in comparable type - self: "@ + a.spec_debug() + ", other: "@
        + b.spec_debug()
}

/// Description of the error for negating a value that has no negation.
pub open spec fn negate_text(v: NNSqlValue) -> Seq<char> {
    match v {
        NNSqlValue::Text(_) => "String cannot negate"@,
        NNSqlValue::Boolean(_) => "Boolean cannot negate"@,
        _ => v.spec_display() + " cannot negate"@,
    }
}

impl NNSqlValue {
    /// SqlType of this value.
    pub open spec fn spec_sql_type(self) -> SqlType {
        match self {
            NNSqlValue::SmallInt(_) => SqlType::NumericComparable(NumericComparableType::I64Loose(I64LooseType::SmallInt)),
            NNSqlValue::Integer(_) => SqlType::NumericComparable(NumericComparableType::I64Loose(I64LooseType::Integer)),
            NNSqlValue::BigInt(_) => SqlType::NumericComparable(NumericComparableType::I64Loose(I64LooseType::BigInt)),
            NNSqlValue::Text(_) => SqlType::StringComparableLoose(StringComparableLoseType::Text),
            NNSqlValue::Boolean(_) => SqlType::BooleanComparable,
        }
    }

    /// Kind of the data type of this value.
    pub open spec fn spec_data_type_kind(self) -> DataTypeKind {
        match self {
            NNSqlValue::SmallInt(_) => DataTypeKind::SmallInt,
            NNSqlValue::Integer(_) => DataTypeKind::Integer,
            NNSqlValue::BigInt(_) => DataTypeKind::BigInt,
            NNSqlValue::Text(_) => DataTypeKind::Text,
            NNSqlValue::Boolean(_) => DataTypeKind::Boolean,
        }
    }

    /// The integer held, for the integer types (loosely typed as `i64`).
    pub open spec fn spec_loose_i64(self) -> Option<i64> {
        match self {
            NNSqlValue::SmallInt(v) => Some(v as i64),
            NNSqlValue::Integer(v) => Some(v as i64),
            NNSqlValue::BigInt(v) => Some(v),
            _ => None,
        }
    }

    /// Human-readable form: integers in decimal, strings in double quotes, booleans as `true` / `false`.
    pub open spec fn spec_display(self) -> Seq<char> {
        match self {
            NNSqlValue::SmallInt(v) => int_text(v as int),
            NNSqlValue::Integer(v) => int_text(v as int),
            NNSqlValue::BigInt(v) => int_text(v as int),
            NNSqlValue::Text(s) => "\""@ + s@ + "\""@,
            NNSqlValue::Boolean(b) => if b {
                "true"@
            } else {
                "false"@
            },
        }
    }

    /// Result of comparing two NOT NULL values.
    ///
    /// Integers compare by their value whatever their integer type; strings in lexicographic order of
    /// their characters; booleans are equal or not (they are not ordered). Other pairs cannot be compared.
    pub open spec fn spec_compare(self, other: NNSqlValue) -> Result<SqlCompareResult, ApllodbErrorView> {
        match (self.spec_loose_i64(), other.spec_loose_i64()) {
            (Some(a), Some(b)) => Ok(
                if a < b {
                    SqlCompareResult::LessThan
                } else if a == b {
                    SqlCompareResult::Eq
                } else {
                    SqlCompareResult::GreaterThan
                },
            ),
            _ => match (self, other) {
                (NNSqlValue::Text(a), NNSqlValue::Text(b)) => Ok(
                    SqlCompareResult::spec_from_order(lex_order(a@, b@)),
                ),
                (NNSqlValue::Boolean(a), NNSqlValue::Boolean(b)) => Ok(
                    if a == b {
                        SqlCompareResult::Eq
                    } else {
                        SqlCompareResult::NotEq
                    },
                ),
                _ => Err(
                    ApllodbErrorView {
                        kind: ApllodbErrorKind::DatatypeMismatch,
                        desc: mismatch_text(self, other),
                    },
                ),
            },
        }
    }

    /// Whether negating this value overflows its integer type.
    pub open spec fn negation_overflows(self) -> bool {
        match self {
            NNSqlValue::SmallInt(v) => v == i16::MIN,
            NNSqlValue::Integer(v) => v == i32::MIN,
            NNSqlValue::BigInt(v) => v == i64::MIN,
            _ => false,
        }
    }

    /// Negation of this value: integers keep their type; the least value of an integer type (whose
    /// negation does not fit in it), strings and booleans have no negation.
    pub open spec fn spec_negate(self) -> Result<NNSqlValue, ApllodbErrorView> {
        if self.negation_overflows() {
            Err(ApllodbErrorView { kind: ApllodbErrorKind::InvalidParameterValue, desc: negate_text(self) })
        } else {
            match self {
                NNSqlValue::SmallInt(v) => Ok(NNSqlValue::SmallInt((-v) as i16)),
                NNSqlValue::Integer(v) => Ok(NNSqlValue::Integer((-v) as i32)),
                NNSqlValue::BigInt(v) => Ok(NNSqlValue::BigInt((-v) as i64)),
                _ => Err(
                    ApllodbErrorView { kind: ApllodbErrorKind::InvalidParameterValue, desc: negate_text(self) },
                ),
            }
        }
    }

    /// SqlType of this value.
    pub fn sql_type(&self) -> (r: SqlType)
        ensures
            r == self.spec_sql_type(),
    {
        match self {
            NNSqlValue::SmallInt(_) => SqlType::small_int(),
            NNSqlValue::Integer(_) => SqlType::integer(),
            NNSqlValue::BigInt(_) => SqlType::big_int(),
            NNSqlValue::Text(_) => SqlType::text(),
            NNSqlValue::Boolean(_) => SqlType::boolean(),
        }
    }

    /// `Debug` form of this value, with `text_debug` as the debug form of the string of a TEXT value:
    /// e.g. `Integer(42)`, `Boolean(true)`, `Text("abc")`.
    pub open spec fn spec_debug_form(self, text_debug: Seq<char>) -> Seq<char> {
        match self {
            NNSqlValue::SmallInt(v) => "SmallInt("@ + int_text(v as int) + ")"@,
            NNSqlValue::Integer(v) => "Integer("@ + int_text(v as int) + ")"@,
            NNSqlValue::BigInt(v) => "BigInt("@ + int_text(v as int) + ")"@,
            NNSqlValue::Text(_) => "Text("@ + text_debug + ")"@,
            NNSqlValue::Boolean(b) => if b {
                "Boolean(true)"@
            } else {
                "Boolean(false)"@
            },
        }
    }

    /// `Debug` form of this value (e.g. `Integer(42)`, `Text("abc")`).
    pub open spec fn spec_debug(self) -> Seq<char> {
        match self {
            NNSqlValue::Text(s) => self.spec_debug_form(str_debug(s@)),
            _ => self.spec_debug_form(Seq::empty()),
        }
    }

    /// `Debug` form of this value, given `text_debug`, the debug form of the string of a TEXT value
    /// (see [NNSqlValue::spec_debug_form]).
    pub fn debug_form(&self, text_debug: &str) -> (r: String)
        ensures
            r@ == self.spec_debug_form(text_debug@),
    {
        match self {
            NNSqlValue::SmallInt(v) => concat(concat(string_of("SmallInt("), int_text_of(*v as i64).as_str()), ")"),
            NNSqlValue::Integer(v) => concat(concat(string_of("Integer("), int_text_of(*v as i64).as_str()), ")"),
            NNSqlValue::BigInt(v) => concat(concat(string_of("BigInt("), int_text_of(*v).as_str()), ")"),
            NNSqlValue::Text(_) => concat(concat(string_of("Text("), text_debug), ")"),
            NNSqlValue::Boolean(b) => if *b {
                string_of("Boolean(true)")
            } else {
                string_of("Boolean(false)")
            },
        }
    }

    /// `Debug` form of this value (see [NNSqlValue::spec_debug]).
    pub fn debug_text(&self) -> (r: String)
        ensures
            r@ == self.spec_debug(),
    {
        match self {
            NNSqlValue::Text(s) => self.debug_form(str_debug_of(s.as_str()).as_str()),
            _ => self.debug_form(""),
        }
    }

    /// Human-readable form: integers in decimal, strings in double quotes, booleans as `true` / `false`.
    pub fn to_display_string(&self) -> (r: String)
        ensures
            r@ == self.spec_display(),
    {
        match self {
            NNSqlValue::SmallInt(v) => int_text_of(*v as i64),
            NNSqlValue::Integer(v) => int_text_of(*v as i64),
            NNSqlValue::BigInt(v) => int_text_of(*v),
            NNSqlValue::Text(s) => concat(concat(string_of("\""), s.as_str()), "\""),
            NNSqlValue::Boolean(b) => if *b {
                string_of("true")
            } else {
                string_of("false")
            },
        }
    }

    fn loose_i64(&self) -> (r: Option<i64>)
        ensures
            r == self.spec_loose_i64(),
    {
        match self {
            NNSqlValue::SmallInt(v) => Some(*v as i64),
            NNSqlValue::Integer(v) => Some(*v as i64),
            NNSqlValue::BigInt(v) => Some(*v),
            _ => None,
        }
    }

    /// Retrieve Rust value.
    ///
    /// Allows "loosely-get", which captures a value into a looser type.
    /// E.g. unpack() `NNSqlValue::SmallInt(1)` into `i32`.
    ///
    /// # Failures
    ///
    /// - [DatatypeMismatch](ApllodbErrorKind::DatatypeMismatch) when:
    ///   - Any value of `T` cannot be typed as this SqlValue's SqlType (E.g. `T = i64`, `SqlType = SmallInt`).
    pub fn unpack<T: SqlConvertible>(&self) -> (r: ApllodbResult<T>)
        ensures
            result_view(r) == unpack_result::<T>(*self),
    {
        T::unpack_from(self)
    }

    /// Compares two NOT NULL values (see [NNSqlValue::spec_compare]).
    ///
    /// # Failures
    ///
    /// - [DatatypeMismatch](ApllodbErrorKind::DatatypeMismatch) when:
    ///   - `self` and `other` have different top-level variant of [SqlType].
    pub fn sql_compare(&self, other: &Self) -> (r: ApllodbResult<SqlCompareResult>)
        ensures
            result_view(r) == self.spec_compare(*other),
    {
        match (self.loose_i64(), other.loose_i64()) {
            (Some(a), Some(b)) => {
                if a < b {
                    Ok(SqlCompareResult::LessThan)
                } else if a == b {
                    Ok(SqlCompareResult::Eq)
                } else {
                    Ok(SqlCompareResult::GreaterThan)
                }
            },
            _ => match (self, other) {
                (NNSqlValue::Text(a), NNSqlValue::Text(b)) => Ok(
                    SqlCompareResult::from_order(lex_order_of(a.as_str(), b.as_str())),
                ),
                (NNSqlValue::Boolean(a), NNSqlValue::Boolean(b)) => {
                    if *a == *b {
                        Ok(SqlCompareResult::Eq)
                    } else {
                        Ok(SqlCompareResult::NotEq)
                    }
                },
                _ => {
                    let desc = string_of("`self` and `other` are not in comparable type - self: ");
                    let desc = concat(desc, self.debug_text().as_str());
                    let desc = concat(desc, ", other: ");
                    let desc = concat(desc, other.debug_text().as_str());
                    Err(ApllodbError::new(ApllodbErrorKind::DatatypeMismatch, desc))
                },
            },
        }
    }

    /// Negation of this value.
    ///
    /// # Failures
    ///
    /// - [InvalidParameterValue](ApllodbErrorKind::InvalidParameterValue) when:
    ///   - inner value cannot negate: a string, a boolean, or the least value of its integer type
    pub fn negate(self) -> (r: ApllodbResult<Self>)
        ensures
            result_view(r) == self.spec_negate(),
    {
        match self {
            NNSqlValue::SmallInt(v) => if v == i16::MIN {
                Err(Self::cannot_negate(&self))
            } else {
                Ok(Self::SmallInt(-v))
            },
            NNSqlValue::Integer(v) => if v == i32::MIN {
                Err(Self::cannot_negate(&self))
            } else {
                Ok(Self::Integer(-v))
            },
            NNSqlValue::BigInt(v) => if v == i64::MIN {
                Err(Self::cannot_negate(&self))
            } else {
                Ok(Self::BigInt(-v))
            },
            NNSqlValue::Text(_) => Err(
                ApllodbError::new(ApllodbErrorKind::InvalidParameterValue, string_of("String cannot negate")),
            ),
            NNSqlValue::Boolean(_) => Err(
                ApllodbError::new(ApllodbErrorKind::InvalidParameterValue, string_of("Boolean cannot negate")),
            ),
        }
    }

    fn cannot_negate(&self) -> (r: ApllodbError)
        requires
            self.spec_loose_i64() is Some,
        ensures
            r@ == (ApllodbErrorView { kind: ApllodbErrorKind::InvalidParameterValue, desc: negate_text(*self) }),
    {
        ApllodbError::new(
            ApllodbErrorKind::InvalidParameterValue,
            concat(self.to_display_string(), " cannot negate"),
        )
    }
}

/// Law: comparing the other way round gives the reversed result: `LessThan` and `GreaterThan` swap,
/// `Eq` and `NotEq` stay, and a pair that cannot be compared cannot be compared either way.
pub proof fn lemma_compare_antisymmetric(a: NNSqlValue, b: NNSqlValue)
    ensures
        a.spec_compare(b) == Ok::<SqlCompareResult, ApllodbErrorView>(SqlCompareResult::LessThan)
            <==> b.spec_compare(a) == Ok::<SqlCompareResult, ApllodbErrorView>(SqlCompareResult::GreaterThan),
        a.spec_compare(b) == Ok::<SqlCompareResult, ApllodbErrorView>(SqlCompareResult::Eq)
            <==> b.spec_compare(a) == Ok::<SqlCompareResult, ApllodbErrorView>(SqlCompareResult::Eq),
        a.spec_compare(b) == Ok::<SqlCompareResult, ApllodbErrorView>(SqlCompareResult::NotEq)
            <==> b.spec_compare(a) == Ok::<SqlCompareResult, ApllodbErrorView>(SqlCompareResult::NotEq),
        a.spec_compare(b) is Err <==> b.spec_compare(a) is Err,
{
    match (a, b) {
        (NNSqlValue::Text(x), NNSqlValue::Text(y)) => {
            lemma_lex_order_antisymmetric(x@, y@);
        },
        _ => {},
    }
}

/// Law: negating twice gives the value back, wherever the first negation succeeds.
pub proof fn lemma_negate_twice(v: NNSqlValue)
    ensures
        v.spec_negate() matches Ok(w) ==> w.spec_negate() == Ok::<NNSqlValue, ApllodbErrorView>(v),
{
}

/// The number held by an integer value, whatever its SQL integer type.
pub open spec fn integer_of(v: NNSqlValue) -> Option<int> {
    match v {
        NNSqlValue::SmallInt(x) => Some(x as int),
        NNSqlValue::Integer(x) => Some(x as int),
        NNSqlValue::BigInt(x) => Some(x as int),
        _ => None,
    }
}

/// Law: integers compare by their numbers, whatever their SQL integer types.
pub proof fn lemma_integers_compare_by_value(a: NNSqlValue, b: NNSqlValue, x: int, y: int)
    requires
        integer_of(a) == Some(x),
        integer_of(b) == Some(y),
    ensures
        x < y ==> a.spec_compare(b) == Ok::<SqlCompareResult, ApllodbErrorView>(SqlCompareResult::LessThan),
        x == y ==> a.spec_compare(b) == Ok::<SqlCompareResult, ApllodbErrorView>(SqlCompareResult::Eq),
        x > y ==> a.spec_compare(b) == Ok::<SqlCompareResult, ApllodbErrorView>(SqlCompareResult::GreaterThan),
{
}

/// Law: texts compare lexicographically by their characters, whatever their lengths: at the first
/// position where they differ, the smaller character comes first; a proper prefix comes first; the
/// same characters are equal.
pub proof fn lemma_texts_compare_lexicographically(a: String, b: String, k: int)
    requires
        0 <= k <= a@.len(),
        k <= b@.len(),
        forall|i: int| 0 <= i < k ==> a@[i] == b@[i],
    ensures
        k < a@.len() && k < b@.len() && a@[k] < b@[k] ==> NNSqlValue::Text(a).spec_compare(NNSqlValue::Text(b))
            == Ok::<SqlCompareResult, ApllodbErrorView>(SqlCompareResult::LessThan),
        k < a@.len() && k < b@.len() && a@[k] > b@[k] ==> NNSqlValue::Text(a).spec_compare(NNSqlValue::Text(b))
            == Ok::<SqlCompareResult, ApllodbErrorView>(SqlCompareResult::GreaterThan),
        k == a@.len() && k < b@.len() ==> NNSqlValue::Text(a).spec_compare(NNSqlValue::Text(b))
            == Ok::<SqlCompareResult, ApllodbErrorView>(SqlCompareResult::LessThan),
        k == a@.len() && k == b@.len() ==> NNSqlValue::Text(a).spec_compare(NNSqlValue::Text(b))
            == Ok::<SqlCompareResult, ApllodbErrorView>(SqlCompareResult::Eq),
{
    if k < a@.len() && k < b@.len() && a@[k] != b@[k] {
        lemma_lex_order_first_difference(a@, b@, k);
    }
    if k == a@.len() && k <= b@.len() {
        lemma_lex_order_prefix(a@, b@);
    }
}

/// Law: negating an integer that is not the least of its type gives the negative number, in the same
/// SQL integer type.
pub proof fn lemma_negate_gives_negative(v: NNSqlValue, x: int)
    requires
        integer_of(v) == Some(x),
        !v.negation_overflows(),
    ensures
        v.spec_negate() matches Ok(w) && integer_of(w) == Some(-x) && w.spec_data_type_kind()
            == v.spec_data_type_kind(),
{
}

impl PartialEq for NNSqlValue {
    fn eq(&self, other: &Self) -> (r: bool) {
        match self.sql_compare(other) {
            Ok(SqlCompareResult::Eq) => true,
            _ => false,
        }
    }
}

impl vstd::std_specs::cmp::PartialEqSpecImpl for NNSqlValue {
    open spec fn obeys_eq_spec() -> bool {
        true
    }

    /// Two values are equal when they compare as [SqlCompareResult::Eq].
    open spec fn eq_spec(&self, other: &NNSqlValue) -> bool {
        self.spec_compare(*other) == Ok::<SqlCompareResult, ApllodbErrorView>(SqlCompareResult::Eq)
    }
}

} // verus!
