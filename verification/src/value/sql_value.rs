use vstd::prelude::*;

use crate::error::kind::ApllodbErrorKind;
use crate::error::{result_view, ApllodbError, ApllodbErrorView, ApllodbResult};
use crate::text::{concat, string_of};
use crate::value::nn_sql_value::NNSqlValue;
use crate::value::sql_compare_result::SqlCompareResult;

verus! {

/// SQL-typed value: NULL or a NOT NULL value.
///
/// # Comparing SqlValues
///
/// A NOT NULL value has its SQL type in [SqlType](crate::value::sql_type::SqlType).
/// If the top-level variants of the SqlTypes of two values are the same, these two are **comparable**,
/// meaning equality comparison to them is valid.
/// Also, ordered comparison is valid for values within some top-level variants (numbers and strings).
///
/// ## Failures on comparison
///
/// Comparing non-**comparable** values causes
/// [ApllodbErrorKind::DatatypeMismatch].
///
/// ## Comparison with NULL
///
/// Equality-comparison and ordered-comparison with NULL is evaluated to NULL.
/// NULL is always evaluated as FALSE in boolean context (therefore all of `x = NULL`, `x != NULL`,
/// `x < NULL`, `x > NULL` are evaluated to FALSE in boolean context).
///
/// # Hashing SqlValues
///
/// Use [SqlValueHashKey](crate::value::sql_value_hash_key::SqlValueHashKey) as a key of hash tables.
#[derive(Debug)]
pub enum SqlValue {
    /// NULL value.
    Null,
    /// NOT NULL value.
    NotNull(NNSqlValue),
}

impl Clone for SqlValue {
    fn clone(&self) -> (r: Self)
        ensures
            r == *self,
    {
        match self {
            SqlValue::Null => SqlValue::Null,
            SqlValue::NotNull(nn) => SqlValue::NotNull(nn.clone()),
        }
    }
}

/// Description of the error for evaluating a value of `ty` as BOOLEAN.
pub open spec fn not_boolean_text(v: NNSqlValue) -> Seq<char> {
    v.spec_sql_type().spec_debug_text() + " cannot be evaluated as BOOLEAN"@
}

impl SqlValue {
    /// Result of comparing two values: NULL when either is NULL, else the comparison of the NOT NULL values.
    pub open spec fn spec_compare(self, other: SqlValue) -> Result<SqlCompareResult, ApllodbErrorView> {
        match (self, other) {
            (SqlValue::NotNull(a), SqlValue::NotNull(b)) => a.spec_compare(b),
            _ => Ok(SqlCompareResult::Null),
        }
    }

    /// This value in boolean context: NULL is FALSE; only BOOLEAN values can be evaluated.
    pub open spec fn spec_to_bool(self) -> Result<bool, ApllodbErrorView> {
        match self {
            SqlValue::Null => Ok(false),
            SqlValue::NotNull(NNSqlValue::Boolean(b)) => Ok(b),
            SqlValue::NotNull(nn) => Err(
                ApllodbErrorView { kind: ApllodbErrorKind::DatatypeMismatch, desc: not_boolean_text(nn) },
            ),
        }
    }

    /// Human-readable form: `NULL`, or the form of the NOT NULL value.
    pub open spec fn spec_display(self) -> Seq<char> {
        match self {
            SqlValue::Null => "NULL"@,
            SqlValue::NotNull(nn) => nn.spec_display(),
        }
    }

    /// Compares two SqlValues.
    ///
    /// # Failures
    ///
    /// - [DatatypeMismatch](ApllodbErrorKind::DatatypeMismatch) when:
    ///   - `self` and `other` have different top-level variant of [SqlType](crate::value::sql_type::SqlType).
    pub fn sql_compare(&self, other: &Self) -> (r: ApllodbResult<SqlCompareResult>)
        ensures
            result_view(r) == self.spec_compare(*other),
    {
        match (self, other) {
            (SqlValue::NotNull(nn_self), SqlValue::NotNull(nn_other)) => nn_self.sql_compare(nn_other),
            _ => Ok(SqlCompareResult::Null),
        }
    }

    /// Eval as bool if possible.
    ///
    /// # Failures
    ///
    /// - [DatatypeMismatch](ApllodbErrorKind::DatatypeMismatch) when:
    ///   - this SqlValue cannot be evaluated as SQL BOOLEAN
    pub fn to_bool(&self) -> (r: ApllodbResult<bool>)
        ensures
            result_view(r) == self.spec_to_bool(),
    {
        match self {
            SqlValue::Null => Ok(false),
            SqlValue::NotNull(nn_sql_value) => match nn_sql_value {
                NNSqlValue::Boolean(b) => Ok(*b),
                _ => {
                    let desc = concat(nn_sql_value.sql_type().debug_text(), " cannot be evaluated as BOOLEAN");
                    Err(ApllodbError::new(ApllodbErrorKind::DatatypeMismatch, desc))
                },
            },
        }
    }

    /// Human-readable form: `NULL`, or the form of the NOT NULL value.
    pub fn to_display_string(&self) -> (r: String)
        ensures
            r@ == self.spec_display(),
    {
        match self {
            SqlValue::Null => string_of("NULL"),
            SqlValue::NotNull(nn) => nn.to_display_string(),
        }
    }
}

impl PartialEq for SqlValue {
    fn eq(&self, other: &Self) -> (r: bool) {
        match self.sql_compare(other) {
            Ok(SqlCompareResult::Eq) => true,
            _ => false,
        }
    }
}

impl vstd::std_specs::cmp::PartialEqSpecImpl for SqlValue {
    open spec fn obeys_eq_spec() -> bool {
        true
    }

    /// Two values are equal when they compare as [SqlCompareResult::Eq]: never when either is NULL.
    open spec fn eq_spec(&self, other: &SqlValue) -> bool {
        self.spec_compare(*other) == Ok::<SqlCompareResult, ApllodbErrorView>(SqlCompareResult::Eq)
    }
}

} // verus!
