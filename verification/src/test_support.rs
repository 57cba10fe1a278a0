//! Factories and models commonly used by tests in the apllodb workspace.
use vstd::prelude::*;

use crate::expression::{BooleanExpression, ComparisonFunction, Expression, LogicalFunction, UnaryOperator};
use crate::field::{AliasedCorrelationName, AliasedFieldName, FieldName};
use crate::names::{AliasName, ColumnName, CorrelationName, DatabaseName, TableName};
use crate::random::random_lowercase;
use crate::record_schema::RecordSchema;
use crate::row::Row;
use crate::schema::r_pos::RPos;
use crate::text::push_char;
use crate::value::nn_sql_value::NNSqlValue;
use crate::value::sql_value::SqlValue;

verus! {

broadcast use vstd::string::group_string_axioms;

/// Whether `s` is made of `n` lowercase ASCII letters.
pub open spec fn is_lowercase_id(s: Seq<char>, n: nat) -> bool {
    s.len() == n && forall|i: int| 0 <= i < s.len() ==> 'a' <= #[trigger] s[i] <= 'z'
}

/// A random ID of 10 lowercase ASCII letters.
pub fn random_id() -> (r: String)
    ensures
        is_lowercase_id(r@, 10),
{
    let mut s = String::new();
    let mut i: usize = 0;
    while i < 10
        invariant
            i <= 10,
            is_lowercase_id(s@, i as nat),
        decreases 10 - i,
    {
        push_char(&mut s, random_lowercase());
        i = i + 1;
    }
    s
}

impl DatabaseName {
    /// randomly generate a database name (10 lowercase ASCII letters)
    pub fn random() -> (r: Self)
        ensures
            is_lowercase_id(r@, 10),
    {
        let id = random_id();
        DatabaseName::new(id.as_str()).unwrap()
    }
}


impl AliasName {
    /// The alias `alias_name` (at most 64 characters).
    pub fn factory(alias_name: &str) -> (r: Self)
        requires
            alias_name@.len() <= 64,
        ensures
            r@ == alias_name@,
    {
        Self::new(alias_name).unwrap()
    }
}

impl Expression {
    /// NULL constant.
    pub fn factory_null() -> (r: Self)
        ensures
            r == Expression::ConstantVariant(SqlValue::Null),
    {
        Self::ConstantVariant(SqlValue::Null)
    }

    /// INTEGER constant.
    pub fn factory_integer(integer: i32) -> (r: Self)
        ensures
            r == Expression::ConstantVariant(SqlValue::NotNull(NNSqlValue::Integer(integer))),
    {
        Self::ConstantVariant(SqlValue::factory_integer(integer))
    }

    /// `unary_operator expression`
    pub fn factory_uni_op(unary_operator: UnaryOperator, expression: Expression) -> (r: Self)
        ensures
            r == Expression::UnaryOperatorVariant(unary_operator, Box::new(expression)),
    {
        Self::UnaryOperatorVariant(unary_operator, Box::new(expression))
    }

    /// `left = right`
    pub fn factory_eq(left: Expression, right: Expression) -> (r: Self)
        ensures
            r == Expression::BooleanExpressionVariant(
                BooleanExpression::ComparisonFunctionVariant(
                    ComparisonFunction::EqualVariant { left: Box::new(left), right: Box::new(right) },
                ),
            ),
    {
        Self::BooleanExpressionVariant(BooleanExpression::factory_eq(left, right))
    }

    /// `left AND right`
    pub fn factory_and(left: BooleanExpression, right: BooleanExpression) -> (r: Self)
        ensures
            r == Expression::BooleanExpressionVariant(
                BooleanExpression::LogicalFunctionVariant(
                    LogicalFunction::AndVariant { left: Box::new(left), right: Box::new(right) },
                ),
            ),
    {
        Self::BooleanExpressionVariant(
            BooleanExpression::LogicalFunctionVariant(
                LogicalFunction::AndVariant { left: Box::new(left), right: Box::new(right) },
            ),
        )
    }
}

impl BooleanExpression {
    /// `left = right`
    pub fn factory_eq(left: Expression, right: Expression) -> (r: Self)
        ensures
            r == BooleanExpression::ComparisonFunctionVariant(
                ComparisonFunction::EqualVariant { left: Box::new(left), right: Box::new(right) },
            ),
    {
        BooleanExpression::ComparisonFunctionVariant(
            ComparisonFunction::EqualVariant { left: Box::new(left), right: Box::new(right) },
        )
    }
}

impl SqlValue {
    /// INTEGER value.
    pub fn factory_integer(integer: i32) -> (r: Self)
        ensures
            r == SqlValue::NotNull(NNSqlValue::Integer(integer)),
    {
        Self::NotNull(NNSqlValue::factory_integer(integer))
    }

    /// BOOLEAN value.
    pub fn factory_bool(bool_: bool) -> (r: Self)
        ensures
            r == SqlValue::NotNull(NNSqlValue::Boolean(bool_)),
    {
        Self::NotNull(NNSqlValue::factory_bool(bool_))
    }
}

impl NNSqlValue {
    /// INTEGER value.
    pub fn factory_integer(integer: i32) -> (r: Self)
        ensures
            r == NNSqlValue::Integer(integer),
    {
        Self::Integer(integer)
    }

    /// BOOLEAN value.
    pub fn factory_bool(bool_: bool) -> (r: Self)
        ensures
            r == NNSqlValue::Boolean(bool_),
    {
        Self::Boolean(bool_)
    }
}

/// Whether `afn` is the field `table.column`, without aliases.
pub open spec fn is_plain_field(afn: AliasedFieldName, table: Seq<char>, column: Seq<char>) -> bool {
    &&& afn.field_name.correlation.correlation_name@ == table
    &&& afn.field_name.correlation.alias is None
    &&& afn.field_name.attribute@ == column
    &&& afn.field_alias is None
}

impl AliasedFieldName {
    /// The field `table.column`, without aliases (names of at most 64 characters).
    pub fn factory(table: &str, column: &str) -> (r: Self)
        requires
            table@.len() <= 64,
            column@.len() <= 64,
        ensures
            is_plain_field(r, table@, column@),
    {
        AliasedFieldName::new(
            FieldName {
                correlation: AliasedCorrelationName {
                    correlation_name: CorrelationName::new(table).unwrap(),
                    alias: None,
                },
                attribute: ColumnName::new(column).unwrap(),
            },
            None,
        )
    }
}

impl RecordSchema {
    /// Schema of fields named `names`, at positions 0, 1, ...
    pub fn factory(names: Vec<AliasedFieldName>) -> (r: Self)
        ensures
            r.spec_inner().len() == names@.len(),
            forall|i: int|
                0 <= i < names@.len() ==> #[trigger] r.spec_inner()[i] == (
                    RPos::spec_new(i as usize),
                    Some(names@[i]),
                ),
    {
        RecordSchema::from_names(names)
    }
}

} // verus!
