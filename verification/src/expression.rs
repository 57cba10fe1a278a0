//! Expressions: constants, field references, operators and boolean functions.
use vstd::prelude::*;
use vstd::std_specs::convert::FromSpecImpl;

use crate::error::kind::ApllodbErrorKind;
use crate::error::{result_view, ApllodbError, ApllodbErrorView, ApllodbResult};
use crate::schema::schema_index::SchemaIndex;
use crate::text::string_of;
use crate::value::nn_sql_value::NNSqlValue;
use crate::value::sql_compare_result::SqlCompareResult;
use crate::value::sql_value::SqlValue;

verus! {

/// Unary operators.
#[derive(Clone, Copy, Eq, PartialEq, Hash, Debug, Structural)]
pub enum UnaryOperator {
    /// `-`
    Minus,
}

/// Binary operators.
#[derive(Clone, Copy, Eq, PartialEq, Hash, Debug, Structural)]
pub enum BinaryOperator {
    /// `=`
    Equal,
}

/// Expression.
#[derive(PartialEq, Debug)]
pub enum Expression {
    /// Constant
    ConstantVariant(SqlValue),
    /// Field/Column index of a record
    SchemaIndexVariant(SchemaIndex),
    /// With unary operator
    UnaryOperatorVariant(UnaryOperator, Box<Expression>),
    /// Boolean expression
    BooleanExpressionVariant(BooleanExpression),
}

/// Boolean expression.
#[derive(PartialEq, Debug)]
pub enum BooleanExpression {
    /// Comparison
    ComparisonFunctionVariant(ComparisonFunction),
    /// AND, OR, NOT
    LogicalFunctionVariant(LogicalFunction),
}

/// Comparison function and its operands
#[derive(PartialEq, Debug)]
pub enum ComparisonFunction {
    /// `=` operation
    EqualVariant {
        /// Left operand
        left: Box<Expression>,
        /// Right operand
        right: Box<Expression>,
    },
}

/// AND, OR, NOT
#[derive(PartialEq, Debug)]
pub enum LogicalFunction {
    /// `AND` operation
    AndVariant {
        /// Left operand
        left: Box<BooleanExpression>,
        /// Right operand
        right: Box<BooleanExpression>,
    },
}

impl Clone for Expression {
    fn clone(&self) -> (r: Self)
        ensures
            r == *self,
        decreases self,
    {
        match self {
            Expression::ConstantVariant(v) => Expression::ConstantVariant(v.clone()),
            Expression::SchemaIndexVariant(idx) => Expression::SchemaIndexVariant(idx.clone()),
            Expression::UnaryOperatorVariant(op, child) => Expression::UnaryOperatorVariant(
                *op,
                Box::new((**child).clone()),
            ),
            Expression::BooleanExpressionVariant(b) => Expression::BooleanExpressionVariant(b.clone()),
        }
    }
}

impl Clone for BooleanExpression {
    fn clone(&self) -> (r: Self)
        ensures
            r == *self,
        decreases self,
    {
        match self {
            BooleanExpression::ComparisonFunctionVariant(
                ComparisonFunction::EqualVariant { left, right },
            ) => BooleanExpression::ComparisonFunctionVariant(
                ComparisonFunction::EqualVariant {
                    left: Box::new((**left).clone()),
                    right: Box::new((**right).clone()),
                },
            ),
            BooleanExpression::LogicalFunctionVariant(LogicalFunction::AndVariant { left, right }) => {
                BooleanExpression::LogicalFunctionVariant(
                    LogicalFunction::AndVariant {
                        left: Box::new((**left).clone()),
                        right: Box::new((**right).clone()),
                    },
                )
            },
        }
    }
}

/// Values of the fields of a record, looked up by index (or the error of the lookup).
pub type Lookup = spec_fn(SchemaIndex) -> Result<SqlValue, ApllodbErrorView>;

/// Whether the closure `f` gives, for every index, the value (or error) that `lookup` gives.
pub open spec fn described_by<F: Fn(&SchemaIndex) -> ApllodbResult<SqlValue>>(f: F, lookup: Lookup) -> bool {
    forall|idx: SchemaIndex, r: ApllodbResult<SqlValue>|
        #[trigger] call_ensures(f, (&idx,), r) ==> result_view(r) == lookup(idx)
}

/// Applies a unary operator: `-NULL` is NULL; other values are negated.
pub open spec fn apply_unary(op: UnaryOperator, v: SqlValue) -> Result<SqlValue, ApllodbErrorView> {
    match (op, v) {
        (UnaryOperator::Minus, SqlValue::Null) => Ok(SqlValue::Null),
        (UnaryOperator::Minus, SqlValue::NotNull(nn)) => match nn.spec_negate() {
            Ok(n) => Ok(SqlValue::NotNull(n)),
            Err(e) => Err(e),
        },
    }
}

/// The BOOLEAN value `b`.
pub open spec fn bool_value(b: bool) -> SqlValue {
    SqlValue::NotNull(NNSqlValue::Boolean(b))
}

/// Value of an expression, field values taken from `lookup`.
///
/// Operands are evaluated left to right and the first error is the result. `=` gives TRUE only for
/// values that compare equal (so FALSE when either is NULL); `AND` evaluates both operands, then is FALSE
/// when the left one is FALSE in boolean context, else the right one in boolean context.
pub open spec fn spec_eval(e: Expression, lookup: Lookup) -> Result<SqlValue, ApllodbErrorView>
    decreases e,
{
    match e {
        Expression::ConstantVariant(v) => Ok(v),
        Expression::SchemaIndexVariant(idx) => lookup(idx),
        Expression::UnaryOperatorVariant(op, child) => match spec_eval(*child, lookup) {
            Err(err) => Err(err),
            Ok(v) => apply_unary(op, v),
        },
        Expression::BooleanExpressionVariant(b) => spec_eval_bool(b, lookup),
    }
}

/// Value of a boolean expression, field values taken from `lookup` (see [spec_eval]).
pub open spec fn spec_eval_bool(b: BooleanExpression, lookup: Lookup) -> Result<SqlValue, ApllodbErrorView>
    decreases b,
{
    match b {
        BooleanExpression::ComparisonFunctionVariant(ComparisonFunction::EqualVariant { left, right }) => {
            match spec_eval(*left, lookup) {
                Err(err) => Err(err),
                Ok(l) => match spec_eval(*right, lookup) {
                    Err(err) => Err(err),
                    Ok(r) => match l.spec_compare(r) {
                        Err(err) => Err(err),
                        Ok(c) => Ok(bool_value(c is Eq)),
                    },
                },
            }
        },
        BooleanExpression::LogicalFunctionVariant(LogicalFunction::AndVariant { left, right }) => {
            match spec_eval_bool(*left, lookup) {
                Err(err) => Err(err),
                Ok(l) => match spec_eval_bool(*right, lookup) {
                    Err(err) => Err(err),
                    Ok(r) => match l.spec_to_bool() {
                        Err(err) => Err(err),
                        Ok(lb) => if !lb {
                            Ok(bool_value(false))
                        } else {
                            match r.spec_to_bool() {
                                Err(err) => Err(err),
                                Ok(rb) => Ok(bool_value(rb)),
                            }
                        },
                    },
                },
            }
        },
    }
}

/// All the indexes in an expression, left to right.
pub open spec fn spec_schema_indexes(e: Expression) -> Seq<SchemaIndex>
    decreases e,
{
    match e {
        Expression::ConstantVariant(_) => Seq::empty(),
        Expression::SchemaIndexVariant(idx) => seq![idx],
        Expression::UnaryOperatorVariant(_, child) => spec_schema_indexes(*child),
        Expression::BooleanExpressionVariant(b) => spec_bool_schema_indexes(b),
    }
}

/// All the indexes in a boolean expression, left to right.
pub open spec fn spec_bool_schema_indexes(b: BooleanExpression) -> Seq<SchemaIndex>
    decreases b,
{
    match b {
        BooleanExpression::ComparisonFunctionVariant(ComparisonFunction::EqualVariant { left, right }) => {
            spec_schema_indexes(*left) + spec_schema_indexes(*right)
        },
        BooleanExpression::LogicalFunctionVariant(LogicalFunction::AndVariant { left, right }) => {
            spec_bool_schema_indexes(*left) + spec_bool_schema_indexes(*right)
        },
    }
}

/// The lookup used for expressions without indexes: it is never consulted.
pub open spec fn no_index_lookup() -> Lookup {
    |idx: SchemaIndex|
        Err(
            ApllodbErrorView {
                kind: ApllodbErrorKind::UndefinedColumn,
                desc: "this expression includes SchemaIndexVariant"@,
            },
        )
}

fn eval<F: Fn(&SchemaIndex) -> ApllodbResult<SqlValue>>(e: &Expression, f: &F) -> (r: ApllodbResult<SqlValue>)
    requires
        forall|idx: SchemaIndex| call_requires(*f, (&idx,)),
        exists|lookup: Lookup| described_by(*f, lookup),
    ensures
        forall|lookup: Lookup| described_by(*f, lookup) ==> result_view(r) == spec_eval(*e, lookup),
    decreases e,
{
    match e {
        Expression::ConstantVariant(sql_value) => {
            let r = Ok(sql_value.clone());
            assert forall|lookup: Lookup| described_by(*f, lookup) implies result_view(r) == spec_eval(
                *e,
                lookup,
            ) by {}
            r
        },
        Expression::SchemaIndexVariant(idx) => {
            let r = f(idx);
            assert forall|lookup: Lookup| described_by(*f, lookup) implies result_view(r) == spec_eval(
                *e,
                lookup,
            ) by {
                assert(call_ensures(*f, (idx,), r));
            }
            r
        },
        Expression::UnaryOperatorVariant(op, child) => {
            let child_value = eval(&**child, f);
            let ghost cv = result_view(child_value);
            let r = match child_value {
                Err(err) => Err(err),
                Ok(SqlValue::Null) => Ok(SqlValue::Null),
                Ok(SqlValue::NotNull(nn)) => {
                    match nn.negate() {
                        Ok(n) => Ok(SqlValue::NotNull(n)),
                        Err(err) => Err(err),
                    }
                },
            };
            assert forall|lookup: Lookup| described_by(*f, lookup) implies result_view(r) == spec_eval(
                *e,
                lookup,
            ) by {
                assert(cv == spec_eval(**child, lookup));
            }
            r
        },
        Expression::BooleanExpressionVariant(b) => {
            let r = eval_bool(b, f);
            assert forall|lookup: Lookup| described_by(*f, lookup) implies result_view(r) == spec_eval(
                *e,
                lookup,
            ) by {
                assert(result_view(r) == spec_eval_bool(*b, lookup));
            }
            r
        },
    }
}

fn eval_bool<F: Fn(&SchemaIndex) -> ApllodbResult<SqlValue>>(b: &BooleanExpression, f: &F) -> (r: ApllodbResult<
    SqlValue,
>)
    requires
        forall|idx: SchemaIndex| call_requires(*f, (&idx,)),
        exists|lookup: Lookup| described_by(*f, lookup),
    ensures
        forall|lookup: Lookup| described_by(*f, lookup) ==> result_view(r) == spec_eval_bool(*b, lookup),
    decreases b,
{
    match b {
        BooleanExpression::ComparisonFunctionVariant(ComparisonFunction::EqualVariant { left, right }) => {
            let lv = eval(&**left, f);
            let ghost lg = result_view(lv);
            let left_value = match lv {
                Ok(v) => v,
                Err(err) => {
                    assert forall|lookup: Lookup| described_by(*f, lookup) implies result_view(
                        Err::<SqlValue, ApllodbError>(err),
                    ) == spec_eval_bool(*b, lookup) by {
                        assert(lg == spec_eval(**left, lookup));
                    }
                    return Err(err);
                },
            };
            let rv = eval(&**right, f);
            let ghost rg = result_view(rv);
            let right_value = match rv {
                Ok(v) => v,
                Err(err) => {
                    assert forall|lookup: Lookup| described_by(*f, lookup) implies result_view(
                        Err::<SqlValue, ApllodbError>(err),
                    ) == spec_eval_bool(*b, lookup) by {
                        assert(lg == spec_eval(**left, lookup));
                        assert(rg == spec_eval(**right, lookup));
                    }
                    return Err(err);
                },
            };
            let r = match left_value.sql_compare(&right_value) {
                Ok(c) => Ok(SqlValue::NotNull(NNSqlValue::Boolean(c.is_equal()))),
                Err(err) => Err(err),
            };
            assert forall|lookup: Lookup| described_by(*f, lookup) implies result_view(r) == spec_eval_bool(
                *b,
                lookup,
            ) by {
                assert(lg == spec_eval(**left, lookup));
                assert(rg == spec_eval(**right, lookup));
            }
            r
        },
        BooleanExpression::LogicalFunctionVariant(LogicalFunction::AndVariant { left, right }) => {
            let lv = eval_bool(&**left, f);
            let ghost lg = result_view(lv);
            let left_value = match lv {
                Ok(v) => v,
                Err(err) => {
                    assert forall|lookup: Lookup| described_by(*f, lookup) implies result_view(
                        Err::<SqlValue, ApllodbError>(err),
                    ) == spec_eval_bool(*b, lookup) by {
                        assert(lg == spec_eval_bool(**left, lookup));
                    }
                    return Err(err);
                },
            };
            let rv = eval_bool(&**right, f);
            let ghost rg = result_view(rv);
            let right_value = match rv {
                Ok(v) => v,
                Err(err) => {
                    assert forall|lookup: Lookup| described_by(*f, lookup) implies result_view(
                        Err::<SqlValue, ApllodbError>(err),
                    ) == spec_eval_bool(*b, lookup) by {
                        assert(lg == spec_eval_bool(**left, lookup));
                        assert(rg == spec_eval_bool(**right, lookup));
                    }
                    return Err(err);
                },
            };
            let r = match left_value.to_bool() {
                Err(err) => Err(err),
                Ok(lb) => {
                    if !lb {
                        Ok(SqlValue::NotNull(NNSqlValue::Boolean(false)))
                    } else {
                        match right_value.to_bool() {
                            Ok(rb) => Ok(SqlValue::NotNull(NNSqlValue::Boolean(rb))),
                            Err(err) => Err(err),
                        }
                    }
                },
            };
            assert forall|lookup: Lookup| described_by(*f, lookup) implies result_view(r) == spec_eval_bool(
                *b,
                lookup,
            ) by {
                assert(lg == spec_eval_bool(**left, lookup));
                assert(rg == spec_eval_bool(**right, lookup));
            }
            r
        },
    }
}

fn bool_schema_indexes(b: &BooleanExpression) -> (r: Vec<SchemaIndex>)
    ensures
        r@ == spec_bool_schema_indexes(*b),
    decreases b,
{
    match b {
        BooleanExpression::LogicalFunctionVariant(LogicalFunction::AndVariant { left, right }) => {
            let mut l = bool_schema_indexes(&**left);
            let mut r = bool_schema_indexes(&**right);
            l.append(&mut r);
            l
        },
        BooleanExpression::ComparisonFunctionVariant(ComparisonFunction::EqualVariant { left, right }) => {
            let mut l = (**left).to_schema_indexes();
            let mut r = (**right).to_schema_indexes();
            l.append(&mut r);
            l
        },
    }
}

impl Expression {
    /// Fully evaluate an expression (including SchemaIndexVariant) to SqlValue.
    ///
    /// Row or Record is necessary for SchemaIndexVariant and it is supposed to be indirectly passed via
    /// `value_from_index`, which must give the same answer each time it is asked for the same index.
    ///
    /// # Failures
    ///
    /// The first error met (see [spec_eval]): from `value_from_index`, comparing values that cannot be
    /// compared, negating a string or a boolean, or evaluating a non-BOOLEAN value in `AND`.
    pub fn to_sql_value_for_expr_with_index<F: Fn(&SchemaIndex) -> ApllodbResult<SqlValue>>(
        &self,
        value_from_index: &F,
    ) -> (r: ApllodbResult<SqlValue>)
        requires
            forall|idx: SchemaIndex| call_requires(*value_from_index, (&idx,)),
            exists|lookup: Lookup| described_by(*value_from_index, lookup),
        ensures
            forall|lookup: Lookup|
                described_by(*value_from_index, lookup) ==> result_view(r) == spec_eval(*self, lookup),
    {
        eval(self, value_from_index)
    }

    /// Fully evaluate an expression (without SchemaIndexVariant) to SqlValue.
    ///
    /// # Panics
    ///
    /// An expression that includes at least 1 Expression::SchemaIndexVariant is a caller's error:
    /// `requires` rules it out.
    pub fn to_sql_value_for_expr_without_index(&self) -> (r: ApllodbResult<SqlValue>)
        requires
            spec_schema_indexes(*self).len() == 0,
        ensures
            result_view(r) == spec_eval(*self, no_index_lookup()),
    {
        let f = |_idx: &SchemaIndex| -> (r: ApllodbResult<SqlValue>)
            ensures
                result_view(r) == no_index_lookup()(*_idx),
            {
                Err(
                    ApllodbError::new(
                        ApllodbErrorKind::UndefinedColumn,
                        string_of("this expression includes SchemaIndexVariant"),
                    ),
                )
            };
        proof {
            assert(described_by(f, no_index_lookup()));
        }
        let r = eval(self, &f);
        proof {
            assert(described_by(f, no_index_lookup()));
        }
        r
    }

    /// retrieves all SchemaIndex in a expression, left to right
    pub fn to_schema_indexes(&self) -> (r: Vec<SchemaIndex>)
        ensures
            r@ == spec_schema_indexes(*self),
        decreases self,
    {
        match self {
            Expression::ConstantVariant(_) => Vec::new(),
            Expression::SchemaIndexVariant(idx) => {
                let mut v = Vec::new();
                v.push(idx.clone());
                assert(v@ =~= seq![*idx]);
                v
            },
            Expression::UnaryOperatorVariant(_op, expr) => (**expr).to_schema_indexes(),
            Expression::BooleanExpressionVariant(bool_expr) => bool_schema_indexes(bool_expr),
        }
    }
}

/// Law: an expression without indexes has the same value whatever the lookup.
pub proof fn lemma_eval_ignores_lookup_without_index(e: Expression, l1: Lookup, l2: Lookup)
    requires
        spec_schema_indexes(e).len() == 0,
    ensures
        spec_eval(e, l1) == spec_eval(e, l2),
    decreases e,
{
    match e {
        Expression::UnaryOperatorVariant(_, child) => {
            lemma_eval_ignores_lookup_without_index(*child, l1, l2);
        },
        Expression::BooleanExpressionVariant(b) => {
            lemma_eval_bool_ignores_lookup_without_index(b, l1, l2);
        },
        _ => {},
    }
}

/// Law: a boolean expression without indexes has the same value whatever the lookup.
pub proof fn lemma_eval_bool_ignores_lookup_without_index(b: BooleanExpression, l1: Lookup, l2: Lookup)
    requires
        spec_bool_schema_indexes(b).len() == 0,
    ensures
        spec_eval_bool(b, l1) == spec_eval_bool(b, l2),
    decreases b,
{
    match b {
        BooleanExpression::ComparisonFunctionVariant(ComparisonFunction::EqualVariant { left, right }) => {
            lemma_eval_ignores_lookup_without_index(*left, l1, l2);
            lemma_eval_ignores_lookup_without_index(*right, l1, l2);
        },
        BooleanExpression::LogicalFunctionVariant(LogicalFunction::AndVariant { left, right }) => {
            lemma_eval_bool_ignores_lookup_without_index(*left, l1, l2);
            lemma_eval_bool_ignores_lookup_without_index(*right, l1, l2);
        },
    }
}

impl From<SqlValue> for Expression {
    fn from(sql_val: SqlValue) -> (r: Self) {
        Self::ConstantVariant(sql_val)
    }
}

impl FromSpecImpl<SqlValue> for Expression {
    open spec fn obeys_from_spec() -> bool {
        true
    }

    open spec fn from_spec(sql_val: SqlValue) -> Self {
        Expression::ConstantVariant(sql_val)
    }
}

/// Law: `AND` of two BOOLEAN operands is their conjunction: TRUE exactly when both are TRUE.
pub proof fn lemma_and_is_conjunction(
    left: BooleanExpression,
    right: BooleanExpression,
    lookup: Lookup,
    x: bool,
    y: bool,
)
    requires
        spec_eval_bool(left, lookup) == Ok::<SqlValue, ApllodbErrorView>(SqlValue::NotNull(NNSqlValue::Boolean(x))),
        spec_eval_bool(right, lookup) == Ok::<SqlValue, ApllodbErrorView>(SqlValue::NotNull(NNSqlValue::Boolean(y))),
    ensures
        spec_eval_bool(
            BooleanExpression::LogicalFunctionVariant(
                LogicalFunction::AndVariant { left: Box::new(left), right: Box::new(right) },
            ),
            lookup,
        ) == Ok::<SqlValue, ApllodbErrorView>(SqlValue::NotNull(NNSqlValue::Boolean(x && y))),
{
}

/// Law: a boolean expression that evaluates gives a BOOLEAN value, never NULL.
pub proof fn lemma_boolean_expression_is_boolean(b: BooleanExpression, lookup: Lookup)
    ensures
        spec_eval_bool(b, lookup) matches Ok(v) ==> v matches SqlValue::NotNull(NNSqlValue::Boolean(_)),
{
}

/// Law: `=` of two operands that evaluate is TRUE exactly when their values compare equal, FALSE
/// when they compare otherwise (NULL included), and the comparison's error when they cannot be
/// compared.
pub proof fn lemma_equal_is_comparison(left: Expression, right: Expression, lookup: Lookup, l: SqlValue, r: SqlValue)
    requires
        spec_eval(left, lookup) == Ok::<SqlValue, ApllodbErrorView>(l),
        spec_eval(right, lookup) == Ok::<SqlValue, ApllodbErrorView>(r),
    ensures
        spec_eval_bool(
            BooleanExpression::ComparisonFunctionVariant(
                ComparisonFunction::EqualVariant { left: Box::new(left), right: Box::new(right) },
            ),
            lookup,
        ) == match l.spec_compare(r) {
            Ok(c) => Ok::<SqlValue, ApllodbErrorView>(SqlValue::NotNull(NNSqlValue::Boolean(c == SqlCompareResult::Eq))),
            Err(e) => Err(e),
        },
{
}

/// Law: `AND` whose left operand is FALSE is FALSE, whatever value the right operand has.
pub proof fn lemma_and_false_left(left: BooleanExpression, right: BooleanExpression, lookup: Lookup, v: SqlValue)
    requires
        spec_eval_bool(left, lookup) == Ok::<SqlValue, ApllodbErrorView>(SqlValue::NotNull(NNSqlValue::Boolean(false))),
        spec_eval_bool(right, lookup) == Ok::<SqlValue, ApllodbErrorView>(v),
    ensures
        spec_eval_bool(
            BooleanExpression::LogicalFunctionVariant(
                LogicalFunction::AndVariant { left: Box::new(left), right: Box::new(right) },
            ),
            lookup,
        ) == Ok::<SqlValue, ApllodbErrorView>(SqlValue::NotNull(NNSqlValue::Boolean(false))),
{
}

} // verus!
