use apllodb_shared_components::{
    ApllodbErrorKind, ApllodbResult, BooleanExpression, Expression, SchemaIndex, SqlValue, UnaryOperator,
};

struct TestDatum {
    in_expr: Expression,
    in_value_from_index: Option<Box<dyn Fn(&SchemaIndex) -> ApllodbResult<SqlValue>>>,
    expected_sql_value: SqlValue,
}

impl TestDatum {
    fn new(
        in_expr: Expression,
        in_value_from_index: Option<Box<dyn Fn(&SchemaIndex) -> ApllodbResult<SqlValue>>>,
        expected_sql_value: SqlValue,
    ) -> Self {
        Self { in_expr, in_value_from_index, expected_sql_value }
    }
}

#[test]
fn test_to_sql_value() -> ApllodbResult<()> {
    let test_data: Vec<TestDatum> = vec![
        // constants
        TestDatum::new(Expression::factory_integer(1), None, SqlValue::factory_integer(1)),
        // unary op
        TestDatum::new(
            Expression::factory_uni_op(UnaryOperator::Minus, Expression::factory_integer(1)),
            None,
            SqlValue::factory_integer(-1),
        ),
        // SchemaIndex
        TestDatum::new(
            Expression::SchemaIndexVariant(SchemaIndex::from("x")),
            Some(Box::new(|_| Ok(SqlValue::factory_integer(1)))),
            SqlValue::factory_integer(1),
        ),
        // BooleanExpression
        TestDatum::new(
            Expression::factory_eq(Expression::factory_null(), Expression::factory_null()),
            None,
            SqlValue::factory_bool(false),
        ),
        TestDatum::new(
            Expression::factory_eq(Expression::factory_integer(123), Expression::factory_integer(123)),
            None,
            SqlValue::factory_bool(true),
        ),
        TestDatum::new(
            Expression::factory_eq(Expression::factory_integer(123), Expression::factory_integer(-123)),
            None,
            SqlValue::factory_bool(false),
        ),
        TestDatum::new(
            Expression::factory_and(
                BooleanExpression::factory_eq(Expression::factory_integer(123), Expression::factory_integer(123)),
                BooleanExpression::factory_eq(Expression::factory_integer(456), Expression::factory_integer(456)),
            ),
            None,
            SqlValue::factory_bool(true),
        ),
        TestDatum::new(
            Expression::factory_and(
                BooleanExpression::factory_eq(Expression::factory_integer(-123), Expression::factory_integer(123)),
                BooleanExpression::factory_eq(Expression::factory_integer(456), Expression::factory_integer(456)),
            ),
            None,
            SqlValue::factory_bool(false),
        ),
    ];

    for t in test_data {
        let sql_value = match t.in_value_from_index {
            Some(value_from_index) => t
                .in_expr
                .to_sql_value_for_expr_with_index(&|idx: &SchemaIndex| value_from_index(idx))?,
            None => t.in_expr.to_sql_value_for_expr_without_index()?,
        };
        assert_eq!(sql_value, t.expected_sql_value);
    }

    Ok(())
}

#[test]
fn schema_indexes_left_to_right() {
    let e = Expression::factory_and(
        BooleanExpression::factory_eq(
            Expression::SchemaIndexVariant(SchemaIndex::from("t.a")),
            Expression::factory_integer(1),
        ),
        BooleanExpression::factory_eq(
            Expression::factory_uni_op(UnaryOperator::Minus, Expression::SchemaIndexVariant(SchemaIndex::from("b"))),
            Expression::SchemaIndexVariant(SchemaIndex::from("c")),
        ),
    );
    let idxs = e.to_schema_indexes();
    assert_eq!(idxs, vec![SchemaIndex::from("t.a"), SchemaIndex::from("b"), SchemaIndex::from("c")]);
    assert!(Expression::factory_integer(1).to_schema_indexes().is_empty());
}

#[test]
fn evaluation_errors() {
    // comparing values of types that cannot be compared
    let e = Expression::factory_eq(
        Expression::factory_integer(1),
        Expression::from(SqlValue::factory_bool(true)),
    );
    let err = e.to_sql_value_for_expr_without_index().unwrap_err();
    assert_eq!(*err.kind(), ApllodbErrorKind::DatatypeMismatch);
    assert_eq!(err.desc(), "`self` and `other` are not in comparable type - self: Integer(1), other: Boolean(true)");

    // AND of a non-boolean value
    let e = Expression::factory_and(
        BooleanExpression::factory_eq(Expression::factory_integer(1), Expression::factory_integer(1)),
        BooleanExpression::factory_eq(Expression::factory_integer(1), Expression::factory_integer(1)),
    );
    assert_eq!(e.to_sql_value_for_expr_without_index().unwrap(), SqlValue::factory_bool(true));

    // the error of value_from_index comes back
    let e = Expression::SchemaIndexVariant(SchemaIndex::from("x"));
    let err = e
        .to_sql_value_for_expr_with_index(&|_: &SchemaIndex| {
            Err(apllodb_shared_components::ApllodbError::feature_not_supported("no record"))
        })
        .unwrap_err();
    assert_eq!(*err.kind(), ApllodbErrorKind::FeatureNotSupported);
    assert_eq!(err.desc(), "no record");

    // -NULL is NULL
    let e = Expression::factory_uni_op(UnaryOperator::Minus, Expression::factory_null());
    assert!(matches!(e.to_sql_value_for_expr_without_index().unwrap(), SqlValue::Null));
}

#[test]
fn and_is_false_when_left_is_false_or_null() {
    // left is NULL = 1 (FALSE) => FALSE, even though the right side is TRUE
    let e = Expression::factory_and(
        BooleanExpression::factory_eq(Expression::factory_null(), Expression::factory_integer(1)),
        BooleanExpression::factory_eq(Expression::factory_integer(2), Expression::factory_integer(2)),
    );
    assert_eq!(e.to_sql_value_for_expr_without_index().unwrap(), SqlValue::factory_bool(false));
}

#[test]
fn negating_the_least_integer_in_an_expression_fails() {
    let e = Expression::factory_uni_op(UnaryOperator::Minus, Expression::factory_integer(i32::MIN));
    let err = e.to_sql_value_for_expr_without_index().unwrap_err();
    assert_eq!(*err.kind(), ApllodbErrorKind::InvalidParameterValue);
    let err = e
        .to_sql_value_for_expr_with_index(&|_: &SchemaIndex| Ok(SqlValue::Null))
        .unwrap_err();
    assert_eq!(*err.kind(), ApllodbErrorKind::InvalidParameterValue);
}
