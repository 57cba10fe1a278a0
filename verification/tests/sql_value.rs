use apllodb_shared_components::{
    find_dup, find_dup_slow, ApllodbErrorKind, NNSqlValue, SqlCompareResult, SqlValue, SqlValueHashKey,
};

#[test]
fn null_is_not_equal_to_null() {
    assert_ne!(SqlValue::Null, SqlValue::Null);
    assert_eq!(
        SqlValue::NotNull(NNSqlValue::Integer(1)),
        SqlValue::NotNull(NNSqlValue::BigInt(1))
    );
    assert_ne!(
        SqlValue::NotNull(NNSqlValue::Integer(1)),
        SqlValue::NotNull(NNSqlValue::Integer(2))
    );
}

#[test]
fn compare_values() {
    let one = SqlValue::NotNull(NNSqlValue::SmallInt(1));
    let two = SqlValue::NotNull(NNSqlValue::BigInt(2));
    assert_eq!(one.sql_compare(&two).unwrap(), SqlCompareResult::LessThan);
    assert_eq!(two.sql_compare(&one).unwrap(), SqlCompareResult::GreaterThan);
    assert_eq!(one.sql_compare(&SqlValue::Null).unwrap(), SqlCompareResult::Null);
    let a = SqlValue::NotNull(NNSqlValue::Text("a".to_string()));
    let b = SqlValue::NotNull(NNSqlValue::Text("b".to_string()));
    assert_eq!(a.sql_compare(&b).unwrap(), SqlCompareResult::LessThan);
    assert_eq!(a.sql_compare(&a).unwrap(), SqlCompareResult::Eq);
    let f = SqlValue::NotNull(NNSqlValue::Boolean(false));
    let t = SqlValue::NotNull(NNSqlValue::Boolean(true));
    assert_eq!(f.sql_compare(&t).unwrap(), SqlCompareResult::NotEq);
    let e = one.sql_compare(&a).unwrap_err();
    assert_eq!(*e.kind(), ApllodbErrorKind::DatatypeMismatch);
    assert!(SqlCompareResult::Eq.is_equal());
    assert!(!SqlCompareResult::NotEq.is_equal());
}

#[test]
fn values_as_bool() {
    assert!(SqlValue::NotNull(NNSqlValue::Boolean(true)).to_bool().unwrap());
    assert!(!SqlValue::NotNull(NNSqlValue::Boolean(false)).to_bool().unwrap());
    assert!(!SqlValue::Null.to_bool().unwrap());
    let e = SqlValue::NotNull(NNSqlValue::Integer(1)).to_bool().unwrap_err();
    assert_eq!(*e.kind(), ApllodbErrorKind::DatatypeMismatch);
}

#[test]
fn hash_keys_of_equal_values_are_equal() {
    let a = SqlValueHashKey::from(&SqlValue::NotNull(NNSqlValue::SmallInt(42)));
    let b = SqlValueHashKey::from(&SqlValue::NotNull(NNSqlValue::Integer(42)));
    let c = SqlValueHashKey::from(&SqlValue::NotNull(NNSqlValue::BigInt(42)));
    assert_eq!(a, b);
    assert_eq!(b, c);
    assert_eq!(a, SqlValueHashKey::Integer(42));
    assert_ne!(a, SqlValueHashKey::from(&SqlValue::NotNull(NNSqlValue::Integer(43))));
    assert_eq!(
        SqlValueHashKey::from(&SqlValue::NotNull(NNSqlValue::Text("x".to_string()))),
        SqlValueHashKey::Text("x".to_string())
    );
    assert!(matches!(SqlValueHashKey::from(&SqlValue::Null), SqlValueHashKey::Null(_)));
}

#[test]
fn find_duplicates() {
    assert_eq!(find_dup(&[1, 2, 3, 2, 1]), Some(1));
    assert_eq!(find_dup(&[1, 2, 2, 1]), Some(1));
    assert_eq!(find_dup(&[3, 4, 4]), Some(4));
    assert_eq!(find_dup_slow(&[1, 2, 3, 2, 1]), Some(1));
    assert_eq!(find_dup::<i32>(&[]), None);
    assert_eq!(find_dup(&[1, 2, 3]), None);
    assert_eq!(find_dup_slow(&[1, 2, 3]), None);
    assert_eq!(find_dup_slow(&[3, 4, 4]), Some(4));
}

#[test]
fn hash_keys_in_a_hash_set() {
    let v_integer = SqlValue::NotNull(NNSqlValue::Integer(42));
    let v_smallint = SqlValue::NotNull(NNSqlValue::SmallInt(42));
    let v_bigint = SqlValue::NotNull(NNSqlValue::BigInt(42));
    let v_null = SqlValue::Null;

    assert_eq!(v_integer, v_integer);
    assert_eq!(v_smallint, v_bigint, "Comparing SmallInt with BigInt is valid");
    assert_ne!(v_null, v_null, "NULL != NULL");

    let mut hash_set = std::collections::HashSet::<SqlValueHashKey>::new();
    assert!(hash_set.insert(SqlValueHashKey::from(&v_integer)));
    assert!(!hash_set.insert(SqlValueHashKey::from(&v_integer)), "same value is already inserted");
    assert!(
        !hash_set.insert(SqlValueHashKey::from(&v_smallint)),
        "same hash values are generated from both SmallInt and Integer"
    );
    assert!(hash_set.insert(SqlValueHashKey::from(&v_null)));
    assert!(hash_set.insert(SqlValueHashKey::from(&v_null)), "two NULL values are different");
    assert_ne!(
        SqlValueHashKey::from(&v_null),
        SqlValueHashKey::from(&v_null),
        "two NULL values generates different Hash value"
    );
}
