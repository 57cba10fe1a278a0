use apllodb_shared_components::{ApllodbErrorKind, ApllodbResult, DataType, DataTypeKind, NNSqlValue, SqlCompareResult, SqlConvertible, SqlType};

#[test]
fn test_unpack_loosely() -> ApllodbResult<()> {
    assert_eq!(NNSqlValue::SmallInt(-1).unpack::<i16>()?, -1);
    assert_eq!(NNSqlValue::SmallInt(-1).unpack::<i32>()?, -1);
    assert_eq!(NNSqlValue::SmallInt(-1).unpack::<i64>()?, -1);

    assert_eq!(
        NNSqlValue::Integer(-1).unpack::<i16>().unwrap_err().kind(),
        &ApllodbErrorKind::DatatypeMismatch
    );
    assert_eq!(NNSqlValue::Integer(-1).unpack::<i32>()?, -1);
    assert_eq!(NNSqlValue::Integer(-1).unpack::<i64>()?, -1);

    assert_eq!(
        NNSqlValue::BigInt(-1).unpack::<i16>().unwrap_err().kind(),
        &ApllodbErrorKind::DatatypeMismatch
    );
    assert_eq!(
        NNSqlValue::BigInt(-1).unpack::<i32>().unwrap_err().kind(),
        &ApllodbErrorKind::DatatypeMismatch
    );
    assert_eq!(NNSqlValue::BigInt(-1).unpack::<i64>()?, -1);

    assert_eq!(
        NNSqlValue::Text("🚔".to_string()).unpack::<String>()?,
        "🚔".to_string()
    );

    Ok(())
}

#[test]
fn unpack_error_description() {
    let e = NNSqlValue::Integer(-1).unpack::<i16>().unwrap_err();
    assert_eq!(e.desc(), "-1 cannot be unpacked into i16");
    let e = NNSqlValue::Text("x".to_string()).unpack::<bool>().unwrap_err();
    assert_eq!(e.desc(), "\"x\" cannot be unpacked into bool");
    assert_eq!(NNSqlValue::Boolean(true).unpack::<bool>().unwrap(), true);
}

#[test]
fn sql_types_of_values() {
    assert_eq!(NNSqlValue::SmallInt(1).sql_type(), SqlType::small_int());
    assert_eq!(NNSqlValue::Integer(1).sql_type(), SqlType::integer());
    assert_eq!(NNSqlValue::BigInt(1).sql_type(), SqlType::big_int());
    assert_eq!(NNSqlValue::Text("a".to_string()).sql_type(), SqlType::text());
    assert_eq!(NNSqlValue::Boolean(false).sql_type(), SqlType::boolean());
    assert_eq!(SqlType::integer().debug_text(), format!("{:?}", SqlType::integer()));
    assert_eq!(SqlType::text().debug_text(), format!("{:?}", SqlType::text()));
}

#[test]
fn accepted_sql_types() {
    assert!(i32::is_acceptable(&DataTypeKind::SmallInt));
    assert!(i32::is_acceptable(&DataTypeKind::Integer));
    assert!(!i32::is_acceptable(&DataTypeKind::BigInt));
    assert_eq!(
        i32::to_sql_types(),
        vec![DataType::new(DataTypeKind::Integer, false), DataType::new(DataTypeKind::BigInt, false)]
    );
    assert_eq!(
        i64::from_sql_types(),
        vec![
            DataType::new(DataTypeKind::SmallInt, false),
            DataType::new(DataTypeKind::Integer, false),
            DataType::new(DataTypeKind::BigInt, false)
        ]
    );
    assert_eq!(i16::to_sql_types().len(), 3);
    assert_eq!(String::from_sql_types(), vec![DataType::new(DataTypeKind::Text, false)]);
}

#[test]
fn negation() {
    assert_eq!(NNSqlValue::SmallInt(3).negate().unwrap(), NNSqlValue::SmallInt(-3));
    assert_eq!(NNSqlValue::BigInt(-7).negate().unwrap(), NNSqlValue::BigInt(7));
    let e = NNSqlValue::Text("a".to_string()).negate().unwrap_err();
    assert_eq!(*e.kind(), ApllodbErrorKind::InvalidParameterValue);
    assert_eq!(e.desc(), "String cannot negate");
}

#[test]
fn display_strings() {
    assert_eq!(NNSqlValue::Integer(-42).to_display_string(), "-42");
    assert_eq!(NNSqlValue::BigInt(i64::MIN).to_display_string(), i64::MIN.to_string());
    assert_eq!(NNSqlValue::SmallInt(0).to_display_string(), "0");
    assert_eq!(NNSqlValue::Text("abc".to_string()).to_display_string(), "\"abc\"");
    assert_eq!(NNSqlValue::Boolean(true).to_display_string(), "true");
}

#[test]
fn negate_twice_gives_value_back() {
    for v in [NNSqlValue::SmallInt(i16::MAX), NNSqlValue::Integer(-5), NNSqlValue::BigInt(0)] {
        assert_eq!(v.clone().negate().unwrap().negate().unwrap(), v);
    }
}

#[test]
fn comparing_the_other_way_round() {
    let a = NNSqlValue::Text("abc".to_string());
    let b = NNSqlValue::Text("abd".to_string());
    assert_eq!(a.sql_compare(&b).unwrap(), SqlCompareResult::LessThan);
    assert_eq!(b.sql_compare(&a).unwrap(), SqlCompareResult::GreaterThan);
    assert!(a.sql_compare(&NNSqlValue::Boolean(true)).is_err());
    assert!(NNSqlValue::Boolean(true).sql_compare(&a).is_err());
}

#[test]
fn negating_the_least_integer_fails() {
    let e = NNSqlValue::SmallInt(i16::MIN).negate().unwrap_err();
    assert_eq!(*e.kind(), ApllodbErrorKind::InvalidParameterValue);
    assert_eq!(e.desc(), "-32768 cannot negate");
    assert_eq!(
        *NNSqlValue::Integer(i32::MIN).negate().unwrap_err().kind(),
        ApllodbErrorKind::InvalidParameterValue
    );
    assert_eq!(NNSqlValue::BigInt(i64::MIN).negate().unwrap_err().desc(), "-9223372036854775808 cannot negate");
    assert_eq!(NNSqlValue::SmallInt(i16::MIN + 1).negate().unwrap(), NNSqlValue::SmallInt(i16::MAX));
}

#[test]
fn debug_forms() {
    for v in [
        NNSqlValue::SmallInt(-3),
        NNSqlValue::Integer(42),
        NNSqlValue::BigInt(i64::MIN),
        NNSqlValue::Text("a\"b\\c\n🚔".to_string()),
        NNSqlValue::Boolean(false),
    ] {
        assert_eq!(v.debug_text(), format!("{:?}", v));
    }
    assert_eq!(NNSqlValue::Text("x".to_string()).debug_form("\"y\""), "Text(\"y\")");
    assert_eq!(NNSqlValue::Integer(7).debug_form("ignored"), "Integer(7)");
    let e = NNSqlValue::Text("a".to_string()).sql_compare(&NNSqlValue::Integer(1)).unwrap_err();
    assert_eq!(e.desc(), "`self` and `other` are not in comparable type - self: Text(\"a\"), other: Integer(1)");
}
