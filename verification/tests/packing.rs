use apllodb_shared_components::{ApllodbErrorKind, ApllodbResult, SqlConvertible};

#[test]
fn test_pack_unpack() -> ApllodbResult<()> {
    let rust_values = vec![0, 1, -1, i32::MAX, i32::MIN];

    for v in rust_values {
        let packed = i32::pack(&v)?;
        let unpacked: i32 = i32::unpack(&packed)?;
        assert_eq!(unpacked, v);
    }
    Ok(())
}

#[test]
fn packed_i32_is_little_endian() {
    assert_eq!(i32::pack(&1).unwrap(), vec![1, 0, 0, 0]);
    assert_eq!(i32::pack(&-2).unwrap(), vec![0xfe, 0xff, 0xff, 0xff]);
    assert_eq!(i32::unpack(&[0x78, 0x56, 0x34, 0x12, 0xaa]).unwrap(), 0x12345678);
}

#[test]
fn unpack_too_short() {
    let e = i32::unpack(&[1, 2, 3]).unwrap_err();
    assert_eq!(*e.kind(), ApllodbErrorKind::DeserializationError);
    assert_eq!(e.desc(), "failed to unpack data as i32");
}

#[test]
fn pack_unpack_other_integers() {
    for v in [0i16, 1, -1, i16::MAX, i16::MIN] {
        assert_eq!(i16::unpack(&i16::pack(&v).unwrap()).unwrap(), v);
    }
    for v in [0i64, 1, -1, i64::MAX, i64::MIN] {
        assert_eq!(i64::unpack(&i64::pack(&v).unwrap()).unwrap(), v);
    }
    assert_eq!(i16::pack(&-2).unwrap(), vec![0xfe, 0xff]);
    assert_eq!(i64::pack(&1).unwrap(), vec![1, 0, 0, 0, 0, 0, 0, 0]);
    assert_eq!(*i64::unpack(&[1, 2, 3, 4, 5, 6, 7]).unwrap_err().kind(), ApllodbErrorKind::DeserializationError);
    assert_eq!(i16::unpack(&[1]).unwrap_err().desc(), "failed to unpack data as i16");
}

#[test]
fn pack_unpack_bool() {
    assert_eq!(bool::pack(&true).unwrap(), vec![1]);
    assert_eq!(bool::pack(&false).unwrap(), vec![0]);
    assert!(bool::unpack(&[1]).unwrap());
    assert!(!bool::unpack(&[0, 9]).unwrap());
    assert_eq!(bool::unpack(&[2]).unwrap_err().desc(), "failed to unpack data as bool");
    assert!(bool::unpack(&[]).is_err());
}

#[test]
fn pack_unpack_string() {
    let packed = String::pack(&"ab".to_string()).unwrap();
    assert_eq!(packed, vec![2, 0, 0, 0, 0, 0, 0, 0, b'a', b'b']);
    for s in ["", "abc", "🚔 パトカー"] {
        let s = s.to_string();
        assert_eq!(String::unpack(&String::pack(&s).unwrap()).unwrap(), s);
    }
    assert!(String::unpack(&[3, 0, 0, 0, 0, 0, 0, 0, b'a', b'b']).is_err());
    assert!(String::unpack(&[1, 0, 0, 0, 0, 0, 0, 0, 0xff]).is_err());
    assert_eq!(String::unpack(&[1, 0, 0, 0]).unwrap_err().desc(), "failed to unpack data as String");
}
