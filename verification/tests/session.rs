use apllodb_shared_components::{
    ApllodbError, ApllodbErrorKind, ApllodbSessionError, DatabaseName, Session, SessionWithoutDb,
    TransactionId,
};

#[test]
fn upgrades_keep_session_id() {
    let s = SessionWithoutDb::default();
    let id = *s.get_id();
    let with_db = s.upgrade(DatabaseName::new("db1").unwrap());
    assert_eq!(*with_db.get_id(), id);
    assert_eq!(with_db.database_name().as_str(), "db1");
    let with_tx = with_db.upgrade();
    assert_eq!(*with_tx.get_id(), id);
    assert_eq!(with_tx.get_db_name().as_str(), "db1");
    let session = Session::from(with_tx);
    assert_eq!(*session.get_id(), id);
}

#[test]
fn session_enum_from_each_state() {
    let s = SessionWithoutDb::default();
    let id = s.get_id().as_u64();
    let session: Session = s.into();
    assert!(matches!(session, Session::WithoutDb(_)));
    assert_eq!(session.get_id().as_u64(), id);
}

#[test]
fn transaction_id_keeps_its_number() {
    assert_eq!(TransactionId::new(-5).as_i64(), -5);
    assert_eq!(TransactionId::new(42), TransactionId::new(42));
}

#[test]
fn session_error_converts_to_its_error() {
    let err = ApllodbError::new(ApllodbErrorKind::InvalidName, "bad".to_string());
    let se = ApllodbSessionError::new(err, Session::from(SessionWithoutDb::default()));
    let back: ApllodbError = se.into();
    assert_eq!(*back.kind(), ApllodbErrorKind::InvalidName);
    assert_eq!(back.desc(), "bad");
}

#[test]
fn io_and_feature_errors() {
    assert_eq!(*ApllodbError::io_error().kind(), ApllodbErrorKind::IoError);
    let e = ApllodbError::feature_not_supported("x");
    assert_eq!(*e.kind(), ApllodbErrorKind::FeatureNotSupported);
    assert_eq!(e.desc(), "x");
}

#[test]
fn error_display_text() {
    let e = ApllodbError::new(ApllodbErrorKind::InvalidName, "bad".to_string());
    assert_eq!(e.to_display_string(), "bad (InvalidName) `bad` ; caused by: `none`");
    assert_eq!(ApllodbErrorKind::IoError.name(), format!("{:?}", ApllodbErrorKind::IoError));
    assert_eq!(ApllodbErrorKind::NoData.name(), "NoData");
    assert_eq!(
        ApllodbErrorKind::DatatypeMismatch.name(),
        format!("{:?}", ApllodbErrorKind::DatatypeMismatch)
    );
}

#[test]
fn session_error_display_text() {
    let err = ApllodbError::new(ApllodbErrorKind::InvalidName, "bad".to_string());
    let se = ApllodbSessionError::new(err, Session::from(SessionWithoutDb::default()));
    assert_eq!(se.to_display_string(), "bad (InvalidName) `bad` ; caused by: `none`");
}

#[test]
fn transaction_ids_order_as_numbers() {
    assert!(TransactionId::new(1) < TransactionId::new(2));
    assert!(TransactionId::new(-3) < TransactionId::new(0));
    assert!(TransactionId::new(5) > TransactionId::new(4));
    assert_eq!(
        TransactionId::new(7).partial_cmp(&TransactionId::new(7)),
        Some(std::cmp::Ordering::Equal)
    );
    assert_eq!(TransactionId::new(1).cmp(&TransactionId::new(2)), std::cmp::Ordering::Less);
}
