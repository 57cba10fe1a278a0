use apllodb_shared_components::{ApllodbErrorKind, DatabaseName, FieldAlias, ShortName, TableName};

#[test]
fn short_name_test_success() {
    let names = vec!["a".repeat(64), "あ".repeat(64), "💪".repeat(64)];

    for name in &names {
        match ShortName::new(name) {
            Ok(_) => {}
            Err(e) => panic!("{} : unexpected error: {:?}", name, e),
        }
    }
}

#[test]
fn test_failure_too_long_name() {
    let names = vec!["a".repeat(65), "あ".repeat(65), "💪".repeat(65)];

    for name in &names {
        match ShortName::new(name) {
            Err(e) => match e.kind() {
                ApllodbErrorKind::NameTooLong => {}
                x => panic!("{} : unexpected error: {:?}", name, x),
            },
            Ok(_) => panic!("{} : should be an error", name),
        }
    }
}

#[test]
fn short_name_too_long_description() {
    let name = "b".repeat(70);
    let e = ShortName::new(&name).unwrap_err();
    assert_eq!(e.desc(), format!("ShortName `{}` is too long (70 > 64)", name));
}

#[test]
fn names_keep_their_text() {
    assert_eq!(DatabaseName::new("my_db").unwrap().as_str(), "my_db");
    assert_eq!(TableName::new("t").unwrap().as_str(), "t");
    assert_eq!(FieldAlias::_new("c2a").unwrap()._as_str(), "c2a");
    assert_eq!(*TableName::new(&"x".repeat(65)).unwrap_err().kind(), ApllodbErrorKind::NameTooLong);
}

#[test]
fn random_database_name() {
    let n = DatabaseName::random();
    assert_eq!(n.as_str().chars().count(), 10);
    assert!(n.as_str().chars().all(|c| ('a'..='z').contains(&c)));
}
