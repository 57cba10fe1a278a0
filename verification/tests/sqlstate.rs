use apllodb_shared_components::{SqlState, SqlStateCategory};

#[test]
fn sqlstate_codes_and_categories() {
    assert_eq!(SqlState::SuccessfulCompletion.sqlstate(), "00000");
    assert_eq!(SqlState::SuccessfulCompletion.category(), SqlStateCategory::S);
    assert_eq!(SqlState::FeatureNotSupported.sqlstate(), "0A000");
    assert_eq!(SqlState::FeatureNotSupported.category(), SqlStateCategory::X);
    assert_eq!(SqlState::FeatureNotSupportedMultipleServerTransactions.sqlstate(), "0A001");
}

#[test]
fn sqlstate_display() {
    assert_eq!(
        SqlState::FeatureNotSupportedMultipleServerTransactions.to_display_string(),
        "SQLSTATE: \"0A001\", Category: \"Exception\", ClassText: \"feature not supported\", SubclassText: \"multiple server transactions\""
    );
    assert_eq!(SqlStateCategory::S.to_display_string(), "Success");
    assert_eq!(SqlStateCategory::W.to_display_string(), "Warning");
    assert_eq!(SqlStateCategory::N.to_display_string(), "No data");
    assert_eq!(SqlState::Warning.category(), SqlStateCategory::W);
}

#[test]
fn sqlstate_detail_texts() {
    let d = SqlState::FeatureNotSupportedMultipleServerTransactions.detail();
    assert_eq!(d.class_text(), "feature not supported");
    assert_eq!(d.subclass_text(), "multiple server transactions");
    assert_eq!(d.sqlstate(), "0A001");
}
