use apllodb_shared_components::{ApllodbErrorKind, ColumnName, TableConstraintKind, TableConstraints};

fn column_names(names: &[&str]) -> Vec<ColumnName> {
    names.iter().map(|n| ColumnName::new(n).unwrap()).collect()
}

fn t_pk(names: &[&str]) -> TableConstraintKind {
    TableConstraintKind::PrimaryKey { column_names: column_names(names) }
}

fn t_unique(names: &[&str]) -> TableConstraintKind {
    TableConstraintKind::Unique { column_names: column_names(names) }
}

#[test]
fn table_constraints_test_success() {
    let testset: Vec<Vec<TableConstraintKind>> = vec![
        vec![t_pk(&["c1"])],
        vec![t_pk(&["c1"]), t_unique(&["c2"])],
        vec![t_pk(&["c1", "c2"])],
        vec![t_pk(&["c1"]), t_unique(&["c1", "c2"])],
        vec![t_pk(&["c1"]), t_unique(&["c1", "c2"]), t_unique(&["c2"])],
    ];

    for constraints in testset {
        match TableConstraints::new(constraints) {
            Ok(_) => {}
            Err(e) => panic!("unexpected error kind: {:?}", e),
        }
    }
}

#[test]
fn test_failure_invalid_table_definition() {
    let testset: Vec<Vec<TableConstraintKind>> = vec![
        // no PK
        vec![t_unique(&["c1"])],
        // duplicate constraints.
        vec![t_pk(&["c1"]), t_pk(&["c1"])],
        vec![t_pk(&["c0"]), t_unique(&["c1"]), t_unique(&["c1"])],
        vec![t_pk(&["c0"]), t_unique(&["c1"]), t_unique(&["c2"]), t_unique(&["c1"])],
        vec![t_pk(&["c1", "c2"]), t_pk(&["c1", "c2"])],
        // PK & UNIQUE are applied to the same column sequence.
        vec![t_pk(&["c1"]), t_unique(&["c1"])],
        // Multiple PKs.
        vec![t_pk(&["c1"]), t_pk(&["c2"])],
    ];

    for constraints in testset {
        match TableConstraints::new(constraints) {
            Err(e) => match e.kind() {
                ApllodbErrorKind::InvalidTableDefinition => {
                    println!("{:?}", e);
                }
                _ => panic!("unexpected error kind: {:?}", e),
            },
            Ok(tc) => panic!("Expected to be validation error: {:?}", tc),
        }
    }
}

#[test]
fn table_constraints_error_descriptions() {
    let e = TableConstraints::new(vec![t_unique(&["c1"])]).unwrap_err();
    assert_eq!(e.desc(), "PRIMARY KEY is not specified");

    let e = TableConstraints::new(vec![t_pk(&["c1"]), t_pk(&["c2"])]).unwrap_err();
    assert_eq!(e.desc(), "more than 1 PRIMARY KEY found");

    // the same column set, whatever the order of the columns
    let e = TableConstraints::new(vec![t_pk(&["c0"]), t_unique(&["c1", "c2"]), t_unique(&["c2", "c1"])])
        .unwrap_err();
    assert_eq!(*e.kind(), ApllodbErrorKind::InvalidTableDefinition);
    assert_eq!(
        e.desc(),
        "more than 1 PRIMARY KEY / UNIQUE are applied to the same column set: `{ColumnName(ShortName(\"c1\")), ColumnName(ShortName(\"c2\"))}`"
    );
}

#[test]
fn table_constraints_kinds_kept_in_order() {
    let tc = TableConstraints::new(vec![t_pk(&["c1"]), t_unique(&["c2"])]).unwrap();
    assert_eq!(tc.kinds().len(), 2);
    assert_eq!(tc.kinds()[0], t_pk(&["c1"]));
    assert_eq!(tc.kinds()[1], t_unique(&["c2"]));
    assert_eq!(TableConstraints::default().kinds().len(), 0);
}

#[test]
fn table_constraints_default_is_empty() {
    let tc: TableConstraints = Default::default();
    assert!(tc.kinds().is_empty());
}

#[test]
fn table_constraints_reject_repeated_columns() {
    let e = TableConstraints::new(vec![t_pk(&["c1", "c1"])]).unwrap_err();
    assert_eq!(*e.kind(), ApllodbErrorKind::InvalidTableDefinition);
    assert_eq!(e.desc(), "a PRIMARY KEY / UNIQUE has duplicate column: `c1, c1`");
    let e = TableConstraints::new(vec![t_pk(&["c0"]), t_unique(&["c1", "c2", "c1"])]).unwrap_err();
    assert_eq!(*e.kind(), ApllodbErrorKind::InvalidTableDefinition);
    assert_eq!(e.desc(), "a PRIMARY KEY / UNIQUE has duplicate column: `c1, c2, c1`");
    // checked before the other rules
    let e = TableConstraints::new(vec![t_unique(&["c1", "c1"])]).unwrap_err();
    assert_eq!(e.desc(), "a PRIMARY KEY / UNIQUE has duplicate column: `c1, c1`");
}

#[test]
fn column_set_debug_forms() {
    assert_eq!(apllodb_shared_components::table::column_set_debug_text(&vec![]), "{}");
    assert_eq!(
        apllodb_shared_components::table::column_set_debug_text(&vec!["\"a\"".to_string(), "\"b\"".to_string()]),
        "{ColumnName(ShortName(\"a\")), ColumnName(ShortName(\"b\"))}"
    );
    let e = TableConstraints::new(vec![t_pk(&["c\"q"]), t_unique(&["c\"q"])]).unwrap_err();
    assert_eq!(
        e.desc(),
        format!(
            "more than 1 PRIMARY KEY / UNIQUE are applied to the same column set: `{{ColumnName(ShortName({:?}))}}`",
            "c\"q"
        )
    );
}
