use apllodb_shared_components::{
    AliasName, AliasedCorrelationName, AliasedFieldName, ApllodbErrorKind, ColumnName, CorrelationName,
    FieldAlias, FieldName, People, RPos, RecordIndex, RecordSchema, Schema, SchemaIndex, SchemaName,
    TableColumnName, TableName,
};

fn aliased(table: &str, table_alias: Option<&str>, column: &str, field_alias: Option<&str>) -> AliasedFieldName {
    AliasedFieldName::new(
        FieldName {
            correlation: AliasedCorrelationName {
                correlation_name: CorrelationName::new(table).unwrap(),
                alias: table_alias.map(|a| AliasName::new(a).unwrap()),
            },
            attribute: ColumnName::new(column).unwrap(),
        },
        field_alias.map(|a| FieldAlias::_new(a).unwrap()),
    )
}

#[test]
fn schema_index_parsing_trims_parts() {
    assert_eq!(SchemaIndex::from("c"), SchemaIndex::from("  c "));
    assert_ne!(SchemaIndex::from("c"), SchemaIndex::from("C"));
    assert_eq!(SchemaIndex::from("t.c"), SchemaIndex::from("  t  .  c "));
    let idx = SchemaIndex::from(" t . c");
    assert_eq!(idx.prefix(), Some("t"));
    assert_eq!(idx.attr(), "c");
    let idx = SchemaIndex::from("c");
    assert_eq!(idx.prefix(), None);
}

#[test]
fn schema_index_text() {
    assert_eq!(SchemaIndex::from("t.c").to_string(), "t.c");
    assert_eq!(SchemaIndex::from(" c ").to_string(), "c");
    assert_eq!(SchemaIndex::new(Some("x".to_string()), "y".to_string()).to_string(), "x.y");
}

#[test]
fn aliased_field_name_matches() {
    let afn = aliased("t", Some("ta"), "c2", Some("c2a"));
    assert!(afn.matches(&SchemaIndex::from("c2")));
    assert!(afn.matches(&SchemaIndex::from("t.c2")));
    assert!(afn.matches(&SchemaIndex::from("ta.c2")));
    assert!(afn.matches(&SchemaIndex::from("c2a")));
    assert!(!afn.matches(&SchemaIndex::from("ta.c2a")));
    assert!(!afn.matches(&SchemaIndex::from("x.c2")));
    assert!(!afn.matches(&SchemaIndex::from("c1")));
}

#[test]
fn table_column_name_matches() {
    let tc = TableColumnName::new(TableName::new("t").unwrap(), ColumnName::new("c").unwrap());
    assert!(tc.matches(&SchemaIndex::from("c")));
    assert!(tc.matches(&SchemaIndex::from("t.c")));
    assert!(!tc.matches(&SchemaIndex::from("u.c")));
    assert!(!tc.matches(&SchemaIndex::from("d")));
}

#[test]
fn record_schema_index_finds_one_field() {
    let schema = RecordSchema::from_names(vec![
        aliased("t", Some("ta"), "c1", None),
        aliased("t", Some("ta"), "c2", Some("c2a")),
    ]);
    assert_eq!(schema.len(), 2);
    assert!(!schema.is_empty());
    let (pos, name) = schema.index(&SchemaIndex::from("ta.c2")).unwrap();
    assert_eq!(pos, RPos::new(1));
    assert_eq!(name, aliased("t", Some("ta"), "c2", Some("c2a")));
    let (pos, _) = schema.index(&SchemaIndex::from("c1")).unwrap();
    assert_eq!(pos.to_usize(), 0);
}

#[test]
fn record_schema_index_errors() {
    let schema = RecordSchema::from_names(vec![aliased("t", None, "c", None), aliased("u", None, "c", None)]);
    let e = schema.index(&SchemaIndex::from("d")).unwrap_err();
    assert_eq!(*e.kind(), ApllodbErrorKind::NameErrorNotFound);
    assert_eq!(e.desc(), "no field matches to: d");
    let e = schema.index(&SchemaIndex::from("c")).unwrap_err();
    assert_eq!(*e.kind(), ApllodbErrorKind::AmbiguousColumn);
    assert_eq!(e.desc(), "more than 1 fields match to: c");
    assert_eq!(schema.index(&SchemaIndex::from("u.c")).unwrap().0, RPos::new(1));
}

#[test]
fn record_schema_projection() {
    let schema = RecordSchema::from_names(vec![
        aliased("t", None, "a", None),
        aliased("t", None, "b", None),
        aliased("t", None, "c", None),
    ]);
    let projected = schema.projection(&[SchemaIndex::from("c"), SchemaIndex::from("a")]).unwrap();
    assert_eq!(
        projected.to_aliased_field_names(),
        vec![aliased("t", None, "c", None), aliased("t", None, "a", None)]
    );
    let names = projected.names_with_pos();
    assert_eq!(names[0].0, RPos::new(2));
    assert_eq!(names[1].0, RPos::new(0));
    let e = schema.projection(&[SchemaIndex::from("a"), SchemaIndex::from("z")]).unwrap_err();
    assert_eq!(*e.kind(), ApllodbErrorKind::NameErrorNotFound);
}

#[test]
fn empty_record_schema() {
    let schema = RecordSchema::from_names(vec![]);
    assert!(schema.is_empty());
    assert_eq!(schema.len(), 0);
    assert!(schema.to_aliased_field_names().is_empty());
}

#[test]
fn record_index_constructors() {
    assert_eq!(RecordIndex::from(3usize), RecordIndex::Pos(RPos::new(3)));
    assert_eq!(RecordIndex::from_name(" t.c "), RecordIndex::Name(SchemaIndex::from("t.c")));
}

#[test]
fn people_field_positions() {
    assert_eq!(People::field_pos(People::afn_id()), RPos::new(0));
    assert_eq!(People::field_pos(People::afn_age()), RPos::new(1));
    assert_eq!(People::schema().len(), 2);
}
