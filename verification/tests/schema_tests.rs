use python_worker::schema::{
    parse_parameter_type, read_schema, ParameterType, SchemaError, SchemaRecord,
};

fn text(s: &str) -> String {
    s.to_string()
}

fn record(label: &str, identifier: &str, tags: Vec<&str>, required: Option<bool>) -> SchemaRecord {
    SchemaRecord {
        label: Some(text(label)),
        identifier: Some(text(identifier)),
        kind: Some(tags.into_iter().map(text).collect()),
        required,
    }
}

#[test]
fn every_declared_tag_maps_to_its_kind() {
    assert_eq!(parse_parameter_type(&text("array_of_strings")), Some(ParameterType::ArrayOfStrings));
    assert_eq!(parse_parameter_type(&text("boolean")), Some(ParameterType::Boolean));
    assert_eq!(parse_parameter_type(&text("credential")), Some(ParameterType::Credential));
    assert_eq!(parse_parameter_type(&text("integer")), Some(ParameterType::Integer));
    assert_eq!(parse_parameter_type(&text("requirement")), Some(ParameterType::Requirement));
    assert_eq!(parse_parameter_type(&text("string")), Some(ParameterType::StringType));
    assert_eq!(parse_parameter_type(&text("float")), None);
    assert_eq!(parse_parameter_type(&text("")), None);
}

#[test]
fn a_full_record_yields_one_entry() {
    let records = vec![record("Input", "input_path", vec!["string", "credential"], Some(true))];
    let schema = read_schema(&records).unwrap();
    assert_eq!(schema.len(), 1);
    assert_eq!(schema[0].label, "Input");
    assert_eq!(schema[0].identifier, "input_path");
    assert_eq!(schema[0].kind, vec![ParameterType::StringType, ParameterType::Credential]);
    assert!(schema[0].required);
}

#[test]
fn required_defaults_to_false() {
    let records = vec![record("Input", "input_path", vec!["string"], None)];
    let schema = read_schema(&records).unwrap();
    assert!(!schema[0].required);
}

#[test]
fn declared_order_is_preserved() {
    let records = vec![
        record("B", "b", vec!["boolean"], None),
        record("A", "a", vec!["integer"], None),
        record("C", "c", vec!["string"], Some(false)),
    ];
    let schema = read_schema(&records).unwrap();
    let identifiers: Vec<&str> = schema.iter().map(|e| e.identifier.as_str()).collect();
    assert_eq!(identifiers, vec!["b", "a", "c"]);
}

#[test]
fn missing_label_is_a_fatal_schema_error() {
    let mut bad = record("x", "x", vec!["string"], None);
    bad.label = None;
    let error = read_schema(&vec![bad]).unwrap_err();
    assert_eq!(error, SchemaError::MissingLabel);
    assert_eq!(error.message(), "missing label in parameter");
}

#[test]
fn missing_identifier_is_a_fatal_schema_error() {
    let mut bad = record("x", "x", vec!["string"], None);
    bad.identifier = None;
    assert_eq!(read_schema(&vec![bad]), Err(SchemaError::MissingIdentifier));
}

#[test]
fn missing_kind_is_a_fatal_schema_error() {
    let mut bad = record("x", "x", vec!["string"], None);
    bad.kind = None;
    assert_eq!(read_schema(&vec![bad]), Err(SchemaError::MissingKind));
}

#[test]
fn unknown_kind_tag_is_a_fatal_schema_error() {
    let records = vec![
        record("Ok", "ok", vec!["string"], None),
        record("Bad", "bad", vec!["string", "decimal"], None),
    ];
    let error = read_schema(&records).unwrap_err();
    assert_eq!(error, SchemaError::UnknownKind { tag: text("decimal") });
    assert_eq!(error.message(), "unknown parameter kind: decimal");
}

#[test]
fn the_first_violation_wins() {
    let mut first = record("x", "x", vec!["string"], None);
    first.identifier = None;
    let mut second = record("y", "y", vec!["string"], None);
    second.label = None;
    assert_eq!(read_schema(&vec![first, second]), Err(SchemaError::MissingIdentifier));
}

#[test]
fn schema_discovery_is_idempotent() {
    let records = vec![
        record("Input", "input_path", vec!["string"], Some(true)),
        record("Count", "count", vec!["integer"], None),
    ];
    let first = read_schema(&records);
    let second = read_schema(&records);
    assert_eq!(first, second);
    let bad = vec![record("Bad", "bad", vec!["nonsense"], None)];
    assert_eq!(read_schema(&bad), read_schema(&bad));
}
