//! One whole pass through discovery, marshalling and invocation, as the
//! outer framework would drive it.

use python_worker::marshal::{build_parameters, credential_keys, Parameter};
use python_worker::schema::{read_schema, ParameterType, SchemaRecord};
use python_worker::script::{process, JobResult, JobStatus, ProcessEvent};
use python_worker::values::ScriptValue;

fn text(s: &str) -> String {
    s.to_string()
}

#[test]
fn one_required_string_parameter_runs_through_to_completion() {
    // The module declares one required string parameter named input_path.
    let records = vec![SchemaRecord {
        label: Some(text("Input path")),
        identifier: Some(text("input_path")),
        kind: Some(vec![text("string")]),
        required: Some(true),
    }];
    let schema = read_schema(&records).unwrap();
    assert_eq!(schema.len(), 1);
    assert_eq!(schema[0].identifier, "input_path");
    assert_eq!(schema[0].kind, vec![ParameterType::StringType]);
    assert!(schema[0].required);

    // The job supplies a value for it and no credentials are involved.
    let params = vec![Parameter::StringParam {
        id: text("input_path"),
        default: None,
        value: Some(text("/tmp/a.mov")),
    }];
    assert!(credential_keys(&params).is_empty());
    let entries = build_parameters(&params, &vec![]);
    assert_eq!(entries.len(), 1);
    assert_eq!(entries[0].id, "input_path");
    assert_eq!(entries[0].value, ScriptValue::Text(text("/tmp/a.mov")));

    // The script's process entry point returns one destination path.
    let outcome = process(
        JobResult::new(123),
        ProcessEvent::Returned { value: ScriptValue::TextList(vec![text("/tmp/out.mov")]) },
    );
    let job_result = outcome.unwrap();
    assert_eq!(job_result.status, JobStatus::Completed);
    assert_eq!(job_result.destination_paths, vec![text("/tmp/out.mov")]);
}
