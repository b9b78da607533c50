use python_worker::marshal::{build_parameters, credential_keys, Parameter, Requirement};
use python_worker::values::ScriptValue;

fn text(s: &str) -> String {
    s.to_string()
}

#[test]
fn empty_parameter_list_marshals_nothing() {
    let params: Vec<Parameter> = vec![];
    let resolved: Vec<Option<String>> = vec![];
    assert_eq!(credential_keys(&params), Vec::<String>::new());
    let entries = build_parameters(&params, &resolved);
    assert!(entries.is_empty());
}

#[test]
fn unset_parameter_is_omitted() {
    let params = vec![Parameter::StringParam { id: text("a"), default: None, value: None }];
    let entries = build_parameters(&params, &vec![]);
    assert!(entries.is_empty());
}

#[test]
fn unset_parameters_of_every_kind_are_omitted() {
    let params = vec![
        Parameter::ArrayOfStringsParam { id: text("a"), default: None, value: None },
        Parameter::BooleanParam { id: text("b"), default: None, value: None },
        Parameter::IntegerParam { id: text("c"), default: None, value: None },
        Parameter::StringParam { id: text("d"), default: None, value: None },
        Parameter::CredentialParam { id: text("e"), default: None, value: None },
    ];
    let entries = build_parameters(&params, &vec![]);
    assert!(entries.is_empty());
}

#[test]
fn unset_parameter_between_set_ones_is_skipped() {
    let params = vec![
        Parameter::StringParam { id: text("first"), default: None, value: Some(text("1")) },
        Parameter::StringParam { id: text("gap"), default: None, value: None },
        Parameter::IntegerParam { id: text("last"), default: None, value: Some(7) },
    ];
    let entries = build_parameters(&params, &vec![]);
    assert_eq!(entries.len(), 2);
    assert_eq!(entries[0].id, "first");
    assert_eq!(entries[0].value, ScriptValue::Text(text("1")));
    assert_eq!(entries[1].id, "last");
    assert_eq!(entries[1].value, ScriptValue::Number(7));
}

#[test]
fn supplied_value_takes_precedence_over_default() {
    let params = vec![
        Parameter::StringParam {
            id: text("s"),
            default: Some(text("fallback")),
            value: Some(text("chosen")),
        },
        Parameter::IntegerParam { id: text("i"), default: Some(1), value: Some(2) },
        Parameter::BooleanParam { id: text("b"), default: Some(false), value: Some(true) },
        Parameter::ArrayOfStringsParam {
            id: text("l"),
            default: Some(vec![text("d")]),
            value: Some(vec![text("v1"), text("v2")]),
        },
    ];
    let entries = build_parameters(&params, &vec![]);
    assert_eq!(entries.len(), 4);
    assert_eq!(entries[0].value, ScriptValue::Text(text("chosen")));
    assert_eq!(entries[1].value, ScriptValue::Number(2));
    assert_eq!(entries[2].value, ScriptValue::Flag(true));
    assert_eq!(entries[3].value, ScriptValue::TextList(vec![text("v1"), text("v2")]));
}

#[test]
fn default_is_used_when_no_value_is_supplied() {
    let params = vec![
        Parameter::StringParam { id: text("s"), default: Some(text("fallback")), value: None },
        Parameter::IntegerParam { id: text("i"), default: Some(-3), value: None },
    ];
    let entries = build_parameters(&params, &vec![]);
    assert_eq!(entries.len(), 2);
    assert_eq!(entries[0].value, ScriptValue::Text(text("fallback")));
    assert_eq!(entries[1].value, ScriptValue::Number(-3));
}

#[test]
fn requirement_parameter_never_marshals() {
    let params = vec![Parameter::RequirementParam {
        id: text("requirements"),
        default: None,
        value: Some(Requirement { paths: Some(vec![text("/tmp/in.mov")]) }),
    }];
    assert_eq!(credential_keys(&params), Vec::<String>::new());
    let entries = build_parameters(&params, &vec![]);
    assert!(entries.is_empty());
}

#[test]
fn credential_keys_prefer_value_and_keep_order() {
    let params = vec![
        Parameter::CredentialParam {
            id: text("c1"),
            default: Some(text("default_key")),
            value: Some(text("value_key")),
        },
        Parameter::StringParam { id: text("s"), default: None, value: Some(text("x")) },
        Parameter::CredentialParam { id: text("c2"), default: Some(text("other_key")), value: None },
        Parameter::CredentialParam { id: text("c3"), default: None, value: None },
    ];
    assert_eq!(credential_keys(&params), vec![text("value_key"), text("other_key")]);
}

#[test]
fn resolved_credential_is_marshalled_as_text() {
    let params = vec![Parameter::CredentialParam {
        id: text("token"),
        default: None,
        value: Some(text("TOKEN_KEY")),
    }];
    assert_eq!(credential_keys(&params), vec![text("TOKEN_KEY")]);
    let entries = build_parameters(&params, &vec![Some(text("secret_value"))]);
    assert_eq!(entries.len(), 1);
    assert_eq!(entries[0].id, "token");
    assert_eq!(entries[0].value, ScriptValue::Text(text("secret_value")));
}

#[test]
fn failed_credential_resolution_omits_only_that_parameter() {
    let params = vec![
        Parameter::StringParam { id: text("before"), default: None, value: Some(text("b")) },
        Parameter::CredentialParam { id: text("token"), default: None, value: Some(text("K")) },
        Parameter::StringParam { id: text("after"), default: None, value: Some(text("a")) },
    ];
    let entries = build_parameters(&params, &vec![None]);
    assert_eq!(entries.len(), 2);
    assert_eq!(entries[0].id, "before");
    assert_eq!(entries[1].id, "after");
}

#[test]
fn mixed_credential_resolutions_consume_outcomes_in_order() {
    let params = vec![
        Parameter::CredentialParam { id: text("c1"), default: None, value: Some(text("k1")) },
        Parameter::CredentialParam { id: text("c2"), default: None, value: Some(text("k2")) },
        Parameter::CredentialParam { id: text("c3"), default: None, value: Some(text("k3")) },
    ];
    let entries = build_parameters(&params, &vec![Some(text("s1")), None, Some(text("s3"))]);
    assert_eq!(entries.len(), 2);
    assert_eq!(entries[0].id, "c1");
    assert_eq!(entries[0].value, ScriptValue::Text(text("s1")));
    assert_eq!(entries[1].id, "c3");
    assert_eq!(entries[1].value, ScriptValue::Text(text("s3")));
}
