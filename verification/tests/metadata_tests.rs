use python_worker::metadata::{
    get_description, get_name, get_short_description, get_version, ModuleTextOutcome,
    StartupError, Version,
};
use python_worker::source::worker_filename;

fn text(s: &str) -> String {
    s.to_string()
}

fn module_text(s: &str) -> ModuleTextOutcome {
    ModuleTextOutcome::Text { value: text(s) }
}

#[test]
fn metadata_entry_points_hand_the_text_through() {
    assert_eq!(get_name(module_text("my worker")), Ok(text("my worker")));
    assert_eq!(get_short_description(module_text("short")), Ok(text("short")));
    assert_eq!(get_description(module_text("long description")), Ok(text("long description")));
}

#[test]
fn a_missing_entry_point_is_fatal_and_names_the_method() {
    let error = get_name(ModuleTextOutcome::CallFailed).unwrap_err();
    assert_eq!(error, StartupError::MissingEntryPoint { method: text("get_name") });
    assert_eq!(error.message(), "unable to call get_name in your module");
}

#[test]
fn a_non_text_return_is_fatal_and_names_the_method() {
    let error = get_short_description(ModuleTextOutcome::NotText).unwrap_err();
    assert_eq!(error, StartupError::InvalidReturnValue { method: text("get_short_description") });
    assert_eq!(
        error.message(),
        "unable to found a return value for get_short_description function"
    );
}

#[test]
fn a_compile_failure_is_fatal_and_carries_the_diagnostic() {
    let outcome = ModuleTextOutcome::CompileFailed { diagnostic: text("SyntaxError: line 3") };
    let error = get_description(outcome).unwrap_err();
    assert_eq!(error, StartupError::ModuleCompilation { diagnostic: text("SyntaxError: line 3") });
    assert_eq!(error.message(), "unable to create the python module: SyntaxError: line 3");
}

#[test]
fn a_semantic_version_yields_its_three_numbers() {
    let version = get_version(module_text("1.2.3")).unwrap();
    assert_eq!(version, Version { major: 1, minor: 2, patch: 3 });
}

#[test]
fn a_larger_version_is_parsed_and_not_echoed() {
    let version = get_version(module_text("10.20.30")).unwrap();
    assert_eq!(version, Version { major: 10, minor: 20, patch: 30 });
}

#[test]
fn a_prerelease_version_keeps_its_numbers() {
    let version = get_version(module_text("0.6.1-rc.2")).unwrap();
    assert_eq!(version, Version { major: 0, minor: 6, patch: 1 });
}

#[test]
fn an_unparseable_version_is_a_fatal_startup_error() {
    let error = get_version(module_text("not-a-version")).unwrap_err();
    assert_eq!(error, StartupError::InvalidVersion { text: text("not-a-version") });
    assert_eq!(error.message(), "unable to parse version (please use SemVer format)");
}

#[test]
fn a_version_entry_point_failure_is_reported_before_parsing() {
    let error = get_version(ModuleTextOutcome::CallFailed).unwrap_err();
    assert_eq!(error, StartupError::MissingEntryPoint { method: text("get_version") });
}

#[test]
fn the_configured_source_location_wins_over_the_default() {
    assert_eq!(worker_filename(Some(text("custom.py"))), "custom.py");
    assert_eq!(worker_filename(None), "worker.py");
}

#[test]
fn an_unreadable_source_names_the_attempted_file() {
    let error = StartupError::SourceUnreadable { filename: text("custom.py") };
    assert_eq!(error.message(), "unable to open and read file: custom.py");
}
