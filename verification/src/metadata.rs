//! Metadata discovery on the script module.
//!
//! At startup the worker asks the module for its name, its descriptions and
//! its version, each through a zero-argument entry point expected to return
//! text. The interpreter boundary hands the core one outcome per call; the
//! core turns it into the advertised text, or into the fatal startup error
//! that must keep the worker from advertising a broken identity. The version
//! text must parse as a semantic version: an unparseable version is a fatal
//! configuration error, not a per-job error.

use vstd::prelude::*;
use vstd::string::StringExecFns;

verus! {

/// What the interpreter boundary hands back for one zero-argument entry
/// point expected to return text.
#[derive(Debug, Clone, PartialEq)]
pub enum ModuleTextOutcome {
    /// The module itself failed to compile; carries the engine's diagnostic.
    CompileFailed { diagnostic: String },
    /// The entry point is missing, or raised when called.
    CallFailed,
    /// The entry point returned a value that is not text.
    NotText,
    /// The entry point returned this text.
    Text { value: String },
}

/// The mathematical model of a [`ModuleTextOutcome`].
pub enum ModuleTextOutcomeView {
    CompileFailed { diagnostic: Seq<char> },
    CallFailed,
    NotText,
    Text { value: Seq<char> },
}

impl View for ModuleTextOutcome {
    type V = ModuleTextOutcomeView;

    open spec fn view(&self) -> ModuleTextOutcomeView {
        match self {
            ModuleTextOutcome::CompileFailed { diagnostic } => (
                ModuleTextOutcomeView::CompileFailed { diagnostic: diagnostic@ }
            ),
            ModuleTextOutcome::CallFailed => ModuleTextOutcomeView::CallFailed,
            ModuleTextOutcome::NotText => ModuleTextOutcomeView::NotText,
            ModuleTextOutcome::Text { value } => ModuleTextOutcomeView::Text { value: value@ },
        }
    }
}

impl DeepView for ModuleTextOutcome {
    type V = ModuleTextOutcomeView;

    open spec fn deep_view(&self) -> ModuleTextOutcomeView {
        self.view()
    }
}

/// A fatal startup error: the worker must refuse to advertise itself.
#[derive(Debug, Clone, PartialEq)]
pub enum StartupError {
    /// The script source file could not be read.
    SourceUnreadable { filename: String },
    /// The module failed to compile; carries the engine's diagnostic.
    ModuleCompilation { diagnostic: String },
    /// A metadata entry point could not be called.
    MissingEntryPoint { method: String },
    /// A metadata entry point returned something that is not text.
    InvalidReturnValue { method: String },
    /// The version text is not a semantic version.
    InvalidVersion { text: String },
}

/// The mathematical model of a [`StartupError`].
pub enum StartupErrorView {
    SourceUnreadable { filename: Seq<char> },
    ModuleCompilation { diagnostic: Seq<char> },
    MissingEntryPoint { method: Seq<char> },
    InvalidReturnValue { method: Seq<char> },
    InvalidVersion { text: Seq<char> },
}

impl View for StartupError {
    type V = StartupErrorView;

    open spec fn view(&self) -> StartupErrorView {
        match self {
            StartupError::SourceUnreadable { filename } => (
                StartupErrorView::SourceUnreadable { filename: filename@ }
            ),
            StartupError::ModuleCompilation { diagnostic } => (
                StartupErrorView::ModuleCompilation { diagnostic: diagnostic@ }
            ),
            StartupError::MissingEntryPoint { method } => (
                StartupErrorView::MissingEntryPoint { method: method@ }
            ),
            StartupError::InvalidReturnValue { method } => (
                StartupErrorView::InvalidReturnValue { method: method@ }
            ),
            StartupError::InvalidVersion { text } => (
                StartupErrorView::InvalidVersion { text: text@ }
            ),
        }
    }
}

impl DeepView for StartupError {
    type V = StartupErrorView;

    open spec fn deep_view(&self) -> StartupErrorView {
        self.view()
    }
}

/// The descriptive message of a fatal startup error.
pub open spec fn spec_startup_message(e: StartupErrorView) -> Seq<char> {
    match e {
        StartupErrorView::SourceUnreadable { filename } => (
            crate::source::spec_read_failure_message(filename)
        ),
        StartupErrorView::ModuleCompilation { diagnostic } => (
            "unable to create the python module: "@ + diagnostic
        ),
        StartupErrorView::MissingEntryPoint { method } => (
            "unable to call "@ + method + " in your module"@
        ),
        StartupErrorView::InvalidReturnValue { method } => (
            "unable to found a return value for "@ + method + " function"@
        ),
        StartupErrorView::InvalidVersion { text } => (
            "unable to parse version (please use SemVer format)"@
        ),
    }
}

impl StartupError {
    /// Builds the descriptive message that aborting startup must carry.
    pub fn message(&self) -> (r: String)
        ensures
            r@ == spec_startup_message(self@),
    {
        match self {
            StartupError::SourceUnreadable { filename } => (
                crate::source::read_failure_message(filename.as_str())
            ),
            StartupError::ModuleCompilation { diagnostic } => {
                let mut m = String::from_str("unable to create the python module: ");
                m.append(diagnostic.as_str());
                m
            },
            StartupError::MissingEntryPoint { method } => {
                let mut m = String::from_str("unable to call ");
                m.append(method.as_str());
                m.append(" in your module");
                proof {
                    assert(m@ =~= spec_startup_message(self@));
                }
                m
            },
            StartupError::InvalidReturnValue { method } => {
                let mut m = String::from_str("unable to found a return value for ");
                m.append(method.as_str());
                m.append(" function");
                proof {
                    assert(m@ =~= spec_startup_message(self@));
                }
                m
            },
            StartupError::InvalidVersion { text } => (
                String::from_str("unable to parse version (please use SemVer format)")
            ),
        }
    }
}

/// The text a metadata entry point yields, or the fatal error its outcome
/// forces: a compile failure carries the diagnostic, a failed call names the
/// missing entry point, a non-text return names it too.
pub open spec fn metadata_text_model(method: Seq<char>, o: ModuleTextOutcomeView) -> Result<
    Seq<char>,
    StartupErrorView,
> {
    match o {
        ModuleTextOutcomeView::CompileFailed { diagnostic } => Result::Err(
            StartupErrorView::ModuleCompilation { diagnostic },
        ),
        ModuleTextOutcomeView::CallFailed => Result::Err(
            StartupErrorView::MissingEntryPoint { method },
        ),
        ModuleTextOutcomeView::NotText => Result::Err(
            StartupErrorView::InvalidReturnValue { method },
        ),
        ModuleTextOutcomeView::Text { value } => Result::Ok(value),
    }
}

/// The model of a metadata reading's outcome.
pub open spec fn text_result_model(r: Result<String, StartupError>) -> Result<
    Seq<char>,
    StartupErrorView,
> {
    match r {
        Result::Ok(value) => Result::Ok(value@),
        Result::Err(e) => Result::Err(e@),
    }
}

/// Turns the outcome of one zero-argument, text-returning entry point call
/// into the advertised text or the fatal startup error.
pub fn get_string_from_module(method: &str, outcome: ModuleTextOutcome) -> (r: Result<
    String,
    StartupError,
>)
    ensures
        text_result_model(r) == metadata_text_model(method@, outcome@),
{
    match outcome {
        ModuleTextOutcome::CompileFailed { diagnostic } => Result::Err(
            StartupError::ModuleCompilation { diagnostic },
        ),
        ModuleTextOutcome::CallFailed => Result::Err(
            StartupError::MissingEntryPoint { method: String::from_str(method) },
        ),
        ModuleTextOutcome::NotText => Result::Err(
            StartupError::InvalidReturnValue { method: String::from_str(method) },
        ),
        ModuleTextOutcome::Text { value } => Result::Ok(value),
    }
}

/// The module's advertised name, from its `get_name` entry point.
pub fn get_name(outcome: ModuleTextOutcome) -> (r: Result<String, StartupError>)
    ensures
        text_result_model(r) == metadata_text_model("get_name"@, outcome@),
{
    get_string_from_module("get_name", outcome)
}

/// The module's advertised short description, from `get_short_description`.
pub fn get_short_description(outcome: ModuleTextOutcome) -> (r: Result<String, StartupError>)
    ensures
        text_result_model(r) == metadata_text_model("get_short_description"@, outcome@),
{
    get_string_from_module("get_short_description", outcome)
}

/// The module's advertised description, from its `get_description` entry
/// point.
pub fn get_description(outcome: ModuleTextOutcome) -> (r: Result<String, StartupError>)
    ensures
        text_result_model(r) == metadata_text_model("get_description"@, outcome@),
{
    get_string_from_module("get_description", outcome)
}

/// A semantic version, as the worker advertises it.
#[derive(Debug, Clone, Copy, PartialEq, Eq, Structural)]
pub struct Version {
    pub major: u64,
    pub minor: u64,
    pub patch: u64,
}

/// The major, minor and patch numbers of a text that parses as a semantic
/// version, and nothing for a text that does not.
pub uninterp spec fn semantic_version_of(text: Seq<char>) -> Option<(u64, u64, u64)>;

/// Relies on semver::Version::parse: whether a text parses as a semantic
/// version, and its numbers when it does, depend on the text alone.
#[verifier::external_body]
fn parse_semantic_version(text: &str) -> (r: Option<(u64, u64, u64)>)
    ensures
        r == semantic_version_of(text@),
{
    match semver::Version::parse(text) {
        Ok(version) => Some((version.major, version.minor, version.patch)),
        Err(_) => None,
    }
}

/// The advertised version an outcome of the `get_version` entry point
/// forces: the parsed semantic version of the returned text, a fatal
/// error when the text does not parse, and the entry point's own fatal
/// error otherwise.
pub open spec fn version_model(o: ModuleTextOutcomeView) -> Result<Version, StartupErrorView> {
    match metadata_text_model("get_version"@, o) {
        Result::Err(e) => Result::Err(e),
        Result::Ok(text) => match semantic_version_of(text) {
            Option::Some(numbers) => Result::Ok(
                Version { major: numbers.0, minor: numbers.1, patch: numbers.2 },
            ),
            Option::None => Result::Err(StartupErrorView::InvalidVersion { text }),
        },
    }
}

/// The model of a version reading's outcome.
pub open spec fn version_result_model(r: Result<Version, StartupError>) -> Result<
    Version,
    StartupErrorView,
> {
    match r {
        Result::Ok(version) => Result::Ok(version),
        Result::Err(e) => Result::Err(e@),
    }
}

/// The module's advertised version, from its `get_version` entry point,
/// parsed as a semantic version.
pub fn get_version(outcome: ModuleTextOutcome) -> (r: Result<Version, StartupError>)
    ensures
        version_result_model(r) == version_model(outcome@),
{
    match get_string_from_module("get_version", outcome) {
        Result::Err(e) => Result::Err(e),
        Result::Ok(text) => match parse_semantic_version(text.as_str()) {
            Option::Some(numbers) => Result::Ok(
                Version { major: numbers.0, minor: numbers.1, patch: numbers.2 },
            ),
            Option::None => Result::Err(StartupError::InvalidVersion { text }),
        },
    }
}

} // verus!
