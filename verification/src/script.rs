//! One script invocation, from marshalled parameters to exactly one typed
//! job outcome.
//!
//! Per job the invoker loads the module, marshals the parameters, hands the
//! script a progress handle and calls its `process` entry point. The outside
//! work is the interpreter's; the core decides what each of its outcomes
//! means: a compile or marshalling failure ends the job as a typed error
//! before any script code runs, a returned value completes the job and may
//! carry destination paths, and a raised exception ends the job as a typed
//! error carrying the exception's text and its stacktrace, or an explicit
//! marker when no traceback was attached. Every event yields exactly one
//! outcome; nothing panics and nothing is retried here.

use vstd::prelude::*;
use vstd::string::StringExecFns;
use crate::values::{ScriptValue, ScriptValueView};

verus! {

broadcast use vstd::std_specs::vec::vec_clone_deep_view_proof;

/// The terminal status a job outcome carries.
#[derive(Debug, Clone, Copy, PartialEq, Eq, Structural)]
pub enum JobStatus {
    /// No outcome attached yet.
    Unknown,
    /// The script's entry point returned.
    Completed,
    /// The invocation failed before or inside the script.
    Error,
}

/// The typed outcome record of one job: created by the framework, given its
/// terminal status, optional message and optional destination paths by
/// exactly one invocation, and handed back.
#[derive(Debug, Clone, PartialEq)]
pub struct JobResult {
    pub job_id: u64,
    pub status: JobStatus,
    pub message: Option<String>,
    pub destination_paths: Vec<String>,
}

/// The mathematical model of a [`JobResult`].
pub struct JobResultView {
    pub job_id: u64,
    pub status: JobStatus,
    pub message: Option<Seq<char>>,
    pub destination_paths: Seq<Seq<char>>,
}

impl View for JobResult {
    type V = JobResultView;

    open spec fn view(&self) -> JobResultView {
        JobResultView {
            job_id: self.job_id,
            status: self.status,
            message: self.message.deep_view(),
            destination_paths: self.destination_paths.deep_view(),
        }
    }
}

impl DeepView for JobResult {
    type V = JobResultView;

    open spec fn deep_view(&self) -> JobResultView {
        self.view()
    }
}

impl JobResult {
    /// A fresh outcome record for the given job, with no status attached.
    pub fn new(job_id: u64) -> (r: JobResult)
        ensures
            r@.job_id == job_id,
            r@.status == JobStatus::Unknown,
            r@.message is None,
            r@.destination_paths == Seq::<Seq<char>>::empty(),
    {
        let r = JobResult {
            job_id,
            status: JobStatus::Unknown,
            message: Option::None,
            destination_paths: Vec::new(),
        };
        proof {
            assert(r@.destination_paths =~= Seq::<Seq<char>>::empty());
        }
        r
    }

    /// The same record with the given terminal status attached.
    pub fn with_status(self, status: JobStatus) -> (r: JobResult)
        ensures
            r@ == (JobResultView { status, ..self@ }),
    {
        JobResult { status, ..self }
    }

    /// The same record with the given human-readable message attached.
    pub fn with_message(self, message: &str) -> (r: JobResult)
        ensures
            r@ == (JobResultView { message: Option::Some(message@), ..self@ }),
    {
        JobResult { message: Option::Some(String::from_str(message)), ..self }
    }

    /// The same record with the given destination paths appended, in order.
    pub fn with_destination_paths(self, paths: Vec<String>) -> (r: JobResult)
        ensures
            r@ == (JobResultView {
                destination_paths: self@.destination_paths + paths.deep_view(),
                ..self@
            }),
    {
        let ghost prior = self@.destination_paths;
        let ghost added = paths.deep_view();
        let mut destination_paths = self.destination_paths;
        let mut incoming = paths;
        destination_paths.append(&mut incoming);
        let r = JobResult { destination_paths, ..self };
        proof {
            assert(r@.destination_paths =~= prior + added);
        }
        r
    }
}

/// A per-job failure, carrying the outcome record that reports it.
#[derive(Debug, Clone, PartialEq)]
pub enum MessageError {
    ProcessingError(JobResult),
}

/// The mathematical model of a [`MessageError`].
pub enum MessageErrorView {
    ProcessingError(JobResultView),
}

impl View for MessageError {
    type V = MessageErrorView;

    open spec fn view(&self) -> MessageErrorView {
        match self {
            MessageError::ProcessingError(job_result) => (
                MessageErrorView::ProcessingError(job_result@)
            ),
        }
    }
}

impl DeepView for MessageError {
    type V = MessageErrorView;

    open spec fn deep_view(&self) -> MessageErrorView {
        self.view()
    }
}

/// What one invocation came to at the interpreter boundary.
#[derive(Debug, Clone, PartialEq)]
pub enum ProcessEvent {
    /// The module failed to compile; carries the engine's diagnostic.
    CompileFailed { diagnostic: String },
    /// Placing a marshalled value into the dynamic structure failed; carries
    /// the engine's textual error representation. No script code ran.
    MarshallingFailed { error_text: String },
    /// The script's `process` entry point returned this value.
    Returned { value: ScriptValue },
    /// The script's `process` entry point raised: the exception's textual
    /// representation, and its formatted traceback when one was attached.
    Raised { representation: String, traceback: Option<String> },
}

/// The mathematical model of a [`ProcessEvent`].
pub enum ProcessEventView {
    CompileFailed { diagnostic: Seq<char> },
    MarshallingFailed { error_text: Seq<char> },
    Returned { value: ScriptValueView },
    Raised { representation: Seq<char>, traceback: Option<Seq<char>> },
}

impl View for ProcessEvent {
    type V = ProcessEventView;

    open spec fn view(&self) -> ProcessEventView {
        match self {
            ProcessEvent::CompileFailed { diagnostic } => (
                ProcessEventView::CompileFailed { diagnostic: diagnostic@ }
            ),
            ProcessEvent::MarshallingFailed { error_text } => (
                ProcessEventView::MarshallingFailed { error_text: error_text@ }
            ),
            ProcessEvent::Returned { value } => ProcessEventView::Returned { value: value@ },
            ProcessEvent::Raised { representation, traceback } => (
                ProcessEventView::Raised {
                    representation: representation@,
                    traceback: traceback.deep_view(),
                }
            ),
        }
    }
}

impl DeepView for ProcessEvent {
    type V = ProcessEventView;

    open spec fn deep_view(&self) -> ProcessEventView {
        self.view()
    }
}

/// The destination paths a returned value carries: the list itself when the
/// script returned a list of strings, nothing for any other shape.
pub open spec fn spec_destination_paths(value: ScriptValueView) -> Option<Seq<Seq<char>>> {
    match value {
        ScriptValueView::TextList(items) => Option::Some(items),
        _ => Option::None,
    }
}

/// Reads a returned value as a list of destination path strings; any other
/// shape yields nothing, and is no error.
pub fn get_destination_paths(value: &ScriptValue) -> (r: Option<Vec<String>>)
    ensures
        r.deep_view() == spec_destination_paths(value@),
{
    match value {
        ScriptValue::TextList(items) => Option::Some(items.clone()),
        _ => Option::None,
    }
}

/// The stacktrace text a raised exception reports: the formatted frames
/// when a traceback was attached, the fixed marker otherwise.
pub open spec fn stacktrace_text(traceback: Option<Seq<char>>) -> Seq<char> {
    match traceback {
        Option::Some(frames) => frames,
        Option::None => "Unknown python error, no stacktrace available"@,
    }
}

/// The whole failure message of a raised exception: its textual
/// representation, then the stacktrace text.
pub open spec fn failure_message(representation: Seq<char>, traceback: Option<Seq<char>>) -> Seq<
    char,
> {
    representation + "\n\nStacktrace:\n"@ + stacktrace_text(traceback)
}

/// Builds the failure message of a raised exception.
pub fn failure_report(representation: &str, traceback: &Option<String>) -> (r: String)
    ensures
        r@ == failure_message(representation@, traceback.deep_view()),
{
    let mut message = String::from_str(representation);
    message.append("\n\nStacktrace:\n");
    match traceback {
        Option::Some(frames) => message.append(frames.as_str()),
        Option::None => message.append("Unknown python error, no stacktrace available"),
    }
    proof {
        assert(message@ =~= failure_message(representation@, traceback.deep_view()));
    }
    message
}

/// The one outcome each invocation event forces on the job's record.
pub open spec fn process_model(job_result: JobResultView, event: ProcessEventView) -> Result<
    JobResultView,
    MessageErrorView,
> {
    match event {
        ProcessEventView::CompileFailed { diagnostic } => Result::Err(
            MessageErrorView::ProcessingError(
                JobResultView {
                    status: JobStatus::Error,
                    message: Option::Some(diagnostic),
                    ..job_result
                },
            ),
        ),
        ProcessEventView::MarshallingFailed { error_text } => Result::Err(
            MessageErrorView::ProcessingError(
                JobResultView {
                    status: JobStatus::Error,
                    message: Option::Some(error_text),
                    ..job_result
                },
            ),
        ),
        ProcessEventView::Returned { value } => Result::Ok(
            JobResultView {
                status: JobStatus::Completed,
                destination_paths: job_result.destination_paths + (
                match spec_destination_paths(value) {
                    Option::Some(paths) => paths,
                    Option::None => Seq::empty(),
                }),
                ..job_result
            },
        ),
        ProcessEventView::Raised { representation, traceback } => Result::Err(
            MessageErrorView::ProcessingError(
                JobResultView {
                    status: JobStatus::Error,
                    message: Option::Some(failure_message(representation, traceback)),
                    ..job_result
                },
            ),
        ),
    }
}

/// The model of an invocation's outcome.
pub open spec fn process_result_model(r: Result<JobResult, MessageError>) -> Result<
    JobResultView,
    MessageErrorView,
> {
    match r {
        Result::Ok(job_result) => Result::Ok(job_result@),
        Result::Err(e) => Result::Err(e@),
    }
}

/// Concludes one invocation: turns the event the interpreter boundary came
/// to into the job's one typed outcome.
pub fn process(job_result: JobResult, event: ProcessEvent) -> (r: Result<JobResult, MessageError>)
    ensures
        process_result_model(r) == process_model(job_result@, event@),
{
    let ghost initial = job_result@;
    match event {
        ProcessEvent::CompileFailed { diagnostic } => {
            let result = job_result.with_status(JobStatus::Error).with_message(
                diagnostic.as_str(),
            );
            Result::Err(MessageError::ProcessingError(result))
        },
        ProcessEvent::MarshallingFailed { error_text } => {
            let result = job_result.with_status(JobStatus::Error).with_message(
                error_text.as_str(),
            );
            Result::Err(MessageError::ProcessingError(result))
        },
        ProcessEvent::Returned { value } => {
            let mut result = job_result;
            match get_destination_paths(&value) {
                Option::Some(paths) => {
                    result = result.with_destination_paths(paths);
                },
                Option::None => {
                    proof {
                        assert(initial.destination_paths + Seq::<Seq<char>>::empty()
                            =~= initial.destination_paths);
                    }
                },
            }
            Result::Ok(result.with_status(JobStatus::Completed))
        },
        ProcessEvent::Raised { representation, traceback } => {
            let report = failure_report(representation.as_str(), &traceback);
            let result = job_result.with_status(JobStatus::Error).with_message(report.as_str());
            Result::Err(MessageError::ProcessingError(result))
        },
    }
}

/// Round trip: a returned list of path strings completes the job with
/// exactly those paths appended in order; a returned value of any other
/// shape completes the job with its paths untouched. Either way the outcome
/// is `Completed` and no error is reported.
pub proof fn lemma_returned_value_round_trip(job_result: JobResultView, value: ScriptValueView)
    ensures
        value matches ScriptValueView::TextList(paths) ==> process_model(
            job_result,
            ProcessEventView::Returned { value },
        ) == Result::<JobResultView, MessageErrorView>::Ok(
            (JobResultView {
                status: JobStatus::Completed,
                destination_paths: job_result.destination_paths + paths,
                ..job_result
            }),
        ),
        !(value is TextList) ==> process_model(job_result, ProcessEventView::Returned { value })
            == Result::<JobResultView, MessageErrorView>::Ok(
            (JobResultView { status: JobStatus::Completed, ..job_result }),
        ),
{
    if !(value is TextList) {
        assert(job_result.destination_paths + Seq::<Seq<char>>::empty()
            =~= job_result.destination_paths);
    }
}

/// Exception capture: the failure message of a raised exception starts with
/// the exception's textual representation, and ends with the formatted
/// frames when a traceback was attached, and with the fixed marker when
/// none was.
pub proof fn lemma_failure_message_parts(representation: Seq<char>, traceback: Option<Seq<char>>)
    ensures
        failure_message(representation, traceback).take(representation.len() as int)
            == representation,
        failure_message(representation, traceback).skip(
            representation.len() + "\n\nStacktrace:\n"@.len() as int,
        ) ==stacktrace_text(traceback),
        traceback matches Option::Some(frames) ==> failure_message(representation, traceback).skip(
            representation.len() + "\n\nStacktrace:\n"@.len() as int,
        ) ==frames,
        traceback is None ==> failure_message(representation, traceback).skip(
            representation.len() + "\n\nStacktrace:\n"@.len() as int,
        ) =="Unknown python error, no stacktrace available"@,
{
    assert(failure_message(representation, traceback).take(representation.len() as int)
        =~= representation);
    assert(failure_message(representation, traceback).skip(
        representation.len() + "\n\nStacktrace:\n"@.len() as int,
    ) =~= stacktrace_text(traceback));
}

} // verus!
