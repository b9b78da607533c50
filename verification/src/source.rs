//! Choice of the script module's source location.
//!
//! The script source is located through a configured environment reference;
//! when none is set, a fixed default file name is used. Reading the file is
//! the caller's concern: the core only decides which name to read and what a
//! failure to read it must say.

use vstd::prelude::*;
use vstd::string::StringExecFns;

verus! {

/// The file name to load the script module from: the configured name when
/// one is present, and `worker.py` otherwise.
pub open spec fn spec_worker_filename(configured: Option<Seq<char>>) -> Seq<char> {
    match configured {
        Option::Some(name) => name,
        Option::None => "worker.py"@,
    }
}

/// Picks the script source file name from the optional configured value.
pub fn worker_filename(configured: Option<String>) -> (r: String)
    ensures
        r@ == spec_worker_filename(configured.deep_view()),
{
    match configured {
        Option::Some(name) => name,
        Option::None => String::from_str("worker.py"),
    }
}

/// The fatal startup message when the script source cannot be read.
pub open spec fn spec_read_failure_message(filename: Seq<char>) -> Seq<char> {
    "unable to open and read file: "@ + filename
}

/// Builds the startup failure message naming the file that could not be read.
pub fn read_failure_message(filename: &str) -> (r: String)
    ensures
        r@ == spec_read_failure_message(filename@),
{
    let mut message = String::from_str("unable to open and read file: ");
    message.append(filename);
    message
}

} // verus!
