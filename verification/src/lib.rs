//! Bridge between a typed job-processing worker and an externally supplied,
//! dynamically loaded script module.
//!
//! The library holds the decision core of the bridge: choosing the script
//! source location, marshalling typed job parameters into the script's native
//! key-value structure, reading the module's declared parameter schema and
//! metadata back into typed values, and turning the result of one invocation
//! (a returned value or a raised exception) into exactly one typed job
//! outcome. The interpreter itself, the message queue and the credential
//! store are collaborators at the edge: they hand the core plain values and
//! take plain values back.

pub mod marshal;
pub mod metadata;
pub mod schema;
pub mod script;
pub mod source;
pub mod values;
