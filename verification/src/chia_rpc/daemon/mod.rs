//! The commands of the daemon itself and what its responses have in common.

pub mod add_key;

use vstd::prelude::*;

verus! {

/// The payload of a response from the daemon.
#[derive(Debug, Clone, PartialEq, Eq)]
pub struct ResponseData {
    /// The command that is answered, where the daemon repeats it.
    pub command: Option<String>,
    /// Whether the command succeeded.
    pub success: bool,
    /// The fingerprint of the key that the command was about.
    pub fingerprint: Option<u32>,
    /// The kind of failure.
    pub error: Option<String>,
    /// More about the failure.
    pub error_details: Option<ErrorDetails>,
}

/// What the daemon adds to the kind of a failure.
#[derive(Debug, Clone, PartialEq, Eq)]
pub struct ErrorDetails {
    /// A message for the operator.
    pub message: String,
}

} // verus!
