//! The envelope of every request sent over the daemon's websocket.

use vstd::prelude::*;

verus! {

/// A request envelope around the payload of one command.
#[derive(Debug, Clone, PartialEq, Eq)]
pub struct Request<T> {
    /// Whether the message acknowledges another one.
    pub ack: bool,
    /// The name of the command.
    pub command: String,
    /// An identifier that the response repeats.
    pub request_id: Option<String>,
    /// The service that should handle the command.
    pub destination: String,
    /// The service that sends the command.
    pub origin: Option<String>,
    /// The payload of the command.
    pub data: T,
}

} // verus!
