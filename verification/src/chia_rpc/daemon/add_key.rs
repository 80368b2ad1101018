//! The `add_key` command, which hands a key to the daemon's keychain.

use crate::chia_rpc::daemon::ResponseData;
use vstd::prelude::*;

verus! {

/// The payload of an `add_key` request.
#[derive(Debug, Clone, PartialEq, Eq)]
pub struct Command {
    /// The keychain user, where it is not the default one.
    pub kc_user: Option<String>,
    /// The keychain service, where it is not the default one.
    pub kc_service: Option<String>,
    /// The mnemonic phrase, or the master public key in hexadecimal.
    pub mnemonic_or_pk: String,
    /// A name for the key.
    pub label: Option<String>,
    /// Whether `mnemonic_or_pk` holds secret material.
    pub private: Option<bool>,
}

/// The response to an `add_key` request.
#[derive(Debug, Clone, PartialEq, Eq)]
pub struct Response {
    /// Whether the message acknowledges a request.
    pub ack: bool,
    /// The name of the command that is answered.
    pub command: String,
    /// The payload.
    pub data: ResponseData,
    /// The service that the response goes to.
    pub destination: String,
    /// The service that answered.
    pub origin: String,
    /// The identifier of the request that is answered.
    pub request_id: String,
}

} // verus!
