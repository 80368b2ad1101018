//! Handing key material to an external wallet.
//!
//! This module holds what is decided, not what is done: which backend a name
//! stands for, what the request to it says, and how one attempt moves from
//! connecting to its outcome. The connecting, sending and receiving are done
//! by the caller, who reports each result as an event and is told what to do
//! next.

use crate::chia_rpc::daemon::add_key::{Command, Response};
use crate::chia_rpc::websocket::Request;
use crate::hexadecimal::hex_text;
use crate::keys::PublicKey;
use crate::mnemonic::{entropy_phrase, Mnemonic};
use vstd::prelude::*;
use vstd::string::*;

verus! {

/// What a backend name stands for.
#[derive(Debug, Clone, Copy, PartialEq, Eq, Structural)]
pub enum Target {
    /// The local wallet, reached over its own RPC client.
    Local,
    /// The Chia daemon, reached over a websocket inside a TLS tunnel.
    RemoteDaemon,
    /// A name that no backend answers to.
    Unsupported,
    /// The empty name: nothing was asked for.
    Nothing,
}

/// The name of the local wallet backend.
pub open spec fn local_name() -> Seq<char> {
    seq!['s', 'a', 'g', 'e']
}

/// The name of the daemon backend.
pub open spec fn daemon_name() -> Seq<char> {
    seq!['c', 'h', 'i', 'a']
}

/// What a backend name stands for.
pub open spec fn target_of(name: Seq<char>) -> Target {
    if name == local_name() {
        Target::Local
    } else if name == daemon_name() {
        Target::RemoteDaemon
    } else if name.len() == 0 {
        Target::Nothing
    } else {
        Target::Unsupported
    }
}

/// Whether a target is a backend that an export can be attempted with.
pub open spec fn is_backend(target: Target) -> bool {
    target == Target::Local || target == Target::RemoteDaemon
}

/// Finds the backend that a name stands for.
pub fn resolve_target(name: &str) -> (target: Target)
    ensures
        target == target_of(name@),
{
    proof {
        reveal_strlit("sage");
        reveal_strlit("chia");
        assert("sage"@ =~= local_name());
        assert("chia"@ =~= daemon_name());
    }
    let given = String::from_str(name);
    if given == String::from_str("sage") {
        Target::Local
    } else if given == String::from_str("chia") {
        Target::RemoteDaemon
    } else if name.is_empty() {
        Target::Nothing
    } else {
        Target::Unsupported
    }
}

/// The key that is handed over: the phrase of the mnemonic for an export of
/// the secret, else the master public key in hexadecimal.
pub open spec fn exported_key(hot: bool, entropy: Seq<u8>, master_public: Seq<u8>) -> Seq<char> {
    if hot {
        entropy_phrase(entropy)
    } else {
        hex_text(master_public)
    }
}

/// The key to hand over.
pub fn export_key(hot: bool, mnemonic: &Mnemonic, master_public: &PublicKey) -> (key: String)
    ensures
        key@ == exported_key(hot, mnemonic@, master_public@),
{
    if hot {
        mnemonic.phrase()
    } else {
        master_public.to_hex()
    }
}

/// The index that the receiving wallet is told to derive up to: the last and
/// highest of the enumerated indices, or the requested count where none was
/// enumerated.
pub fn derivation_hint(indices: &Vec<u32>, count: u32) -> (hint: u32)
    ensures
        hint == if indices@.len() > 0 {
            indices@.last()
        } else {
            count
        },
{
    if indices.len() > 0 {
        indices[indices.len() - 1]
    } else {
        count
    }
}

/// The request to the local wallet.
#[derive(Debug, Clone, PartialEq, Eq)]
pub struct ImportKey {
    /// The name of the wallet; empty where naming is disabled.
    pub name: String,
    /// The phrase, or the master public key in hexadecimal.
    pub key: String,
    /// The index to derive up to.
    pub derivation_index: u32,
    /// An emoji for the wallet.
    pub emoji: Option<String>,
    /// Whether the wallet keeps the secret.
    pub save_secrets: bool,
    /// Whether the wallet logs in to the key at once.
    pub login: bool,
}

/// Builds the request to the local wallet. The wallet keeps the secret, gets
/// an empty emoji and does not log in.
pub fn build_import_key(label: &str, key: String, derivation_index: u32) -> (request: ImportKey)
    ensures
        request.name@ == label@,
        request.key == key,
        request.derivation_index == derivation_index,
        request.emoji matches Some(emoji) && emoji@.len() == 0,
        request.save_secrets,
        !request.login,
{
    ImportKey {
        name: String::from_str(label),
        key,
        derivation_index,
        emoji: Some(String::new()),
        save_secrets: true,
        login: false,
    }
}

/// The label of an `add_key` payload: none for the empty label.
pub open spec fn payload_label(label: Seq<char>, field: Option<String>) -> bool {
    if label.len() == 0 {
        field is None
    } else {
        field matches Some(text) && text@ == label
    }
}

/// Builds the `add_key` request to the daemon.
///
/// It is no acknowledgement, has an empty identifier, comes from `xch-keygen`
/// and goes to `daemon`. The keychain defaults are left alone, and `private`
/// says whether the key is the phrase.
pub fn build_add_key(label: &str, key: String, hot: bool) -> (request: Request<Command>)
    ensures
        !request.ack,
        request.command@ == "add_key"@,
        request.request_id matches Some(id) && id@.len() == 0,
        request.destination@ == "daemon"@,
        request.origin matches Some(origin) && origin@ == "xch-keygen"@,
        request.data.kc_user is None,
        request.data.kc_service is None,
        request.data.mnemonic_or_pk == key,
        payload_label(label@, request.data.label),
        request.data.private == Some(hot),
{
    let payload = Command {
        kc_user: None,
        kc_service: None,
        mnemonic_or_pk: key,
        label: if label.is_empty() {
            None
        } else {
            Some(String::from_str(label))
        },
        private: Some(hot),
    };
    Request {
        ack: false,
        command: String::from_str("add_key"),
        request_id: Some(String::new()),
        destination: String::from_str("daemon"),
        origin: Some(String::from_str("xch-keygen")),
        data: payload,
    }
}

/// The kinds of failure of one attempt.
#[derive(Debug, Clone, Copy, PartialEq, Eq, Structural)]
pub enum ExportError {
    /// The name stands for no backend.
    UnsupportedBackend,
    /// Connecting, sending or receiving failed.
    Transport,
    /// The response could not be read.
    MalformedResponse,
    /// The backend answered that it did not succeed.
    Rejected,
}

/// A failed attempt: its kind and what the transport or the backend said.
#[derive(Debug, Clone, PartialEq, Eq)]
pub struct ExportFailure {
    /// The kind of failure.
    pub error: ExportError,
    /// The detail for the operator, where there is any.
    pub detail: Option<String>,
}

/// What the operator is told where a failure carries no detail.
pub open spec fn no_detail() -> Seq<char> {
    "No error was provided."@
}

/// What the operator is told about a failure: its detail, or that there is
/// none.
pub fn failure_detail(failure: &ExportFailure) -> (text: String)
    ensures
        text@ == match failure.detail {
            Some(detail) => detail@,
            None => no_detail(),
        },
{
    match &failure.detail {
        Some(detail) => detail.clone(),
        None => String::from_str("No error was provided."),
    }
}

/// Where one attempt stands.
#[derive(Debug, Clone, PartialEq, Eq)]
pub enum ExportState {
    /// Nothing was done yet.
    Idle,
    /// The transport is being set up.
    Connecting,
    /// The request is being sent.
    Requesting,
    /// The response is awaited.
    AwaitingResponse,
    /// The backend acknowledged success.
    Completed,
    /// The attempt failed.
    Failed(ExportFailure),
}

/// What the caller reports.
#[derive(Debug, Clone, PartialEq, Eq)]
pub enum ExportEvent {
    /// The attempt is to begin.
    Start,
    /// The transport stands.
    Connected,
    /// The request went out.
    Sent,
    /// A response was read.
    Responded {
        /// Whether the backend succeeded.
        success: bool,
        /// The error that the response carries.
        error: Option<String>,
    },
    /// What came back is no response.
    Unreadable(Option<String>),
    /// The transport failed.
    TransportFailed(Option<String>),
}

/// What the caller is to do next.
#[derive(Debug, Clone, Copy, PartialEq, Eq, Structural)]
pub enum ExportAction {
    /// Set up the transport.
    Connect,
    /// Send the one request.
    Send,
    /// Wait for the one response.
    Receive,
    /// Report the outcome; the attempt is over.
    Report,
    /// Nothing: the event does not belong to where the attempt stands.
    Ignore,
}

/// Whether an attempt is over.
pub open spec fn is_terminal(state: ExportState) -> bool {
    state is Completed || state is Failed
}

/// How far an attempt has come. No event ever takes an attempt back.
pub open spec fn progress(state: ExportState) -> nat {
    match state {
        ExportState::Idle => 0,
        ExportState::Connecting => 1,
        ExportState::Requesting => 2,
        ExportState::AwaitingResponse => 3,
        ExportState::Completed => 4,
        ExportState::Failed(_) => 4,
    }
}

/// The state after an event, and what is to be done.
///
/// A transport failure ends an attempt that is under way. A response ends an
/// attempt that awaits one: in success if it says so, else in failure with
/// the error that it carries. An event that does not belong to the state
/// changes nothing.
pub open spec fn step_of(state: ExportState, event: ExportEvent) -> (ExportState, ExportAction) {
    match (state, event) {
        (ExportState::Idle, ExportEvent::Start) => (ExportState::Connecting, ExportAction::Connect),
        (ExportState::Connecting, ExportEvent::Connected) => (
            ExportState::Requesting,
            ExportAction::Send,
        ),
        (ExportState::Requesting, ExportEvent::Sent) => (
            ExportState::AwaitingResponse,
            ExportAction::Receive,
        ),
        (ExportState::AwaitingResponse, ExportEvent::Responded { success, error }) => if success {
            (ExportState::Completed, ExportAction::Report)
        } else {
            (
                ExportState::Failed(ExportFailure { error: ExportError::Rejected, detail: error }),
                ExportAction::Report,
            )
        },
        (ExportState::AwaitingResponse, ExportEvent::Unreadable(detail)) => (
            ExportState::Failed(ExportFailure { error: ExportError::MalformedResponse, detail }),
            ExportAction::Report,
        ),
        (ExportState::Connecting, ExportEvent::TransportFailed(detail)) => (
            ExportState::Failed(ExportFailure { error: ExportError::Transport, detail }),
            ExportAction::Report,
        ),
        (ExportState::Requesting, ExportEvent::TransportFailed(detail)) => (
            ExportState::Failed(ExportFailure { error: ExportError::Transport, detail }),
            ExportAction::Report,
        ),
        (ExportState::AwaitingResponse, ExportEvent::TransportFailed(detail)) => (
            ExportState::Failed(ExportFailure { error: ExportError::Transport, detail }),
            ExportAction::Report,
        ),
        (state, _) => (state, ExportAction::Ignore),
    }
}

/// Moves an attempt by one event.
pub fn step(state: ExportState, event: ExportEvent) -> (next: (ExportState, ExportAction))
    ensures
        next == step_of(state, event),
{
    match (state, event) {
        (ExportState::Idle, ExportEvent::Start) => (ExportState::Connecting, ExportAction::Connect),
        (ExportState::Connecting, ExportEvent::Connected) => (
            ExportState::Requesting,
            ExportAction::Send,
        ),
        (ExportState::Requesting, ExportEvent::Sent) => (
            ExportState::AwaitingResponse,
            ExportAction::Receive,
        ),
        (ExportState::AwaitingResponse, ExportEvent::Responded { success, error }) => {
            if success {
                (ExportState::Completed, ExportAction::Report)
            } else {
                (
                    ExportState::Failed(
                        ExportFailure { error: ExportError::Rejected, detail: error },
                    ),
                    ExportAction::Report,
                )
            }
        },
        (ExportState::AwaitingResponse, ExportEvent::Unreadable(detail)) => (
            ExportState::Failed(ExportFailure { error: ExportError::MalformedResponse, detail }),
            ExportAction::Report,
        ),
        (ExportState::Connecting, ExportEvent::TransportFailed(detail)) => (
            ExportState::Failed(ExportFailure { error: ExportError::Transport, detail }),
            ExportAction::Report,
        ),
        (ExportState::Requesting, ExportEvent::TransportFailed(detail)) => (
            ExportState::Failed(ExportFailure { error: ExportError::Transport, detail }),
            ExportAction::Report,
        ),
        (ExportState::AwaitingResponse, ExportEvent::TransportFailed(detail)) => (
            ExportState::Failed(ExportFailure { error: ExportError::Transport, detail }),
            ExportAction::Report,
        ),
        (state, _) => (state, ExportAction::Ignore),
    }
}

/// The event that a response of the daemon amounts to: whether it succeeded,
/// and the error that it carries.
pub fn response_event(response: Response) -> (event: ExportEvent)
    ensures
        event == (ExportEvent::Responded {
            success: response.data.success,
            error: response.data.error,
        }),
{
    ExportEvent::Responded { success: response.data.success, error: response.data.error }
}

/// Where an attempt stands after a sequence of events.
pub open spec fn run_of(state: ExportState, events: Seq<ExportEvent>) -> ExportState
    decreases events.len(),
{
    if events.len() == 0 {
        state
    } else {
        run_of(step_of(state, events.first()).0, events.drop_first())
    }
}

/// How often the caller is told to do `action` over a sequence of events.
pub open spec fn times_told(state: ExportState, events: Seq<ExportEvent>, action: ExportAction) -> nat
    decreases events.len(),
{
    if events.len() == 0 {
        0
    } else {
        let (next, told) = step_of(state, events.first());
        times_told(next, events.drop_first(), action) + if told == action {
            1nat
        } else {
            0nat
        }
    }
}

/// The progress at which the caller is told to do `action`, for the three
/// actions that do the work of an attempt.
pub open spec fn told_at(action: ExportAction) -> nat {
    match action {
        ExportAction::Connect => 0,
        ExportAction::Send => 1,
        _ => 2,
    }
}

/// Whether `action` is one of the three that do the work of an attempt.
pub open spec fn does_work(action: ExportAction) -> bool {
    action == ExportAction::Connect || action == ExportAction::Send || action
        == ExportAction::Receive
}

/// No event takes an attempt back, and every event that is not ignored takes
/// it forward. Each piece of work is asked for at one point of the progress
/// only, and an attempt that is over stays as it is.
pub proof fn lemma_step_advances(state: ExportState, event: ExportEvent)
    ensures
        progress(state) <= progress(step_of(state, event).0),
        step_of(state, event).1 != ExportAction::Ignore ==> progress(state) < progress(
            step_of(state, event).0,
        ),
        step_of(state, event).1 == ExportAction::Ignore ==> step_of(state, event).0 == state,
        does_work(step_of(state, event).1) ==> progress(state) == told_at(
            step_of(state, event).1,
        ) && progress(step_of(state, event).0) == progress(state) + 1,
        step_of(state, event).0 is Completed && !(state is Completed) ==> progress(state) == 3,
        is_terminal(state) ==> step_of(state, event).0 == state,
{
}

/// Over any sequence of events, the caller is told at most once to connect, at
/// most once to send and at most once to receive; and not at all if the
/// attempt is already past that point.
pub proof fn lemma_work_at_most_once(
    state: ExportState,
    events: Seq<ExportEvent>,
    action: ExportAction,
)
    requires
        does_work(action),
    ensures
        times_told(state, events, action) <= 1,
        progress(state) > told_at(action) ==> times_told(state, events, action) == 0,
    decreases events.len(),
{
    if events.len() > 0 {
        lemma_step_advances(state, events.first());
        lemma_work_at_most_once(step_of(state, events.first()).0, events.drop_first(), action);
    }
}

/// An attempt that is over stays as it is, whatever is reported.
pub proof fn lemma_terminal_stays(state: ExportState, events: Seq<ExportEvent>)
    requires
        is_terminal(state),
    ensures
        run_of(state, events) == state,
    decreases events.len(),
{
    if events.len() > 0 {
        lemma_terminal_stays(state, events.drop_first());
    }
}

/// An attempt that ends in success was told exactly once to do each piece of
/// work that lay ahead of where it started: from the start, one connection,
/// one request sent, one response awaited.
pub proof fn lemma_success_did_all_work(
    state: ExportState,
    events: Seq<ExportEvent>,
    action: ExportAction,
)
    requires
        does_work(action),
        run_of(state, events) is Completed,
        progress(state) <= told_at(action),
    ensures
        times_told(state, events, action) == 1,
    decreases events.len(),
{
    if events.len() > 0 {
        let first = events.first();
        let next = step_of(state, first).0;
        lemma_step_advances(state, first);
        if step_of(state, first).1 == action {
            lemma_work_at_most_once(next, events.drop_first(), action);
        } else {
            if next is Failed {
                lemma_terminal_stays(next, events.drop_first());
            }
            lemma_success_did_all_work(next, events.drop_first(), action);
        }
    }
}

} // verus!
