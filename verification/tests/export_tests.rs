use xch_keygen::chia_rpc::daemon::add_key::{Command, Response};
use xch_keygen::chia_rpc::daemon::{ErrorDetails, ResponseData};
use xch_keygen::chia_rpc::websocket::Request;
use xch_keygen::derivation::{derive_branches, derive_master};
use xch_keygen::export::{
    build_add_key, build_import_key, derivation_hint, export_key, failure_detail, resolve_target,
    response_event, step, ExportAction, ExportError, ExportEvent, ExportFailure, ExportState, ImportKey, Target,
};
use xch_keygen::mnemonic::Mnemonic;

fn daemon_response(success: bool, error: Option<&str>) -> Response {
    Response {
        ack: true,
        command: String::from("add_key"),
        data: ResponseData {
            command: None,
            success,
            fingerprint: if success { Some(3781984839) } else { None },
            error: error.map(String::from),
            error_details: error.map(|text| ErrorDetails { message: String::from(text) }),
        },
        destination: String::from("xch-keygen"),
        origin: String::from("daemon"),
        request_id: String::new(),
    }
}

fn failed(error: ExportError, detail: Option<&str>) -> ExportState {
    ExportState::Failed(ExportFailure { error, detail: detail.map(String::from) })
}

#[test]
fn backend_names_are_resolved() {
    assert_eq!(resolve_target("sage"), Target::Local);
    assert_eq!(resolve_target("chia"), Target::RemoteDaemon);
    assert_eq!(resolve_target(""), Target::Nothing);
    assert_eq!(resolve_target("Sage"), Target::Unsupported);
    assert_eq!(resolve_target("chia "), Target::Unsupported);
    assert_eq!(resolve_target("goby"), Target::Unsupported);
}

#[test]
fn hot_export_hands_over_the_phrase() {
    let mnemonic = Mnemonic::from_entropy(&[0u8; 16]).unwrap();
    let branches = derive_branches(&derive_master(&mnemonic));
    assert_eq!(
        export_key(true, &mnemonic, &branches.master_public),
        "abandon abandon abandon abandon abandon abandon abandon abandon abandon abandon abandon about"
    );
}

#[test]
fn cold_export_hands_over_the_public_key() {
    let mnemonic = Mnemonic::from_entropy(&[0u8; 16]).unwrap();
    let branches = derive_branches(&derive_master(&mnemonic));
    assert_eq!(
        export_key(false, &mnemonic, &branches.master_public),
        "82ae65efe846b15a92c51b7ad6c32589fd79d38263d3cbefbeeba08be8e90d8bc335a1e2fcc66a10b8c817c06232285a"
    );
}

#[test]
fn hint_is_the_last_index_or_the_count() {
    assert_eq!(derivation_hint(&vec![5, 7, 9], 3), 9);
    assert_eq!(derivation_hint(&vec![4], 1), 4);
    assert_eq!(derivation_hint(&Vec::new(), 10), 10);
    assert_eq!(derivation_hint(&Vec::new(), 0), 0);
}

#[test]
fn local_request_keeps_the_secret_and_does_not_log_in() {
    let request = build_import_key("idle-rare-employ", String::from("key text"), 9);
    assert_eq!(
        request,
        ImportKey {
            name: String::from("idle-rare-employ"),
            key: String::from("key text"),
            derivation_index: 9,
            emoji: Some(String::new()),
            save_secrets: true,
            login: false,
        }
    );
    assert_eq!(build_import_key("", String::from("k"), 0).name, "");
}

#[test]
fn daemon_request_is_an_add_key_command() {
    let request = build_add_key("idle-rare-employ", String::from("key text"), true);
    assert_eq!(
        request,
        Request {
            ack: false,
            command: String::from("add_key"),
            request_id: Some(String::new()),
            destination: String::from("daemon"),
            origin: Some(String::from("xch-keygen")),
            data: Command {
                kc_user: None,
                kc_service: None,
                mnemonic_or_pk: String::from("key text"),
                label: Some(String::from("idle-rare-employ")),
                private: Some(true),
            },
        }
    );
}

#[test]
fn daemon_request_without_label_names_none() {
    let request = build_add_key("", String::from("abcdef"), false);
    assert_eq!(request.data.label, None);
    assert_eq!(request.data.private, Some(false));
    assert_eq!(request.data.mnemonic_or_pk, "abcdef");
}

#[test]
fn attempt_walks_from_idle_to_completed() {
    let (state, action) = step(ExportState::Idle, ExportEvent::Start);
    assert_eq!((state.clone(), action), (ExportState::Connecting, ExportAction::Connect));
    let (state, action) = step(state, ExportEvent::Connected);
    assert_eq!((state.clone(), action), (ExportState::Requesting, ExportAction::Send));
    let (state, action) = step(state, ExportEvent::Sent);
    assert_eq!((state.clone(), action), (ExportState::AwaitingResponse, ExportAction::Receive));
    let (state, action) = step(state, ExportEvent::Responded { success: true, error: None });
    assert_eq!((state, action), (ExportState::Completed, ExportAction::Report));
}

#[test]
fn unsuccessful_response_fails_with_its_error() {
    let event = ExportEvent::Responded { success: false, error: Some(String::from("locked")) };
    assert_eq!(
        step(ExportState::AwaitingResponse, event),
        (failed(ExportError::Rejected, Some("locked")), ExportAction::Report)
    );
    let event = ExportEvent::Responded { success: false, error: None };
    assert_eq!(
        step(ExportState::AwaitingResponse, event),
        (failed(ExportError::Rejected, None), ExportAction::Report)
    );
}

#[test]
fn successful_response_ignores_an_error_text() {
    let event = ExportEvent::Responded { success: true, error: Some(String::from("noise")) };
    assert_eq!(
        step(ExportState::AwaitingResponse, event),
        (ExportState::Completed, ExportAction::Report)
    );
}

#[test]
fn unreadable_response_fails_as_malformed() {
    let event = ExportEvent::Unreadable(Some(String::from("expected value at line 1")));
    assert_eq!(
        step(ExportState::AwaitingResponse, event),
        (
            failed(ExportError::MalformedResponse, Some("expected value at line 1")),
            ExportAction::Report
        )
    );
}

#[test]
fn transport_failure_ends_an_attempt_that_is_under_way() {
    for state in
        [ExportState::Connecting, ExportState::Requesting, ExportState::AwaitingResponse]
    {
        let event = ExportEvent::TransportFailed(Some(String::from("refused")));
        assert_eq!(
            step(state, event),
            (failed(ExportError::Transport, Some("refused")), ExportAction::Report)
        );
    }
}

#[test]
fn events_out_of_place_change_nothing() {
    let stray = [
        (ExportState::Idle, ExportEvent::Connected),
        (ExportState::Idle, ExportEvent::Sent),
        (ExportState::Idle, ExportEvent::TransportFailed(None)),
        (ExportState::Connecting, ExportEvent::Start),
        (ExportState::Connecting, ExportEvent::Sent),
        (ExportState::Connecting, ExportEvent::Responded { success: true, error: None }),
        (ExportState::Requesting, ExportEvent::Connected),
        (ExportState::Requesting, ExportEvent::Unreadable(None)),
        (ExportState::AwaitingResponse, ExportEvent::Sent),
        (ExportState::AwaitingResponse, ExportEvent::Start),
    ];
    for (state, event) in stray {
        assert_eq!(step(state.clone(), event), (state, ExportAction::Ignore));
    }
}

#[test]
fn finished_attempt_stays_as_it_is() {
    let events = [
        ExportEvent::Start,
        ExportEvent::Connected,
        ExportEvent::Sent,
        ExportEvent::Responded { success: false, error: None },
        ExportEvent::Unreadable(None),
        ExportEvent::TransportFailed(None),
    ];
    for event in events {
        assert_eq!(
            step(ExportState::Completed, event.clone()),
            (ExportState::Completed, ExportAction::Ignore)
        );
        let over = failed(ExportError::Transport, Some("refused"));
        assert_eq!(step(over.clone(), event), (over, ExportAction::Ignore));
    }
}

#[test]
fn daemon_response_becomes_an_event() {
    assert_eq!(
        response_event(daemon_response(true, None)),
        ExportEvent::Responded { success: true, error: None }
    );
    assert_eq!(
        response_event(daemon_response(false, Some("keychain is locked"))),
        ExportEvent::Responded { success: false, error: Some(String::from("keychain is locked")) }
    );
}

#[test]
fn operator_is_told_the_detail_or_that_there_is_none() {
    let with_detail =
        ExportFailure { error: ExportError::Rejected, detail: Some(String::from("locked")) };
    assert_eq!(failure_detail(&with_detail), "locked");
    let without = ExportFailure { error: ExportError::Rejected, detail: None };
    assert_eq!(failure_detail(&without), "No error was provided.");
}
