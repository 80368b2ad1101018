use xch_keygen::derivation::{derive_addresses, derive_branches, derive_master, IntermediateKey};
use xch_keygen::dispatch::{DispatchAction, Dispatcher, ExportOutcome};
use xch_keygen::export::{ExportError, ExportEvent, ExportFailure, Target};
use xch_keygen::mnemonic::Mnemonic;

fn names(list: &[&str]) -> Vec<String> {
    list.iter().map(|name| String::from(*name)).collect()
}

fn failure(error: ExportError, detail: Option<&str>) -> ExportOutcome {
    ExportOutcome::Failed(ExportFailure { error, detail: detail.map(String::from) })
}

fn succeed(dispatcher: Dispatcher, target: Target) -> (Dispatcher, DispatchAction) {
    let (dispatcher, action) = dispatcher.handle(ExportEvent::Connected);
    assert_eq!(action, DispatchAction::Send(target));
    let (dispatcher, action) = dispatcher.handle(ExportEvent::Sent);
    assert_eq!(action, DispatchAction::Receive(target));
    dispatcher.handle(ExportEvent::Responded { success: true, error: None })
}

#[test]
fn nothing_requested_is_finished_at_once() {
    let (dispatcher, action) = Dispatcher::new(&Vec::new());
    assert_eq!(action, DispatchAction::Finished);
    assert!(dispatcher.is_finished());
    assert!(dispatcher.outcomes().is_empty());
    assert!(!dispatcher.has_nothing_to_attempt());
}

#[test]
fn one_backend_is_attempted_and_completes() {
    let (dispatcher, action) = Dispatcher::new(&names(&["sage"]));
    assert_eq!(action, DispatchAction::Connect(Target::Local));
    assert!(!dispatcher.is_finished());
    let (dispatcher, action) = succeed(dispatcher, Target::Local);
    assert_eq!(action, DispatchAction::Finished);
    assert!(dispatcher.is_finished());
    assert_eq!(dispatcher.outcomes(), &vec![ExportOutcome::Completed]);
}

#[test]
fn unreachable_backend_does_not_keep_the_next_from_succeeding() {
    let (dispatcher, action) = Dispatcher::new(&names(&["chia", "sage"]));
    assert_eq!(action, DispatchAction::Connect(Target::RemoteDaemon));
    let refused = ExportEvent::TransportFailed(Some(String::from("connection refused")));
    let (dispatcher, action) = dispatcher.handle(refused);
    assert_eq!(action, DispatchAction::Connect(Target::Local));
    assert_eq!(
        dispatcher.outcomes(),
        &vec![failure(ExportError::Transport, Some("connection refused"))]
    );
    let (dispatcher, action) = succeed(dispatcher, Target::Local);
    assert_eq!(action, DispatchAction::Finished);
    assert_eq!(
        dispatcher.outcomes(),
        &vec![
            failure(ExportError::Transport, Some("connection refused")),
            ExportOutcome::Completed
        ]
    );
    let failures =
        dispatcher.outcomes().iter().filter(|o| matches!(o, ExportOutcome::Failed(_))).count();
    let successes =
        dispatcher.outcomes().iter().filter(|o| matches!(o, ExportOutcome::Completed)).count();
    assert_eq!((failures, successes), (1, 1));

    let mnemonic = Mnemonic::from_entropy(&[0u8; 16]).unwrap();
    let branches = derive_branches(&derive_master(&mnemonic));
    let shown = derive_addresses(&IntermediateKey::Unhardened(branches.unhardened), &vec![0, 1]);
    assert_eq!(shown.len(), 2);
    assert_eq!(shown[0].address, "xch10y5nzscm52tkudhr40qtxhypr9y9x670wlee4rveas4pttcwsj7q7psn9w");
}

#[test]
fn success_does_not_keep_a_later_failure_from_being_reported() {
    let (dispatcher, _) = Dispatcher::new(&names(&["sage", "chia"]));
    let (dispatcher, action) = succeed(dispatcher, Target::Local);
    assert_eq!(action, DispatchAction::Connect(Target::RemoteDaemon));
    let (dispatcher, _) = dispatcher.handle(ExportEvent::Connected);
    let (dispatcher, _) = dispatcher.handle(ExportEvent::Sent);
    let rejected = ExportEvent::Responded { success: false, error: Some(String::from("locked")) };
    let (dispatcher, action) = dispatcher.handle(rejected);
    assert_eq!(action, DispatchAction::Finished);
    assert_eq!(
        dispatcher.outcomes(),
        &vec![ExportOutcome::Completed, failure(ExportError::Rejected, Some("locked"))]
    );
}

#[test]
fn unsupported_name_fails_for_itself_only() {
    let (dispatcher, action) = Dispatcher::new(&names(&["goby", "sage", "nucle"]));
    assert_eq!(action, DispatchAction::Connect(Target::Local));
    assert_eq!(dispatcher.outcomes(), &vec![failure(ExportError::UnsupportedBackend, None)]);
    assert!(!dispatcher.has_nothing_to_attempt());
    let (dispatcher, action) = succeed(dispatcher, Target::Local);
    assert_eq!(action, DispatchAction::Finished);
    assert_eq!(
        dispatcher.outcomes(),
        &vec![
            failure(ExportError::UnsupportedBackend, None),
            ExportOutcome::Completed,
            failure(ExportError::UnsupportedBackend, None)
        ]
    );
    assert_eq!(
        dispatcher.targets(),
        &vec![Target::Unsupported, Target::Local, Target::Unsupported]
    );
}

#[test]
fn request_without_any_backend_cannot_be_served() {
    let (dispatcher, action) = Dispatcher::new(&names(&["goby"]));
    assert_eq!(action, DispatchAction::Finished);
    assert!(dispatcher.is_finished());
    assert!(dispatcher.has_nothing_to_attempt());
    assert_eq!(dispatcher.outcomes(), &vec![failure(ExportError::UnsupportedBackend, None)]);
    let (dispatcher, _) = Dispatcher::new(&names(&["", "goby", ""]));
    assert!(dispatcher.has_nothing_to_attempt());
}

#[test]
fn empty_names_are_skipped() {
    let (dispatcher, action) = Dispatcher::new(&names(&["", ""]));
    assert_eq!(action, DispatchAction::Finished);
    assert!(!dispatcher.has_nothing_to_attempt());
    assert_eq!(dispatcher.outcomes(), &vec![ExportOutcome::Skipped, ExportOutcome::Skipped]);
}

#[test]
fn stray_events_are_ignored() {
    let (dispatcher, _) = Dispatcher::new(&names(&["chia"]));
    let (dispatcher, action) = dispatcher.handle(ExportEvent::Sent);
    assert_eq!(action, DispatchAction::Ignore);
    let (dispatcher, action) = dispatcher.handle(ExportEvent::Start);
    assert_eq!(action, DispatchAction::Ignore);
    assert!(dispatcher.outcomes().is_empty());
    let (dispatcher, action) = succeed(dispatcher, Target::RemoteDaemon);
    assert_eq!(action, DispatchAction::Finished);
    let (dispatcher, action) = dispatcher.handle(ExportEvent::Connected);
    assert_eq!(action, DispatchAction::Finished);
    assert_eq!(dispatcher.outcomes(), &vec![ExportOutcome::Completed]);
}

#[test]
fn same_backend_twice_is_attempted_twice() {
    let (dispatcher, _) = Dispatcher::new(&names(&["chia", "chia"]));
    let (dispatcher, action) = dispatcher.handle(ExportEvent::Connected);
    assert_eq!(action, DispatchAction::Send(Target::RemoteDaemon));
    let (dispatcher, action) = dispatcher.handle(ExportEvent::TransportFailed(None));
    assert_eq!(action, DispatchAction::Connect(Target::RemoteDaemon));
    let (dispatcher, action) = dispatcher.handle(ExportEvent::Connected);
    assert_eq!(action, DispatchAction::Send(Target::RemoteDaemon));
    let (dispatcher, _) = dispatcher.handle(ExportEvent::Sent);
    let (dispatcher, action) = dispatcher.handle(ExportEvent::Unreadable(None));
    assert_eq!(action, DispatchAction::Finished);
    assert_eq!(
        dispatcher.outcomes(),
        &vec![
            failure(ExportError::Transport, None),
            failure(ExportError::MalformedResponse, None)
        ]
    );
}
