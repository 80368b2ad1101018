//! The export dispatcher: one attempt after another, one for every backend
//! that was asked for.
//!
//! The dispatcher is a state machine over all requested names. The caller does
//! what it is told (connect, send, receive), reports what happened, and is told
//! the next thing to do. An attempt that fails is recorded and the next one
//! begins: no failure keeps another backend from being tried, and no later
//! event changes an outcome that was recorded.

use crate::export::{
    is_backend, is_terminal, resolve_target, step, step_of, target_of, ExportAction,
    ExportError, ExportEvent, ExportFailure, ExportState, Target,
};
use vstd::prelude::*;

verus! {

/// How the attempt for one requested name ended.
#[derive(Debug, Clone, PartialEq, Eq)]
pub enum ExportOutcome {
    /// The backend acknowledged success.
    Completed,
    /// The attempt failed, or the name stands for no backend.
    Failed(ExportFailure),
    /// The name was empty.
    Skipped,
}

/// What the caller is to do next.
#[derive(Debug, Clone, Copy, PartialEq, Eq, Structural)]
pub enum DispatchAction {
    /// Set up the transport to this backend.
    Connect(Target),
    /// Send the one request to this backend.
    Send(Target),
    /// Wait for the one response of this backend.
    Receive(Target),
    /// Nothing: the event does not belong to where the attempt stands.
    Ignore,
    /// Every requested name has its outcome.
    Finished,
}

/// The dispatcher as a mathematical value.
#[verifier::ext_equal]
pub struct Dispatch {
    /// What the requested names stand for, in the order of the request.
    pub targets: Seq<Target>,
    /// The outcomes so far: one for each of the first targets.
    pub outcomes: Seq<ExportOutcome>,
    /// Where the attempt for the next target stands.
    pub state: ExportState,
}

/// The outcome of a name that no attempt is made for.
pub open spec fn immediate_outcome(target: Target) -> ExportOutcome {
    if target == Target::Nothing {
        ExportOutcome::Skipped
    } else {
        ExportOutcome::Failed(
            ExportFailure { error: ExportError::UnsupportedBackend, detail: None },
        )
    }
}

/// Whether an outcome fits the target that it was recorded for: a backend was
/// attempted, an unsupported name failed as such, an empty name was skipped.
pub open spec fn outcome_fits(target: Target, outcome: ExportOutcome) -> bool {
    if is_backend(target) {
        match outcome {
            ExportOutcome::Completed => true,
            ExportOutcome::Failed(failure) => failure.error != ExportError::UnsupportedBackend,
            ExportOutcome::Skipped => false,
        }
    } else {
        outcome == immediate_outcome(target)
    }
}

/// The outcome that a finished attempt is recorded as.
pub open spec fn outcome_of(state: ExportState) -> ExportOutcome {
    match state {
        ExportState::Failed(failure) => ExportOutcome::Failed(failure),
        _ => ExportOutcome::Completed,
    }
}

/// The invariant of a dispatcher.
///
/// There are never more outcomes than targets, and every outcome fits its
/// target. The dispatcher is idle exactly when every target has its outcome;
/// otherwise an attempt with the next target, which is a backend, is under
/// way.
pub open spec fn well_formed(d: Dispatch) -> bool {
    &&& d.outcomes.len() <= d.targets.len()
    &&& forall|i: int|
        0 <= i < d.outcomes.len() ==> outcome_fits(d.targets[i], #[trigger] d.outcomes[i])
    &&& !is_terminal(d.state)
    &&& d.state is Idle <==> d.outcomes.len() == d.targets.len()
    &&& !(d.state is Idle) ==> is_backend(d.targets[d.outcomes.len() as int])
}

/// Whether every requested name has its outcome.
pub open spec fn finished(d: Dispatch) -> bool {
    d.state is Idle
}

/// Begins the next attempt: names that stand for no backend get their outcome
/// at once, and the first backend after them is to be connected to. Where no
/// backend is left, the dispatcher is finished.
pub open spec fn begin_from(targets: Seq<Target>, outcomes: Seq<ExportOutcome>) -> (
    Dispatch,
    DispatchAction,
)
    decreases targets.len() - outcomes.len(),
{
    if outcomes.len() >= targets.len() {
        (Dispatch { targets, outcomes, state: ExportState::Idle }, DispatchAction::Finished)
    } else if is_backend(targets[outcomes.len() as int]) {
        (
            Dispatch { targets, outcomes, state: ExportState::Connecting },
            DispatchAction::Connect(targets[outcomes.len() as int]),
        )
    } else {
        begin_from(targets, outcomes.push(immediate_outcome(targets[outcomes.len() as int])))
    }
}

/// The dispatcher after an event, and what is to be done.
///
/// The event moves the attempt that is under way. Where that ends the attempt,
/// its outcome is recorded and the next attempt begins.
pub open spec fn handle_of(d: Dispatch, event: ExportEvent) -> (Dispatch, DispatchAction) {
    if d.state is Idle {
        (d, DispatchAction::Finished)
    } else {
        let target = d.targets[d.outcomes.len() as int];
        let (state, action) = step_of(d.state, event);
        if is_terminal(state) {
            begin_from(d.targets, d.outcomes.push(outcome_of(state)))
        } else {
            (
                Dispatch { targets: d.targets, outcomes: d.outcomes, state },
                match action {
                    ExportAction::Send => DispatchAction::Send(target),
                    ExportAction::Receive => DispatchAction::Receive(target),
                    _ => DispatchAction::Ignore,
                },
            )
        }
    }
}

/// The targets of a list of names.
pub open spec fn targets_of(names: Seq<String>) -> Seq<Target> {
    names.map_values(|name: String| target_of(name@))
}

/// Whether the run cannot serve the request at all: a backend was named, and
/// none of the names stands for a backend.
pub open spec fn nothing_to_attempt(targets: Seq<Target>) -> bool {
    &&& exists|i: int| 0 <= i < targets.len() && #[trigger] targets[i] == Target::Unsupported
    &&& forall|i: int| 0 <= i < targets.len() ==> !is_backend(#[trigger] targets[i])
}

/// The dispatcher.
#[derive(Debug)]
pub struct Dispatcher {
    targets: Vec<Target>,
    outcomes: Vec<ExportOutcome>,
    state: ExportState,
}

impl View for Dispatcher {
    type V = Dispatch;

    closed spec fn view(&self) -> Dispatch {
        Dispatch { targets: self.targets@, outcomes: self.outcomes@, state: self.state }
    }
}

/// Beginning keeps the invariant, keeps what was recorded, and names the first
/// backend that is left.
pub proof fn lemma_begin(targets: Seq<Target>, outcomes: Seq<ExportOutcome>)
    requires
        outcomes.len() <= targets.len(),
        forall|i: int| 0 <= i < outcomes.len() ==> outcome_fits(targets[i], #[trigger] outcomes[i]),
    ensures
        well_formed(begin_from(targets, outcomes).0),
        begin_from(targets, outcomes).0.targets == targets,
        outcomes.is_prefix_of(begin_from(targets, outcomes).0.outcomes),
        begin_from(targets, outcomes).1 == if finished(begin_from(targets, outcomes).0) {
            DispatchAction::Finished
        } else {
            DispatchAction::Connect(
                targets[begin_from(targets, outcomes).0.outcomes.len() as int],
            )
        },
        forall|i: int|
            outcomes.len() <= i < begin_from(targets, outcomes).0.outcomes.len() ==> !is_backend(
                #[trigger] targets[i],
            ),
    decreases targets.len() - outcomes.len(),
{
    if outcomes.len() >= targets.len() {
    } else if is_backend(targets[outcomes.len() as int]) {
    } else {
        let more = outcomes.push(immediate_outcome(targets[outcomes.len() as int]));
        lemma_begin(targets, more);
    }
}

/// Recording the outcome of an attempt that an event has ended keeps every
/// outcome fitting its target.
proof fn lemma_recording_fits(d: Dispatch, event: ExportEvent)
    requires
        well_formed(d),
        !finished(d),
        is_terminal(step_of(d.state, event).0),
    ensures
        d.outcomes.len() < d.targets.len(),
        forall|i: int|
            0 <= i <= d.outcomes.len() ==> outcome_fits(
                d.targets[i],
                #[trigger] d.outcomes.push(outcome_of(step_of(d.state, event).0))[i],
            ),
{
    let more = d.outcomes.push(outcome_of(step_of(d.state, event).0));
    assert forall|i: int| 0 <= i <= d.outcomes.len() implies outcome_fits(
        d.targets[i],
        #[trigger] more[i],
    ) by {
        if i < d.outcomes.len() {
            assert(more[i] == d.outcomes[i]);
        }
    }
}

/// Handling an event keeps the invariant; it keeps the targets and every
/// outcome that was recorded, and records at most the outcome of the attempt
/// that was under way and of names after it that stand for no backend.
pub proof fn lemma_handle(d: Dispatch, event: ExportEvent)
    requires
        well_formed(d),
    ensures
        well_formed(handle_of(d, event).0),
        handle_of(d, event).0.targets == d.targets,
        d.outcomes.is_prefix_of(handle_of(d, event).0.outcomes),
{
    if !finished(d) && is_terminal(step_of(d.state, event).0) {
        lemma_recording_fits(d, event);
        lemma_begin(d.targets, d.outcomes.push(outcome_of(step_of(d.state, event).0)));
    }
}

/// An attempt that ends, in failure as in success, does not end the dispatch:
/// its outcome is recorded for its own target, and the next thing to do is to
/// connect to the next backend that was asked for.
pub proof fn lemma_failure_is_isolated(d: Dispatch, event: ExportEvent, later: int)
    requires
        well_formed(d),
        !finished(d),
        is_terminal(step_of(d.state, event).0),
        d.outcomes.len() < later < d.targets.len(),
        is_backend(d.targets[later]),
        forall|i: int| d.outcomes.len() < i < later ==> !is_backend(#[trigger] d.targets[i]),
    ensures
        handle_of(d, event).0.outcomes[d.outcomes.len() as int] == outcome_of(
            step_of(d.state, event).0,
        ),
        handle_of(d, event).0.outcomes.len() == later,
        handle_of(d, event).1 == DispatchAction::Connect(d.targets[later]),
{
    let more = d.outcomes.push(outcome_of(step_of(d.state, event).0));
    lemma_recording_fits(d, event);
    lemma_begin(d.targets, more);
    let after = begin_from(d.targets, more).0;
    assert(after.outcomes[d.outcomes.len() as int] == more[d.outcomes.len() as int]);
    if after.outcomes.len() > later {
        assert(!is_backend(d.targets[later]));
    }
    if after.outcomes.len() < later && !finished(after) {
        assert(is_backend(d.targets[after.outcomes.len() as int]));
    }
}

/// The attempt with the last backend that was asked for ends the dispatch,
/// in failure as in success: every name has its outcome then.
pub proof fn lemma_last_attempt_finishes(d: Dispatch, event: ExportEvent)
    requires
        well_formed(d),
        !finished(d),
        is_terminal(step_of(d.state, event).0),
        forall|i: int|
            d.outcomes.len() < i < d.targets.len() ==> !is_backend(#[trigger] d.targets[i]),
    ensures
        finished(handle_of(d, event).0),
        handle_of(d, event).0.outcomes.len() == d.targets.len(),
        handle_of(d, event).0.outcomes[d.outcomes.len() as int] == outcome_of(
            step_of(d.state, event).0,
        ),
        handle_of(d, event).1 == DispatchAction::Finished,
{
    let more = d.outcomes.push(outcome_of(step_of(d.state, event).0));
    lemma_recording_fits(d, event);
    lemma_begin(d.targets, more);
    let after = begin_from(d.targets, more).0;
    assert(after.outcomes[d.outcomes.len() as int] == more[d.outcomes.len() as int]);
    if !finished(after) {
        assert(is_backend(d.targets[after.outcomes.len() as int]));
    }
}

/// When the dispatcher is finished, every requested name has exactly one
/// outcome, and that outcome fits what the name stands for.
pub proof fn lemma_finished_reports_all(d: Dispatch)
    requires
        well_formed(d),
        finished(d),
    ensures
        d.outcomes.len() == d.targets.len(),
        forall|i: int|
            0 <= i < d.targets.len() ==> outcome_fits(#[trigger] d.targets[i], d.outcomes[i]),
{
}

impl Dispatcher {
    #[verifier::type_invariant]
    spec fn valid(self) -> bool {
        well_formed(self@)
    }

    fn begin(targets: Vec<Target>, recorded: Vec<ExportOutcome>) -> (r: (Dispatcher, DispatchAction))
        requires
            recorded@.len() <= targets@.len(),
            forall|i: int|
                0 <= i < recorded@.len() ==> outcome_fits(targets@[i], #[trigger] recorded@[i]),
        ensures
            r.0@ == begin_from(targets@, recorded@).0,
            r.1 == begin_from(targets@, recorded@).1,
    {
        let ghost start = recorded@;
        let mut outcomes = recorded;
        while outcomes.len() < targets.len()
            invariant
                start == recorded@,
                outcomes@.len() <= targets@.len(),
                forall|i: int|
                    0 <= i < outcomes@.len() ==> outcome_fits(targets@[i], #[trigger] outcomes@[i]),
                begin_from(targets@, outcomes@) == begin_from(targets@, start),
            decreases targets@.len() - outcomes@.len(),
        {
            let target = targets[outcomes.len()];
            match target {
                Target::Local | Target::RemoteDaemon => {
                    let dispatcher = Dispatcher {
                        targets,
                        outcomes,
                        state: ExportState::Connecting,
                    };
                    assert(dispatcher@ =~= begin_from(dispatcher@.targets, start).0);
                    return (dispatcher, DispatchAction::Connect(target));
                },
                Target::Unsupported => {
                    outcomes.push(
                        ExportOutcome::Failed(
                            ExportFailure { error: ExportError::UnsupportedBackend, detail: None },
                        ),
                    );
                },
                Target::Nothing => {
                    outcomes.push(ExportOutcome::Skipped);
                },
            }
        }
        let dispatcher = Dispatcher { targets, outcomes, state: ExportState::Idle };
        assert(dispatcher@ =~= begin_from(dispatcher@.targets, start).0);
        (dispatcher, DispatchAction::Finished)
    }

    /// A dispatcher for the requested names, and the first thing to do.
    pub fn new(names: &Vec<String>) -> (r: (Dispatcher, DispatchAction))
        ensures
            well_formed(r.0@),
            r.0@ == begin_from(targets_of(names@), Seq::<ExportOutcome>::empty()).0,
            r.1 == begin_from(targets_of(names@), Seq::<ExportOutcome>::empty()).1,
    {
        let mut targets: Vec<Target> = Vec::new();
        let mut i: usize = 0;
        while i < names.len()
            invariant
                0 <= i <= names@.len(),
                targets@.len() == i,
                forall|k: int| 0 <= k < i ==> #[trigger] targets@[k] == target_of(names@[k]@),
            decreases names@.len() - i,
        {
            targets.push(resolve_target(names[i].as_str()));
            i = i + 1;
        }
        assert(targets@ =~= targets_of(names@));
        proof {
            lemma_begin(targets@, Seq::<ExportOutcome>::empty());
        }
        Dispatcher::begin(targets, Vec::new())
    }

    /// Takes in what the caller reports, and says what to do next.
    pub fn handle(self, event: ExportEvent) -> (r: (Dispatcher, DispatchAction))
        ensures
            well_formed(r.0@),
            r.0@ == handle_of(self@, event).0,
            r.1 == handle_of(self@, event).1,
    {
        proof {
            use_type_invariant(&self);
            lemma_handle(self@, event);
        }
        let Dispatcher { targets, outcomes, state } = self;
        if let ExportState::Idle = state {
            let dispatcher = Dispatcher { targets, outcomes, state };
            assert(dispatcher@ =~= self@);
            return (dispatcher, DispatchAction::Finished);
        }
        let target = targets[outcomes.len()];
        let (next, action) = step(state, event);
        let mut outcomes = outcomes;
        match next {
            ExportState::Completed => {
                outcomes.push(ExportOutcome::Completed);
                Dispatcher::begin(targets, outcomes)
            },
            ExportState::Failed(failure) => {
                outcomes.push(ExportOutcome::Failed(failure));
                Dispatcher::begin(targets, outcomes)
            },
            _ => {
                let dispatcher = Dispatcher { targets, outcomes, state: next };
                assert(dispatcher@ =~= handle_of(self@, event).0);
                let next_action = match action {
                    ExportAction::Send => DispatchAction::Send(target),
                    ExportAction::Receive => DispatchAction::Receive(target),
                    _ => DispatchAction::Ignore,
                };
                (dispatcher, next_action)
            },
        }
    }

    /// Whether every requested name has its outcome.
    pub fn is_finished(&self) -> (done: bool)
        ensures
            done == finished(self@),
    {
        match self.state {
            ExportState::Idle => true,
            _ => false,
        }
    }

    /// The outcomes that were recorded so far, in the order of the request.
    pub fn outcomes(&self) -> (outcomes: &Vec<ExportOutcome>)
        ensures
            outcomes@ == self@.outcomes,
    {
        &self.outcomes
    }

    /// What the requested names stand for, in the order of the request.
    pub fn targets(&self) -> (targets: &Vec<Target>)
        ensures
            targets@ == self@.targets,
    {
        &self.targets
    }

    /// Whether the request cannot be served at all: a backend was named, and
    /// none of the names stands for one.
    pub fn has_nothing_to_attempt(&self) -> (nothing: bool)
        ensures
            nothing == nothing_to_attempt(self@.targets),
    {
        let mut unsupported = false;
        let mut i: usize = 0;
        while i < self.targets.len()
            invariant
                0 <= i <= self.targets@.len(),
                unsupported == exists|k: int|
                    0 <= k < i && #[trigger] self.targets@[k] == Target::Unsupported,
                forall|k: int| 0 <= k < i ==> !is_backend(#[trigger] self.targets@[k]),
            decreases self.targets@.len() - i,
        {
            match self.targets[i] {
                Target::Local | Target::RemoteDaemon => {
                    return false;
                },
                Target::Unsupported => {
                    unsupported = true;
                },
                Target::Nothing => {},
            }
            i = i + 1;
        }
        unsupported
    }
}

} // verus!
