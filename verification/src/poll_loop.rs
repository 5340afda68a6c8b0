//! The polling loop as a state machine.
//!
//! The loop itself does nothing to the outside world. It is told what
//! happened ([`Event`]) and answers with what to do next ([`Action`]); the
//! program around it fetches, sends and sleeps. One cycle is: fetch, compare
//! with the accepted snapshot, notify if they differ, pause if a dependency
//! failed too often, rest, and start over.

use crate::error::{FetchError, NotifyError};
use crate::report::{diff, diff_message, full_report, previous_view};
use crate::snapshot::{NetworkStatusView, StatusSnapshot};
use vstd::prelude::*;

verus! {

/// Consecutive failures of one dependency that bring on a backoff.
pub const MAX_RETRY: u32 = 5;

/// Seconds of rest between two cycles.
pub const REFRESH_INTERVAL_SECS: u64 = 60;

/// Seconds of pause once a dependency has failed [`MAX_RETRY`] times in a row.
pub const BACKOFF_SECS: u64 = 3600;

/// Seconds that a change notification may take.
pub const SEND_TIMEOUT_SECS: u64 = 8;

/// The states of the loop.
#[derive(Clone, Copy, Debug, PartialEq, Eq, Structural)]
pub enum LoopState {
    /// The first fetch and the first report of a run are under way.
    Starting,
    /// The steady cycle.
    Polling,
    /// Pausing because the exchange failed too often.
    BackoffSource,
    /// Pausing because the messaging service failed too often.
    BackoffSink,
    /// The first fetch or the first report failed; the run is over.
    Terminated,
}

/// The two outside dependencies.
#[derive(Clone, Copy, Debug, PartialEq, Eq, Structural)]
pub enum Dependency {
    /// The exchange, from which snapshots come.
    Source,
    /// The messaging service, to which notifications go.
    Sink,
}

/// The warning that goes to the operator's log when a pause for `target`
/// begins.
pub open spec fn backoff_warning_text(target: Dependency) -> Seq<char> {
    match target {
        Dependency::Source => "Too much errors binance api, waiting 1 hour"@,
        Dependency::Sink => "Too much errors telegram api, waiting 1 hour"@,
    }
}

impl Dependency {
    /// The warning for the operator's log when a pause for this dependency
    /// begins.
    pub fn backoff_warning(&self) -> (text: &'static str)
        ensures
            text@ == backoff_warning_text(*self),
    {
        match self {
            Dependency::Source => "Too much errors binance api, waiting 1 hour",
            Dependency::Sink => "Too much errors telegram api, waiting 1 hour",
        }
    }
}

/// Why a run ended before it reached the steady cycle.
#[derive(Clone, Copy, Debug, PartialEq, Eq, Structural)]
pub enum StartupFailure {
    /// The first fetch failed.
    Fetch(FetchError),
    /// The first report was not delivered.
    Send(NotifyError),
}

/// Where the loop stands, with what it holds on to meanwhile.
pub enum PhaseView {
    /// Starting: the first snapshot has been asked for.
    FirstFetch,
    /// Starting: the first report, on `candidate`, is on its way.
    FirstSend { candidate: Seq<NetworkStatusView>, message: Seq<char> },
    /// Polling: a snapshot has been asked for.
    Fetching,
    /// Polling: the notification `message`, on `candidate`, is on its way.
    Sending { candidate: Seq<NetworkStatusView>, message: Seq<char> },
    /// Polling: resting until the next cycle.
    Resting,
    /// Pausing for the exchange.
    BackoffSource,
    /// Pausing for the messaging service.
    BackoffSink,
    /// The run is over.
    Terminated { failure: StartupFailure },
}

/// Mathematical value of a [`PollLoop`].
pub struct PollLoopView {
    pub phase: PhaseView,
    /// The snapshot that subscribers were last told about.
    pub accepted: Option<Seq<NetworkStatusView>>,
    /// Fetches that failed in a row.
    pub source_failures: nat,
    /// Notifications that failed in a row.
    pub sink_failures: nat,
}

/// Mathematical value of an [`Event`].
pub enum EventView {
    /// A fetch has ended, with a snapshot or with an error.
    Fetched(Result<Seq<NetworkStatusView>, FetchError>),
    /// A send has ended, delivered or not.
    Sent(Result<(), NotifyError>),
    /// A sleep or a backoff is over.
    Elapsed,
}

/// Mathematical value of an [`Action`].
pub enum ActionView {
    /// Fetch the asset status.
    Fetch,
    /// Send `message`, within `timeout_secs` seconds where a limit is given.
    Send { message: Seq<char>, timeout_secs: Option<u64> },
    /// Sleep for `secs` seconds.
    Sleep { secs: u64 },
    /// Pause for `secs` seconds and set up the client of `target` anew.
    Backoff { target: Dependency, secs: u64 },
    /// End the process with an error.
    Exit { failure: StartupFailure },
}

/// The state that a phase belongs to.
pub open spec fn state_of(phase: PhaseView) -> LoopState {
    match phase {
        PhaseView::FirstFetch => LoopState::Starting,
        PhaseView::FirstSend { .. } => LoopState::Starting,
        PhaseView::Fetching => LoopState::Polling,
        PhaseView::Sending { .. } => LoopState::Polling,
        PhaseView::Resting => LoopState::Polling,
        PhaseView::BackoffSource => LoopState::BackoffSource,
        PhaseView::BackoffSink => LoopState::BackoffSink,
        PhaseView::Terminated { .. } => LoopState::Terminated,
    }
}

/// The loop at the start of a run.
pub open spec fn initial_loop() -> PollLoopView {
    PollLoopView {
        phase: PhaseView::FirstFetch,
        accepted: None,
        source_failures: 0,
        sink_failures: 0,
    }
}

/// What the loop is waiting for the program to do.
pub open spec fn awaited_action(current: PollLoopView) -> ActionView {
    match current.phase {
        PhaseView::FirstFetch => ActionView::Fetch,
        PhaseView::FirstSend { message, .. } => ActionView::Send { message, timeout_secs: None },
        PhaseView::Fetching => ActionView::Fetch,
        PhaseView::Sending { message, .. } => ActionView::Send {
            message,
            timeout_secs: Some(SEND_TIMEOUT_SECS),
        },
        PhaseView::Resting => ActionView::Sleep { secs: REFRESH_INTERVAL_SECS },
        PhaseView::BackoffSource => ActionView::Backoff {
            target: Dependency::Source,
            secs: BACKOFF_SECS,
        },
        PhaseView::BackoffSink => ActionView::Backoff {
            target: Dependency::Sink,
            secs: BACKOFF_SECS,
        },
        PhaseView::Terminated { failure } => ActionView::Exit { failure },
    }
}

/// The end of a cycle's work: pause for the exchange if it failed too often,
/// else for the messaging service if that did, else rest.
pub open spec fn settle(
    accepted: Option<Seq<NetworkStatusView>>,
    source_failures: nat,
    sink_failures: nat,
) -> PollLoopView {
    let phase = if source_failures >= MAX_RETRY {
        PhaseView::BackoffSource
    } else if sink_failures >= MAX_RETRY {
        PhaseView::BackoffSink
    } else {
        PhaseView::Resting
    };
    PollLoopView { phase, accepted, source_failures, sink_failures }
}

/// The loop after `event`.
///
/// An event that the current phase is not waiting for changes nothing.
pub open spec fn next_loop(current: PollLoopView, event: EventView) -> PollLoopView {
    match (current.phase, event) {
        (PhaseView::FirstFetch, EventView::Fetched(Ok(fresh))) => PollLoopView {
            phase: PhaseView::FirstSend { candidate: fresh, message: full_report(fresh) },
            ..current
        },
        (PhaseView::FirstFetch, EventView::Fetched(Err(error))) => PollLoopView {
            phase: PhaseView::Terminated { failure: StartupFailure::Fetch(error) },
            ..current
        },
        (PhaseView::FirstSend { candidate, .. }, EventView::Sent(Ok(_))) => PollLoopView {
            phase: PhaseView::Fetching,
            accepted: Some(candidate),
            ..current
        },
        (PhaseView::FirstSend { .. }, EventView::Sent(Err(error))) => PollLoopView {
            phase: PhaseView::Terminated { failure: StartupFailure::Send(error) },
            ..current
        },
        (PhaseView::Fetching, EventView::Fetched(Ok(fresh))) => match diff_message(
            current.accepted,
            fresh,
        ) {
            Some(message) => PollLoopView {
                phase: PhaseView::Sending { candidate: fresh, message },
                source_failures: 0,
                ..current
            },
            None => settle(current.accepted, 0, current.sink_failures),
        },
        (PhaseView::Fetching, EventView::Fetched(Err(_))) => settle(
            current.accepted,
            current.source_failures + 1,
            current.sink_failures,
        ),
        (PhaseView::Sending { candidate, .. }, EventView::Sent(Ok(_))) => settle(
            Some(candidate),
            current.source_failures,
            0,
        ),
        (PhaseView::Sending { .. }, EventView::Sent(Err(_))) => settle(
            current.accepted,
            current.source_failures,
            current.sink_failures + 1,
        ),
        (PhaseView::BackoffSource, EventView::Elapsed) => PollLoopView {
            phase: if current.sink_failures >= MAX_RETRY {
                PhaseView::BackoffSink
            } else {
                PhaseView::Resting
            },
            source_failures: 0,
            ..current
        },
        (PhaseView::BackoffSink, EventView::Elapsed) => PollLoopView {
            phase: PhaseView::Resting,
            sink_failures: 0,
            ..current
        },
        (PhaseView::Resting, EventView::Elapsed) => PollLoopView {
            phase: PhaseView::Fetching,
            ..current
        },
        _ => current,
    }
}

/// The loop after `event`, and what it then waits for.
pub open spec fn step_of(current: PollLoopView, event: EventView) -> (PollLoopView, ActionView) {
    let next = next_loop(current, event);
    (next, awaited_action(next))
}

impl PollLoopView {
    /// The states that a run can be in.
    ///
    /// Until the first report is delivered nothing is accepted and nothing
    /// has failed. From then on a snapshot is always accepted. A counter
    /// stands at [`MAX_RETRY`] exactly while the loop pauses for its
    /// dependency, and below it otherwise. The first message of a run is the
    /// full report on its candidate; a later message on its way is the one
    /// that comparing its candidate with the accepted snapshot calls for.
    pub open spec fn wf(self) -> bool {
        match self.phase {
            PhaseView::FirstFetch => {
                &&& self.accepted is None
                &&& self.source_failures == 0
                &&& self.sink_failures == 0
            },
            PhaseView::FirstSend { candidate, message } => {
                &&& self.accepted is None
                &&& self.source_failures == 0
                &&& self.sink_failures == 0
                &&& message == full_report(candidate)
            },
            PhaseView::Fetching => {
                &&& self.accepted is Some
                &&& self.source_failures < MAX_RETRY
                &&& self.sink_failures < MAX_RETRY
            },
            PhaseView::Sending { candidate, message } => {
                &&& self.accepted is Some
                &&& self.source_failures == 0
                &&& self.sink_failures < MAX_RETRY
                &&& diff_message(self.accepted, candidate) == Some(message)
            },
            PhaseView::Resting => {
                &&& self.accepted is Some
                &&& self.source_failures < MAX_RETRY
                &&& self.sink_failures < MAX_RETRY
            },
            PhaseView::BackoffSource => {
                &&& self.accepted is Some
                &&& self.source_failures == MAX_RETRY
                &&& self.sink_failures < MAX_RETRY
            },
            PhaseView::BackoffSink => {
                &&& self.accepted is Some
                &&& self.source_failures < MAX_RETRY
                &&& self.sink_failures == MAX_RETRY
            },
            PhaseView::Terminated { .. } => {
                &&& self.accepted is None
                &&& self.source_failures == 0
                &&& self.sink_failures == 0
            },
        }
    }
}

/// What happened since the loop last said what to do.
#[derive(Debug)]
pub enum Event {
    /// The fetch that was asked for has ended.
    Fetched(Result<StatusSnapshot, FetchError>),
    /// The send that was asked for has ended.
    Sent(Result<(), NotifyError>),
    /// The sleep or the backoff that was asked for is over.
    Elapsed,
}

/// What the program is to do next. Its outcome comes back as an [`Event`].
#[derive(Debug, PartialEq, Eq)]
pub enum Action {
    /// Fetch the asset status; answer with [`Event::Fetched`].
    Fetch,
    /// Send `message`, closed with its time line, and wait for the
    /// acknowledgment, at most `timeout_secs` seconds where a limit is given;
    /// answer with [`Event::Sent`].
    Send { message: String, timeout_secs: Option<u64> },
    /// Sleep for `secs` seconds; answer with [`Event::Elapsed`].
    Sleep { secs: u64 },
    /// Warn the operator, sleep for `secs` seconds and set up the client of
    /// `target` anew; answer with [`Event::Elapsed`].
    Backoff { target: Dependency, secs: u64 },
    /// End the process with an error.
    Exit { failure: StartupFailure },
}

/// The value of the outcome of a fetch.
pub open spec fn fetched_view(outcome: Result<StatusSnapshot, FetchError>) -> Result<
    Seq<NetworkStatusView>,
    FetchError,
> {
    match outcome {
        Ok(snapshot) => Ok(snapshot@),
        Err(error) => Err(error),
    }
}

impl View for Event {
    type V = EventView;

    open spec fn view(&self) -> EventView {
        match *self {
            Event::Fetched(outcome) => EventView::Fetched(fetched_view(outcome)),
            Event::Sent(outcome) => EventView::Sent(outcome),
            Event::Elapsed => EventView::Elapsed,
        }
    }
}

impl View for Action {
    type V = ActionView;

    open spec fn view(&self) -> ActionView {
        match *self {
            Action::Fetch => ActionView::Fetch,
            Action::Send { message, timeout_secs } => ActionView::Send {
                message: message@,
                timeout_secs,
            },
            Action::Sleep { secs } => ActionView::Sleep { secs },
            Action::Backoff { target, secs } => ActionView::Backoff { target, secs },
            Action::Exit { failure } => ActionView::Exit { failure },
        }
    }
}

/// Where the loop stands, with what it holds on to meanwhile.
#[derive(Debug)]
enum Phase {
    FirstFetch,
    FirstSend { candidate: StatusSnapshot, message: String },
    Fetching,
    Sending { candidate: StatusSnapshot, message: String },
    Resting,
    BackoffSource,
    BackoffSink,
    Terminated { failure: StartupFailure },
}

impl View for Phase {
    type V = PhaseView;

    closed spec fn view(&self) -> PhaseView {
        match *self {
            Phase::FirstFetch => PhaseView::FirstFetch,
            Phase::FirstSend { candidate, message } => PhaseView::FirstSend {
                candidate: candidate@,
                message: message@,
            },
            Phase::Fetching => PhaseView::Fetching,
            Phase::Sending { candidate, message } => PhaseView::Sending {
                candidate: candidate@,
                message: message@,
            },
            Phase::Resting => PhaseView::Resting,
            Phase::BackoffSource => PhaseView::BackoffSource,
            Phase::BackoffSink => PhaseView::BackoffSink,
            Phase::Terminated { failure } => PhaseView::Terminated { failure },
        }
    }
}

/// The value of an optional owned snapshot.
pub open spec fn accepted_view(accepted: Option<StatusSnapshot>) -> Option<
    Seq<NetworkStatusView>,
> {
    match accepted {
        Some(snapshot) => Some(snapshot@),
        None => None,
    }
}

/// The polling loop: the accepted snapshot, the two failure counters, and the
/// place in the cycle.
#[derive(Debug)]
pub struct PollLoop {
    phase: Phase,
    accepted: Option<StatusSnapshot>,
    source_failures: u32,
    sink_failures: u32,
}

impl View for PollLoop {
    type V = PollLoopView;

    closed spec fn view(&self) -> PollLoopView {
        PollLoopView {
            phase: self.phase@,
            accepted: accepted_view(self.accepted),
            source_failures: self.source_failures as nat,
            sink_failures: self.sink_failures as nat,
        }
    }
}

impl PollLoop {
    #[verifier::type_invariant]
    spec fn is_well_formed(self) -> bool {
        self@.wf()
    }

    /// The loop at the start of a run. It waits for the first fetch.
    pub fn new() -> (fresh: PollLoop)
        ensures
            fresh@ == initial_loop(),
            fresh@.wf(),
    {
        PollLoop { phase: Phase::FirstFetch, accepted: None, source_failures: 0, sink_failures: 0 }
    }

    /// The state the loop is in.
    pub fn state(&self) -> (state: LoopState)
        ensures
            state == state_of(self@.phase),
            self@.wf(),
    {
        proof {
            use_type_invariant(self);
        }
        match &self.phase {
            Phase::FirstFetch => LoopState::Starting,
            Phase::FirstSend { .. } => LoopState::Starting,
            Phase::Fetching => LoopState::Polling,
            Phase::Sending { .. } => LoopState::Polling,
            Phase::Resting => LoopState::Polling,
            Phase::BackoffSource => LoopState::BackoffSource,
            Phase::BackoffSink => LoopState::BackoffSink,
            Phase::Terminated { .. } => LoopState::Terminated,
        }
    }

    /// The snapshot that subscribers were last told about.
    pub fn accepted(&self) -> (accepted: Option<&StatusSnapshot>)
        ensures
            previous_view(accepted) == self@.accepted,
    {
        self.accepted.as_ref()
    }

    /// How many fetches have failed in a row.
    pub fn source_failure_count(&self) -> (count: u32)
        ensures
            count == self@.source_failures,
            count <= MAX_RETRY,
    {
        proof {
            use_type_invariant(self);
        }
        self.source_failures
    }

    /// How many notifications have failed in a row.
    pub fn sink_failure_count(&self) -> (count: u32)
        ensures
            count == self@.sink_failures,
            count <= MAX_RETRY,
    {
        proof {
            use_type_invariant(self);
        }
        self.sink_failures
    }

    /// What the loop is waiting for the program to do.
    pub fn pending_action(&self) -> (action: Action)
        ensures
            action@ == awaited_action(self@),
    {
        match &self.phase {
            Phase::FirstFetch => Action::Fetch,
            Phase::FirstSend { message, .. } => Action::Send {
                message: message.clone(),
                timeout_secs: None,
            },
            Phase::Fetching => Action::Fetch,
            Phase::Sending { message, .. } => Action::Send {
                message: message.clone(),
                timeout_secs: Some(SEND_TIMEOUT_SECS),
            },
            Phase::Resting => Action::Sleep { secs: REFRESH_INTERVAL_SECS },
            Phase::BackoffSource => Action::Backoff {
                target: Dependency::Source,
                secs: BACKOFF_SECS,
            },
            Phase::BackoffSink => Action::Backoff { target: Dependency::Sink, secs: BACKOFF_SECS },
            Phase::Terminated { failure } => Action::Exit { failure: *failure },
        }
    }

    /// Ends a cycle's work: decides between the two pauses and the rest.
    fn settled(accepted: StatusSnapshot, source_failures: u32, sink_failures: u32) -> (next:
        PollLoop)
        requires
            source_failures <= MAX_RETRY,
            sink_failures <= MAX_RETRY,
            source_failures < MAX_RETRY || sink_failures < MAX_RETRY,
        ensures
            next@ == settle(Some(accepted@), source_failures as nat, sink_failures as nat),
    {
        let phase = if source_failures >= MAX_RETRY {
            Phase::BackoffSource
        } else if sink_failures >= MAX_RETRY {
            Phase::BackoffSink
        } else {
            Phase::Resting
        };
        PollLoop { phase, accepted: Some(accepted), source_failures, sink_failures }
    }

    /// Takes in what happened and says what to do next.
    ///
    /// The new loop is [`next_loop`] of the old one, and the action is what the
    /// new loop waits for.
    pub fn step(self, event: Event) -> (next: (PollLoop, Action))
        ensures
            (next.0@, next.1@) == step_of(self@, event@),
            self@.wf(),
            next.0@.wf(),
    {
        proof {
            use_type_invariant(&self);
        }
        let PollLoop { phase, accepted, source_failures, sink_failures } = self;
        let after = match (phase, accepted, event) {
            (Phase::FirstFetch, accepted, Event::Fetched(Ok(fresh))) => {
                let message = fresh.status();
                PollLoop {
                    phase: Phase::FirstSend { candidate: fresh, message },
                    accepted,
                    source_failures,
                    sink_failures,
                }
            },
            (Phase::FirstFetch, accepted, Event::Fetched(Err(error))) => PollLoop {
                phase: Phase::Terminated { failure: StartupFailure::Fetch(error) },
                accepted,
                source_failures,
                sink_failures,
            },
            (Phase::FirstSend { candidate, message }, _, Event::Sent(Ok(_))) => PollLoop {
                phase: Phase::Fetching,
                accepted: Some(candidate),
                source_failures,
                sink_failures,
            },
            (Phase::FirstSend { candidate, message }, accepted, Event::Sent(Err(error))) => PollLoop {
                phase: Phase::Terminated { failure: StartupFailure::Send(error) },
                accepted,
                source_failures,
                sink_failures,
            },
            (Phase::Fetching, Some(baseline), Event::Fetched(Ok(fresh))) => {
                match diff(Some(&baseline), &fresh) {
                    Some(message) => PollLoop {
                        phase: Phase::Sending { candidate: fresh, message },
                        accepted: Some(baseline),
                        source_failures: 0,
                        sink_failures,
                    },
                    None => PollLoop::settled(baseline, 0, sink_failures),
                }
            },
            (Phase::Fetching, Some(baseline), Event::Fetched(Err(_))) => PollLoop::settled(
                baseline,
                source_failures + 1,
                sink_failures,
            ),
            (Phase::Sending { candidate, message }, _, Event::Sent(Ok(_))) => PollLoop::settled(
                candidate,
                source_failures,
                0,
            ),
            (Phase::Sending { candidate, message }, Some(baseline), Event::Sent(Err(_))) => {
                PollLoop::settled(baseline, source_failures, sink_failures + 1)
            },
            (Phase::BackoffSource, accepted, Event::Elapsed) => PollLoop {
                phase: if sink_failures >= MAX_RETRY {
                    Phase::BackoffSink
                } else {
                    Phase::Resting
                },
                accepted,
                source_failures: 0,
                sink_failures,
            },
            (Phase::BackoffSink, accepted, Event::Elapsed) => PollLoop {
                phase: Phase::Resting,
                accepted,
                source_failures,
                sink_failures: 0,
            },
            (Phase::Resting, accepted, Event::Elapsed) => PollLoop {
                phase: Phase::Fetching,
                accepted,
                source_failures,
                sink_failures,
            },
            (phase, accepted, _) => PollLoop { phase, accepted, source_failures, sink_failures },
        };
        let action = after.pending_action();
        (after, action)
    }
}

/// How many pauses are still ahead before the next fetch.
pub open spec fn pauses_ahead(phase: PhaseView) -> nat {
    match phase {
        PhaseView::BackoffSource => 3,
        PhaseView::BackoffSink => 2,
        PhaseView::Resting => 1,
        _ => 0,
    }
}

/// The loop once every pause that it has asked for is over: at the start of
/// the next cycle, if it was pausing or resting, and as it is otherwise.
pub open spec fn resumed(current: PollLoopView) -> PollLoopView
    decreases pauses_ahead(current.phase),
{
    if pauses_ahead(current.phase) == 0 {
        current
    } else {
        resumed(next_loop(current, EventView::Elapsed))
    }
}

/// The loop after one cycle per element of `errors`, each of which ends in a
/// failed fetch. The pauses between the cycles are over; the pause after the
/// last failure is still ahead.
pub open spec fn after_failed_fetches(current: PollLoopView, errors: Seq<FetchError>) -> PollLoopView
    decreases errors.len(),
{
    if errors.len() == 0 {
        current
    } else {
        next_loop(
            resumed(after_failed_fetches(current, errors.drop_last())),
            EventView::Fetched(Err(errors.last())),
        )
    }
}

/// Every step leads from a state that a run can be in to another such state.
pub proof fn lemma_step_keeps_well_formed(current: PollLoopView, event: EventView)
    requires
        current.wf(),
    ensures
        next_loop(current, event).wf(),
{
}

/// A run starts in a state that it can be in, waiting for its first fetch.
pub proof fn lemma_initial_loop_is_well_formed()
    ensures
        initial_loop().wf(),
        awaited_action(initial_loop()) == ActionView::Fetch,
{
}

/// The accepted snapshot changes on a delivered notification and on nothing
/// else, and then it becomes the snapshot that the notification was about.
pub proof fn lemma_accepted_moves_only_on_delivery(current: PollLoopView, event: EventView)
    requires
        current.wf(),
    ensures
        next_loop(current, event).accepted == match (current.phase, event) {
            (PhaseView::FirstSend { candidate, .. }, EventView::Sent(Ok(_))) => Some(candidate),
            (PhaseView::Sending { candidate, .. }, EventView::Sent(Ok(_))) => Some(candidate),
            _ => current.accepted,
        },
{
}

/// Only a failure of the first fetch or of the first report ends a run. Once
/// the steady cycle is reached no event ends it.
pub proof fn lemma_only_startup_can_end_the_run(current: PollLoopView, event: EventView)
    requires
        current.wf(),
        !(current.phase is Terminated),
        next_loop(current, event).phase is Terminated,
    ensures
        state_of(current.phase) == LoopState::Starting,
        match event {
            EventView::Fetched(Err(error)) => {
                &&& current.phase is FirstFetch
                &&& next_loop(current, event).phase == (PhaseView::Terminated {
                    failure: StartupFailure::Fetch(error),
                })
            },
            EventView::Sent(Err(error)) => {
                &&& current.phase is FirstSend
                &&& next_loop(current, event).phase == (PhaseView::Terminated {
                    failure: StartupFailure::Send(error),
                })
            },
            _ => false,
        },
{
}

/// Subscribers hear of changes only. A step puts a message on its way in two
/// cases: the first snapshot of a run has arrived, or the steady cycle has
/// fetched a snapshot that differs from the accepted one. The message is then
/// the one that the comparison calls for, and a failed fetch or a failed send
/// never makes one.
pub proof fn lemma_messages_are_for_changes_only(current: PollLoopView, event: EventView)
    requires
        current.wf(),
        next_loop(current, event) != current,
        awaited_action(next_loop(current, event)) is Send,
    ensures
        event matches EventView::Fetched(Ok(fresh)) && {
            &&& current.phase is FirstFetch || current.phase is Fetching
            &&& current.accepted != Some(fresh)
            &&& diff_message(current.accepted, fresh) == Some(
                awaited_action(next_loop(current, event))->Send_message,
            )
        },
{
}

/// A notification that fails leaves the accepted snapshot as it was, and the
/// next cycle compares against that same snapshot: whatever is fetched then,
/// the loop asks for exactly the message that the comparison with the old
/// accepted snapshot calls for, or rests if it calls for none.
pub proof fn lemma_failed_send_is_retried_against_same_baseline(
    current: PollLoopView,
    error: NotifyError,
    fresh: Seq<NetworkStatusView>,
)
    requires
        current.wf(),
        current.phase is Sending,
    ensures
        next_loop(current, EventView::Sent(Err(error))).accepted == current.accepted,
        resumed(next_loop(current, EventView::Sent(Err(error)))).phase == PhaseView::Fetching,
        resumed(next_loop(current, EventView::Sent(Err(error)))).accepted == current.accepted,
        step_of(
            resumed(next_loop(current, EventView::Sent(Err(error)))),
            EventView::Fetched(Ok(fresh)),
        ).1 == match diff_message(current.accepted, fresh) {
            Some(message) => ActionView::Send { message, timeout_secs: Some(SEND_TIMEOUT_SECS) },
            None => ActionView::Sleep { secs: REFRESH_INTERVAL_SECS },
        },
{
    lemma_resumed_is_fetching(next_loop(current, EventView::Sent(Err(error))));
}

/// Once its pauses are over, a loop in the steady cycle is about to fetch,
/// with the accepted snapshot it had, and a counter that reached
/// [`MAX_RETRY`] is back at zero while the other is as it was.
pub proof fn lemma_resumed_is_fetching(current: PollLoopView)
    requires
        current.wf(),
        pauses_ahead(current.phase) > 0,
    ensures
        resumed(current).wf(),
        resumed(current).phase == PhaseView::Fetching,
        resumed(current).accepted == current.accepted,
        resumed(current).source_failures == if current.phase is BackoffSource {
            0
        } else {
            current.source_failures
        },
        resumed(current).sink_failures == if current.phase is BackoffSink {
            0
        } else {
            current.sink_failures
        },
    decreases pauses_ahead(current.phase),
{
    let next = next_loop(current, EventView::Elapsed);
    lemma_step_keeps_well_formed(current, EventView::Elapsed);
    if pauses_ahead(next.phase) > 0 {
        lemma_resumed_is_fetching(next);
    }
}

/// A failed notification is counted, and the count alone decides what
/// follows: below [`MAX_RETRY`] the loop rests and tries again next cycle; at
/// [`MAX_RETRY`] it pauses for [`BACKOFF_SECS`] and starts the next cycle with
/// the count at zero. The count of failed fetches is untouched.
pub proof fn lemma_failed_send_is_counted(current: PollLoopView, error: NotifyError)
    requires
        current.wf(),
        current.phase is Sending,
    ensures
        next_loop(current, EventView::Sent(Err(error))).sink_failures == current.sink_failures
            + 1,
        next_loop(current, EventView::Sent(Err(error))).source_failures
            == current.source_failures,
        current.sink_failures + 1 < MAX_RETRY ==> awaited_action(
            next_loop(current, EventView::Sent(Err(error))),
        ) == (ActionView::Sleep { secs: REFRESH_INTERVAL_SECS }),
        current.sink_failures + 1 == MAX_RETRY ==> {
            &&& state_of(next_loop(current, EventView::Sent(Err(error))).phase)
                == LoopState::BackoffSink
            &&& awaited_action(next_loop(current, EventView::Sent(Err(error))))
                == (ActionView::Backoff { target: Dependency::Sink, secs: BACKOFF_SECS })
            &&& resumed(next_loop(current, EventView::Sent(Err(error)))).sink_failures == 0
        },
{
    lemma_resumed_is_fetching(next_loop(current, EventView::Sent(Err(error))));
}

/// A fetch that succeeds clears the count of failed fetches, and a
/// notification that is delivered clears the count of failed notifications.
pub proof fn lemma_success_clears_the_count(current: PollLoopView, event: EventView)
    requires
        current.wf(),
    ensures
        current.phase is Fetching && event is Fetched && event->Fetched_0 is Ok ==> next_loop(
            current,
            event,
        ).source_failures == 0,
        current.phase is Sending && event is Sent && event->Sent_0 is Ok ==> next_loop(
            current,
            event,
        ).sink_failures == 0,
{
}

/// Fetch failures in a row are counted one by one, and the count alone
/// decides what follows: below [`MAX_RETRY`] the loop rests for
/// [`REFRESH_INTERVAL_SECS`] and tries again; at [`MAX_RETRY`] it pauses for
/// [`BACKOFF_SECS`], a full hour, and starts the next cycle with the count at
/// zero. The accepted snapshot and the other counter are untouched.
pub proof fn lemma_backoff_after_repeated_fetch_failures(
    current: PollLoopView,
    errors: Seq<FetchError>,
)
    requires
        current.wf(),
        current.phase is Fetching,
        0 < errors.len(),
        current.source_failures + errors.len() <= MAX_RETRY,
    ensures
        after_failed_fetches(current, errors).wf(),
        after_failed_fetches(current, errors).accepted == current.accepted,
        after_failed_fetches(current, errors).sink_failures == current.sink_failures,
        after_failed_fetches(current, errors).source_failures == current.source_failures
            + errors.len(),
        current.source_failures + errors.len() < MAX_RETRY ==> awaited_action(
            after_failed_fetches(current, errors),
        ) == (ActionView::Sleep { secs: REFRESH_INTERVAL_SECS }),
        current.source_failures + errors.len() == MAX_RETRY ==> {
            &&& state_of(after_failed_fetches(current, errors).phase) == LoopState::BackoffSource
            &&& awaited_action(after_failed_fetches(current, errors)) == (ActionView::Backoff {
                target: Dependency::Source,
                secs: BACKOFF_SECS,
            })
            &&& BACKOFF_SECS >= 60 * 60
            &&& resumed(after_failed_fetches(current, errors)).phase == PhaseView::Fetching
            &&& resumed(after_failed_fetches(current, errors)).source_failures == 0
        },
    decreases errors.len(),
{
    let earlier = errors.drop_last();
    let before = after_failed_fetches(current, earlier);
    if earlier.len() > 0 {
        lemma_backoff_after_repeated_fetch_failures(current, earlier);
        lemma_resumed_is_fetching(before);
    }
    let event = EventView::Fetched(Err(errors.last()));
    if current.source_failures + errors.len() == MAX_RETRY {
        lemma_resumed_is_fetching(next_loop(resumed(before), event));
    }
}

} // verus!
