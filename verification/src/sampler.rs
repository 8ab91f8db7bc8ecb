//! The sampler protocol.
//!
//! One sampling unit drives one performance-counter session through
//! open - attach - collect - read - schedule - wait - read - release - close
//! and yields either a scalar or an ordered pair of scalars.  The decisions
//! of that protocol live here as a state machine: [`step`] maps the current
//! state and the provider's answer to the previous request onto the next
//! state and the next request.  The caller owns the session and counter
//! handles and performs the requested provider calls; the machine never sees
//! them, only the events they produce.
//!
//! The laws proved below pin the protocol's resource discipline down: a
//! value is read only after a completed collection, a session once opened is
//! closed again on every path to completion (including the attach-failure
//! path), at most one session is opened per unit, and every unit finishes
//! after a bounded number of steps - there are no retries.

use crate::model::clamp_reading;
use crate::model::clamped;
use crate::model::MAX_READING;
use crate::model::SamplePair;
use vstd::prelude::*;

verus! {

/// The two metrics one sampling pass collects.
#[derive(Clone, Copy, Debug, PartialEq, Eq, Structural)]
pub enum MetricKind {
    /// Total processor utilization percentage; the most recent reading is
    /// reported as a single scalar.
    ProcessorActivity,
    /// Processor run-queue length; both time-separated readings are
    /// reported as an ordered pair.
    QueueLength,
}

/// The cadence of a metric: how many time units pass between scheduling the
/// periodic collection and the second reading.  The queue-length cadence
/// matches the two-unit calibration of the default decay constants.
pub open spec fn sampling_interval(kind: MetricKind) -> u64 {
    match kind {
        MetricKind::ProcessorActivity => 1,
        MetricKind::QueueLength => 2,
    }
}

/// Why a sampling unit failed.  A collection timeout is not listed: it
/// degrades the reading (the previously read value is kept, or zero if none
/// was ever read) instead of failing the unit.
#[derive(Clone, Copy, Debug, PartialEq, Eq, Structural)]
pub enum SampleError {
    /// The metric session could not be opened.
    ProviderUnavailable,
    /// The counter path does not resolve on this host.
    UnknownMetric,
}

/// What one completed sampling unit yields: a scalar or an ordered pair.
#[derive(Clone, Copy, Debug, PartialEq, Eq, Structural)]
pub enum SampleOutcome {
    /// The most recent utilization reading.
    Scalar(u64),
    /// The two time-separated queue-length readings, in collection order.
    Pair(SamplePair),
}

/// The provider operation the driver must perform next.
#[derive(Clone, Copy, Debug, PartialEq, Eq, Structural)]
pub enum SamplerAction {
    /// Open a query session against the metric provider.
    Open,
    /// Attach the metric's counter path to the open session.
    AttachCounter,
    /// Trigger one immediate collection on the session.
    CollectNow,
    /// Read the formatted value of the attached counter.
    ReadValue,
    /// Schedule a periodic collection every `interval_units` time units.
    ScheduleCollect { interval_units: u64 },
    /// Block until the scheduled collection signals readiness or times out.
    WaitSignal,
    /// Remove the counter from the session.
    RemoveCounter,
    /// Close the query session.
    CloseSession,
    /// The unit is finished; the state holds its outcome.
    Finish,
}

/// What the provider reported back for the action just performed.
#[derive(Clone, Copy, Debug, PartialEq, Eq, Structural)]
pub enum SamplerEvent {
    /// The session opened.
    Opened,
    /// The session could not be allocated.
    OpenFailed,
    /// The counter path resolved and is attached.
    Attached,
    /// The counter path does not exist on this host.
    AttachFailed,
    /// The immediate collection completed.
    Collected,
    /// The counter's formatted value, as a fixed-point scalar.
    ValueRead(u64),
    /// The periodic collection is scheduled.
    Scheduled,
    /// The scheduled collection signalled readiness.
    SignalReady,
    /// The wait for the scheduled collection timed out.
    SignalTimedOut,
    /// The counter was removed.
    Detached,
    /// The session was closed.
    Closed,
}

/// One sampling unit's control state, named for the event it awaits.
#[derive(Clone, Copy, Debug, PartialEq, Eq)]
pub enum SamplerState {
    /// A session open was requested; nothing is held yet.
    Opening,
    /// The session is open; the counter attach was requested.
    Attaching,
    /// Counter attached; the first immediate collection is running.
    CollectingFirst,
    /// First collection done; the first read was requested.
    ReadingFirst,
    /// First value in hand; the periodic collection is being scheduled.
    Scheduling { first: u64 },
    /// Blocked until the scheduled collection signals or times out.
    Waiting { first: u64 },
    /// The signal fired; the second read was requested.
    ReadingSecond { first: u64 },
    /// Readings done (`second` is absent after a timeout); the counter is
    /// being removed.
    Detaching { first: u64, second: Option<u64> },
    /// Counter removed; the session is being closed.
    Closing { first: u64, second: Option<u64> },
    /// The attach failed; the session is being closed before the unit
    /// reports the failure.
    ClosingAfterFailure,
    /// The unit ran to completion.
    Done { result: Result<SampleOutcome, SampleError> },
}

/// Whether a state holds an open session that still has to be closed.
pub open spec fn session_open(state: SamplerState) -> bool {
    match state {
        SamplerState::Opening => false,
        SamplerState::Done { .. } => false,
        _ => true,
    }
}

/// Whether the machine in this state takes this event.
pub open spec fn accepts(state: SamplerState, event: SamplerEvent) -> bool {
    match (state, event) {
        (SamplerState::Opening, SamplerEvent::Opened) => true,
        (SamplerState::Opening, SamplerEvent::OpenFailed) => true,
        (SamplerState::Attaching, SamplerEvent::Attached) => true,
        (SamplerState::Attaching, SamplerEvent::AttachFailed) => true,
        (SamplerState::CollectingFirst, SamplerEvent::Collected) => true,
        (SamplerState::ReadingFirst, SamplerEvent::ValueRead(_)) => true,
        (SamplerState::Scheduling { .. }, SamplerEvent::Scheduled) => true,
        (SamplerState::Waiting { .. }, SamplerEvent::SignalReady) => true,
        (SamplerState::Waiting { .. }, SamplerEvent::SignalTimedOut) => true,
        (SamplerState::ReadingSecond { .. }, SamplerEvent::ValueRead(_)) => true,
        (SamplerState::Detaching { .. }, SamplerEvent::Detached) => true,
        (SamplerState::Closing { .. }, SamplerEvent::Closed) => true,
        (SamplerState::ClosingAfterFailure, SamplerEvent::Closed) => true,
        _ => false,
    }
}

/// What a completed unit reports.  After a timeout the scalar metric keeps
/// the previously read value and the pair metric reports zero - the
/// sentinel for "no valid reading" - as its second element.
pub open spec fn outcome_of(kind: MetricKind, first: u64, second: Option<u64>) -> SampleOutcome {
    match kind {
        MetricKind::ProcessorActivity => SampleOutcome::Scalar(
            match second {
                Some(v) => v,
                None => first,
            },
        ),
        MetricKind::QueueLength => SampleOutcome::Pair(
            SamplePair {
                first,
                second: match second {
                    Some(v) => v,
                    None => 0,
                },
            },
        ),
    }
}

/// The transition table: the state the machine moves to and the provider
/// operation it requests, given the event it was waiting for.  Readings are
/// clamped into the representable fixed-point range as they arrive.
pub open spec fn transition(kind: MetricKind, state: SamplerState, event: SamplerEvent) -> (
    SamplerState,
    SamplerAction,
)
    recommends
        accepts(state, event),
{
    match (state, event) {
        (SamplerState::Opening, SamplerEvent::Opened) => (
            SamplerState::Attaching,
            SamplerAction::AttachCounter,
        ),
        (SamplerState::Opening, SamplerEvent::OpenFailed) => (
            SamplerState::Done { result: Err(SampleError::ProviderUnavailable) },
            SamplerAction::Finish,
        ),
        (SamplerState::Attaching, SamplerEvent::Attached) => (
            SamplerState::CollectingFirst,
            SamplerAction::CollectNow,
        ),
        (SamplerState::Attaching, SamplerEvent::AttachFailed) => (
            SamplerState::ClosingAfterFailure,
            SamplerAction::CloseSession,
        ),
        (SamplerState::CollectingFirst, SamplerEvent::Collected) => (
            SamplerState::ReadingFirst,
            SamplerAction::ReadValue,
        ),
        (SamplerState::ReadingFirst, SamplerEvent::ValueRead(v)) => (
            SamplerState::Scheduling { first: clamped(v) },
            SamplerAction::ScheduleCollect { interval_units: sampling_interval(kind) },
        ),
        (SamplerState::Scheduling { first }, SamplerEvent::Scheduled) => (
            SamplerState::Waiting { first },
            SamplerAction::WaitSignal,
        ),
        (SamplerState::Waiting { first }, SamplerEvent::SignalReady) => (
            SamplerState::ReadingSecond { first },
            SamplerAction::ReadValue,
        ),
        (SamplerState::Waiting { first }, SamplerEvent::SignalTimedOut) => (
            SamplerState::Detaching { first, second: None },
            SamplerAction::RemoveCounter,
        ),
        (SamplerState::ReadingSecond { first }, SamplerEvent::ValueRead(v)) => (
            SamplerState::Detaching { first, second: Some(clamped(v)) },
            SamplerAction::RemoveCounter,
        ),
        (SamplerState::Detaching { first, second }, SamplerEvent::Detached) => (
            SamplerState::Closing { first, second },
            SamplerAction::CloseSession,
        ),
        (SamplerState::Closing { first, second }, SamplerEvent::Closed) => (
            SamplerState::Done { result: Ok(outcome_of(kind, first, second)) },
            SamplerAction::Finish,
        ),
        (SamplerState::ClosingAfterFailure, SamplerEvent::Closed) => (
            SamplerState::Done { result: Err(SampleError::UnknownMetric) },
            SamplerAction::Finish,
        ),
        _ => (state, SamplerAction::Finish),
    }
}

/// The initial state of one sampling unit, and the first operation it
/// requests: open a fresh session of its own.
pub fn start() -> (r: (SamplerState, SamplerAction))
    ensures
        r.0 == SamplerState::Opening,
        r.1 == SamplerAction::Open,
{
    (SamplerState::Opening, SamplerAction::Open)
}

/// Advance one sampling unit by one event.  Returns the next state and the
/// next provider operation, or `None` if the event is not the answer to the
/// operation the machine requested (a protocol violation by the driver).
pub fn step(kind: MetricKind, state: SamplerState, event: SamplerEvent) -> (r: Option<
    (SamplerState, SamplerAction),
>)
    ensures
        accepts(state, event) ==> r == Some(transition(kind, state, event)),
        !accepts(state, event) ==> r is None,
{
    match (state, event) {
        (SamplerState::Opening, SamplerEvent::Opened) => Some(
            (SamplerState::Attaching, SamplerAction::AttachCounter),
        ),
        (SamplerState::Opening, SamplerEvent::OpenFailed) => Some(
            (
                SamplerState::Done { result: Err(SampleError::ProviderUnavailable) },
                SamplerAction::Finish,
            ),
        ),
        (SamplerState::Attaching, SamplerEvent::Attached) => Some(
            (SamplerState::CollectingFirst, SamplerAction::CollectNow),
        ),
        (SamplerState::Attaching, SamplerEvent::AttachFailed) => Some(
            (SamplerState::ClosingAfterFailure, SamplerAction::CloseSession),
        ),
        (SamplerState::CollectingFirst, SamplerEvent::Collected) => Some(
            (SamplerState::ReadingFirst, SamplerAction::ReadValue),
        ),
        (SamplerState::ReadingFirst, SamplerEvent::ValueRead(v)) => {
            let interval_units = match kind {
                MetricKind::ProcessorActivity => 1u64,
                MetricKind::QueueLength => 2u64,
            };
            Some(
                (
                    SamplerState::Scheduling { first: clamp_reading(v) },
                    SamplerAction::ScheduleCollect { interval_units },
                ),
            )
        },
        (SamplerState::Scheduling { first }, SamplerEvent::Scheduled) => Some(
            (SamplerState::Waiting { first }, SamplerAction::WaitSignal),
        ),
        (SamplerState::Waiting { first }, SamplerEvent::SignalReady) => Some(
            (SamplerState::ReadingSecond { first }, SamplerAction::ReadValue),
        ),
        (SamplerState::Waiting { first }, SamplerEvent::SignalTimedOut) => Some(
            (SamplerState::Detaching { first, second: None }, SamplerAction::RemoveCounter),
        ),
        (SamplerState::ReadingSecond { first }, SamplerEvent::ValueRead(v)) => Some(
            (
                SamplerState::Detaching { first, second: Some(clamp_reading(v)) },
                SamplerAction::RemoveCounter,
            ),
        ),
        (SamplerState::Detaching { first, second }, SamplerEvent::Detached) => Some(
            (SamplerState::Closing { first, second }, SamplerAction::CloseSession),
        ),
        (SamplerState::Closing { first, second }, SamplerEvent::Closed) => {
            let outcome = match kind {
                MetricKind::ProcessorActivity => SampleOutcome::Scalar(
                    match second {
                        Some(v) => v,
                        None => first,
                    },
                ),
                MetricKind::QueueLength => SampleOutcome::Pair(
                    SamplePair {
                        first,
                        second: match second {
                            Some(v) => v,
                            None => 0,
                        },
                    },
                ),
            };
            Some((SamplerState::Done { result: Ok(outcome) }, SamplerAction::Finish))
        },
        (SamplerState::ClosingAfterFailure, SamplerEvent::Closed) => Some(
            (SamplerState::Done { result: Err(SampleError::UnknownMetric) }, SamplerAction::Finish),
        ),
        _ => None,
    }
}

/// Law: a counter is never read before a collection has completed on its
/// session.  The machine requests a read only as the immediate answer to a
/// completed collection or a readiness signal.
pub proof fn lemma_read_only_after_collection(
    kind: MetricKind,
    state: SamplerState,
    event: SamplerEvent,
)
    requires
        accepts(state, event),
        transition(kind, state, event).1 is ReadValue,
    ensures
        event is Collected || event is SignalReady,
{
}

/// Session accounting for one step: the open-session flag is raised exactly
/// by `Opened` and lowered exactly by `Closed`, a session is opened only
/// when none is held, and a close is requested only while one is held.
pub proof fn lemma_session_accounting(kind: MetricKind, state: SamplerState, event: SamplerEvent)
    requires
        accepts(state, event),
    ensures
        session_open(transition(kind, state, event).0) == ((session_open(state) || event is Opened)
            && !(event is Closed)),
        event is Opened ==> !session_open(state),
        event is Closed ==> session_open(state),
        !(transition(kind, state, event).0 is Opening),
{
}

/// Teardown states: the counter's removal or the session's close has been
/// requested, or the unit is done.
pub open spec fn tearing_down(state: SamplerState) -> bool {
    match state {
        SamplerState::Detaching { .. } => true,
        SamplerState::Closing { .. } => true,
        SamplerState::ClosingAfterFailure => true,
        SamplerState::Done { .. } => true,
        _ => false,
    }
}

/// Law: teardown is final.  Once the counter's removal has been requested
/// the machine only tears down further, and in particular never reads the
/// counter again: a query is never read from after its handle is removed.
pub proof fn lemma_teardown_is_final(kind: MetricKind, state: SamplerState, event: SamplerEvent)
    requires
        accepts(state, event),
        tearing_down(state),
    ensures
        tearing_down(transition(kind, state, event).0),
        !(transition(kind, state, event).1 is ReadValue),
{
}

/// How many protocol steps a unit in this state can still take.
pub open spec fn rank(state: SamplerState) -> nat {
    match state {
        SamplerState::Opening => 10,
        SamplerState::Attaching => 9,
        SamplerState::CollectingFirst => 8,
        SamplerState::ReadingFirst => 7,
        SamplerState::Scheduling { .. } => 6,
        SamplerState::Waiting { .. } => 5,
        SamplerState::ReadingSecond { .. } => 4,
        SamplerState::Detaching { .. } => 3,
        SamplerState::Closing { .. } => 2,
        SamplerState::ClosingAfterFailure => 1,
        SamplerState::Done { .. } => 0,
    }
}

/// Every accepted step strictly advances the protocol.
pub proof fn lemma_step_progress(kind: MetricKind, state: SamplerState, event: SamplerEvent)
    requires
        accepts(state, event),
    ensures
        rank(transition(kind, state, event).0) < rank(state),
{
}

/// The state a unit reaches after taking a sequence of events.
pub open spec fn run(kind: MetricKind, state: SamplerState, events: Seq<SamplerEvent>) -> SamplerState
    decreases events.len(),
{
    if events.len() == 0 {
        state
    } else {
        run(kind, transition(kind, state, events[0]).0, events.drop_first())
    }
}

/// Whether a unit accepts a whole sequence of events, step by step.
pub open spec fn trace_accepted(
    kind: MetricKind,
    state: SamplerState,
    events: Seq<SamplerEvent>,
) -> bool
    decreases events.len(),
{
    if events.len() == 0 {
        true
    } else {
        accepts(state, events[0]) && trace_accepted(
            kind,
            transition(kind, state, events[0]).0,
            events.drop_first(),
        )
    }
}

/// How many `Opened` events a trace holds.
pub open spec fn count_opened(events: Seq<SamplerEvent>) -> int
    decreases events.len(),
{
    if events.len() == 0 {
        0
    } else {
        (if events[0] is Opened {
            1int
        } else {
            0int
        }) + count_opened(events.drop_first())
    }
}

/// How many `Closed` events a trace holds.
pub open spec fn count_closed(events: Seq<SamplerEvent>) -> int
    decreases events.len(),
{
    if events.len() == 0 {
        0
    } else {
        (if events[0] is Closed {
            1int
        } else {
            0int
        }) + count_closed(events.drop_first())
    }
}

/// How many sessions a state holds open (zero or one).
pub open spec fn open_sessions(state: SamplerState) -> int {
    if session_open(state) {
        1
    } else {
        0
    }
}

/// Over any accepted trace, sessions opened minus sessions closed equals
/// the change in held sessions: none is ever leaked or double-closed.
pub proof fn lemma_session_balance(kind: MetricKind, state: SamplerState, events: Seq<SamplerEvent>)
    requires
        trace_accepted(kind, state, events),
    ensures
        count_opened(events) - count_closed(events) == open_sessions(run(kind, state, events))
            - open_sessions(state),
    decreases events.len(),
{
    if events.len() > 0 {
        let next = transition(kind, state, events[0]).0;
        lemma_session_accounting(kind, state, events[0]);
        lemma_session_balance(kind, next, events.drop_first());
    }
}

/// A state can open a session in the future only if it has not yet asked
/// for one: only the initial state can.
pub open spec fn opens_remaining(state: SamplerState) -> int {
    if state is Opening {
        1
    } else {
        0
    }
}

/// Over any accepted trace, at most one session is ever opened.
pub proof fn lemma_single_session(kind: MetricKind, state: SamplerState, events: Seq<SamplerEvent>)
    requires
        trace_accepted(kind, state, events),
    ensures
        count_opened(events) <= opens_remaining(state),
    decreases events.len(),
{
    if events.len() > 0 {
        let next = transition(kind, state, events[0]).0;
        lemma_session_accounting(kind, state, events[0]);
        lemma_single_session(kind, next, events.drop_first());
    }
}

/// Law: guaranteed release.  In any accepted run of one sampling unit from
/// its initial state to completion, every session that was opened is closed
/// again - on the success path, the timeout path and the attach-failure
/// path alike - and at most one session is ever opened.
pub proof fn lemma_guaranteed_release(kind: MetricKind, events: Seq<SamplerEvent>)
    requires
        trace_accepted(kind, SamplerState::Opening, events),
        run(kind, SamplerState::Opening, events) is Done,
    ensures
        count_closed(events) == count_opened(events),
        count_opened(events) <= 1,
{
    lemma_session_balance(kind, SamplerState::Opening, events);
    lemma_single_session(kind, SamplerState::Opening, events);
}

/// Law: no retries.  A sampling unit takes at most as many steps as its
/// rank allows; each pass through the protocol is attempted exactly once.
pub proof fn lemma_no_retries(kind: MetricKind, state: SamplerState, events: Seq<SamplerEvent>)
    requires
        trace_accepted(kind, state, events),
    ensures
        events.len() <= rank(state),
    decreases events.len(),
{
    if events.len() > 0 {
        let next = transition(kind, state, events[0]).0;
        lemma_step_progress(kind, state, events[0]);
        lemma_no_retries(kind, next, events.drop_first());
    }
}

/// Law: cadence and constants are chosen together.  The interval the
/// queue-length sampler schedules is exactly the cadence the default decay
/// constants were calibrated against, so the two cannot drift apart
/// silently.
pub proof fn lemma_default_cadence_matches_sampler()
    ensures
        sampling_interval(MetricKind::QueueLength)
            == crate::model::DecayConstants::two_unit_cadence_spec().interval_units,
{
}

/// In an accepted trace, the exec driver's outcome view agrees with the
/// trace view: a run that completes yields exactly the completed state's
/// result.
pub proof fn lemma_run_outcome_agrees_with_run(
    kind: MetricKind,
    state: SamplerState,
    events: Seq<SamplerEvent>,
)
    requires
        trace_accepted(kind, state, events),
        run(kind, state, events) matches SamplerState::Done { result },
    ensures
        run_outcome(kind, state, events) == Some(run(kind, state, events)->result),
    decreases events.len(),
{
    if !(state is Done) && events.len() > 0 {
        lemma_run_outcome_agrees_with_run(
            kind,
            transition(kind, state, events[0]).0,
            events.drop_first(),
        );
    }
}

/// Every reading a state carries is within the representable range, and a
/// completed unit's outcome inherits the bound.
pub open spec fn readings_bounded(state: SamplerState) -> bool {
    match state {
        SamplerState::Scheduling { first } => first <= MAX_READING,
        SamplerState::Waiting { first } => first <= MAX_READING,
        SamplerState::ReadingSecond { first } => first <= MAX_READING,
        SamplerState::Detaching { first, second } => first <= MAX_READING && (second matches Some(v)
            ==> v <= MAX_READING),
        SamplerState::Closing { first, second } => first <= MAX_READING && (second matches Some(v)
            ==> v <= MAX_READING),
        SamplerState::Done { result } => match result {
            Ok(SampleOutcome::Scalar(v)) => v <= MAX_READING,
            Ok(SampleOutcome::Pair(p)) => p.wf(),
            Err(_) => true,
        },
        _ => true,
    }
}

/// One accepted step keeps every carried reading within range: arriving
/// values are clamped, and completion only rearranges values already held.
pub proof fn lemma_step_keeps_readings_bounded(
    kind: MetricKind,
    state: SamplerState,
    event: SamplerEvent,
)
    requires
        accepts(state, event),
        readings_bounded(state),
    ensures
        readings_bounded(transition(kind, state, event).0),
{
}

/// Law: every reading a completed unit reports is within the representable
/// range.  A successful queue outcome therefore always satisfies the
/// model's well-formedness bound, and a successful processor outcome never
/// exceeds the largest representable reading.
pub proof fn lemma_outcome_readings_bounded(
    kind: MetricKind,
    state: SamplerState,
    events: Seq<SamplerEvent>,
)
    requires
        readings_bounded(state),
    ensures
        run_outcome(kind, state, events) matches Some(r) ==> (r matches Ok(outcome) ==> match outcome {
            SampleOutcome::Scalar(v) => v <= MAX_READING,
            SampleOutcome::Pair(p) => p.wf(),
        }),
    decreases events.len(),
{
    match state {
        SamplerState::Done { .. } => {},
        _ => {
            if events.len() > 0 && accepts(state, events[0]) {
                lemma_step_keeps_readings_bounded(kind, state, events[0]);
                lemma_outcome_readings_bounded(
                    kind,
                    transition(kind, state, events[0]).0,
                    events.drop_first(),
                );
            }
        },
    }
}

/// The outcome a unit reaches from `state` on a pre-collected event
/// sequence: its result once it completes, `None` if the events run out or
/// one of them is not the answer to the requested operation.
pub open spec fn run_outcome(kind: MetricKind, state: SamplerState, events: Seq<SamplerEvent>) -> Option<
    Result<SampleOutcome, SampleError>,
>
    decreases events.len(),
{
    match state {
        SamplerState::Done { result } => Some(result),
        _ => {
            if events.len() == 0 {
                None
            } else if !accepts(state, events[0]) {
                None
            } else {
                run_outcome(kind, transition(kind, state, events[0]).0, events.drop_first())
            }
        },
    }
}

/// Drive one sampling unit over a pre-collected sequence of events and
/// return its outcome, or `None` if the sequence does not complete the
/// protocol.  Events after completion are ignored.
pub fn run_to_completion(kind: MetricKind, events: &Vec<SamplerEvent>) -> (r: Option<
    Result<SampleOutcome, SampleError>,
>)
    ensures
        r == run_outcome(kind, SamplerState::Opening, events@),
{
    let mut state = SamplerState::Opening;
    let mut i: usize = 0;
    proof {
        assert(events@.skip(0) =~= events@);
    }
    while i < events.len()
        invariant
            i <= events@.len(),
            run_outcome(kind, SamplerState::Opening, events@) == run_outcome(
                kind,
                state,
                events@.skip(i as int),
            ),
        decreases events@.len() - i,
    {
        if let SamplerState::Done { result } = state {
            return Some(result);
        }
        match step(kind, state, events[i]) {
            Some((next, _action)) => {
                proof {
                    assert(events@.skip(i as int).drop_first() =~= events@.skip(i as int + 1));
                }
                state = next;
            },
            None => {
                return None;
            },
        }
        i = i + 1;
    }
    if let SamplerState::Done { result } = state {
        Some(result)
    } else {
        None
    }
}

} // verus!
