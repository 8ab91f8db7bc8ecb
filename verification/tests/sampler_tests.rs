//! Tests of the sampler protocol state machine.

use hostload::model::SamplePair;
use hostload::model::MAX_READING;
use hostload::sampler::run_to_completion;
use hostload::sampler::start;
use hostload::sampler::step;
use hostload::sampler::MetricKind;
use hostload::sampler::SampleError;
use hostload::sampler::SampleOutcome;
use hostload::sampler::SamplerAction;
use hostload::sampler::SamplerEvent;
use hostload::sampler::SamplerState;

fn successful_queue_events() -> Vec<SamplerEvent> {
    vec![
        SamplerEvent::Opened,
        SamplerEvent::Attached,
        SamplerEvent::Collected,
        SamplerEvent::ValueRead(200_000),
        SamplerEvent::Scheduled,
        SamplerEvent::SignalReady,
        SamplerEvent::ValueRead(300_000),
        SamplerEvent::Detached,
        SamplerEvent::Closed,
    ]
}

#[test]
fn queue_unit_reports_ordered_pair() {
    let r = run_to_completion(MetricKind::QueueLength, &successful_queue_events());
    assert_eq!(
        r,
        Some(Ok(SampleOutcome::Pair(SamplePair { first: 200_000, second: 300_000 })))
    );
}

#[test]
fn processor_unit_reports_most_recent_reading() {
    let r = run_to_completion(MetricKind::ProcessorActivity, &successful_queue_events());
    assert_eq!(r, Some(Ok(SampleOutcome::Scalar(300_000))));
}

#[test]
fn processor_timeout_keeps_previous_reading() {
    // The wait for the scheduled collection times out: the value read after
    // the first collection is kept.
    let events = vec![
        SamplerEvent::Opened,
        SamplerEvent::Attached,
        SamplerEvent::Collected,
        SamplerEvent::ValueRead(420_000),
        SamplerEvent::Scheduled,
        SamplerEvent::SignalTimedOut,
        SamplerEvent::Detached,
        SamplerEvent::Closed,
    ];
    let r = run_to_completion(MetricKind::ProcessorActivity, &events);
    assert_eq!(r, Some(Ok(SampleOutcome::Scalar(420_000))));
}

#[test]
fn queue_timeout_reports_zero_second_reading() {
    // The second queue reading was never obtained: the sentinel zero stands
    // in for it, while the first reading is kept.
    let events = vec![
        SamplerEvent::Opened,
        SamplerEvent::Attached,
        SamplerEvent::Collected,
        SamplerEvent::ValueRead(150_000),
        SamplerEvent::Scheduled,
        SamplerEvent::SignalTimedOut,
        SamplerEvent::Detached,
        SamplerEvent::Closed,
    ];
    let r = run_to_completion(MetricKind::QueueLength, &events);
    assert_eq!(
        r,
        Some(Ok(SampleOutcome::Pair(SamplePair { first: 150_000, second: 0 })))
    );
}

#[test]
fn open_failure_fails_with_provider_unavailable() {
    let events = vec![SamplerEvent::OpenFailed];
    let r = run_to_completion(MetricKind::ProcessorActivity, &events);
    assert_eq!(r, Some(Err(SampleError::ProviderUnavailable)));
}

#[test]
fn attach_failure_fails_with_unknown_metric_after_closing() {
    // The unit still closes its session before reporting the failure ...
    let events = vec![
        SamplerEvent::Opened,
        SamplerEvent::AttachFailed,
        SamplerEvent::Closed,
    ];
    let r = run_to_completion(MetricKind::QueueLength, &events);
    assert_eq!(r, Some(Err(SampleError::UnknownMetric)));

    // ... and is not complete until the session is closed.
    let unclosed = vec![SamplerEvent::Opened, SamplerEvent::AttachFailed];
    assert_eq!(run_to_completion(MetricKind::QueueLength, &unclosed), None);
}

#[test]
fn attach_failure_requests_session_close() {
    let (state, action) = start();
    assert_eq!(action, SamplerAction::Open);
    let (state, action) = step(MetricKind::QueueLength, state, SamplerEvent::Opened).unwrap();
    assert_eq!(action, SamplerAction::AttachCounter);
    let (state, action) = step(MetricKind::QueueLength, state, SamplerEvent::AttachFailed).unwrap();
    assert_eq!(action, SamplerAction::CloseSession);
    let (state, action) = step(MetricKind::QueueLength, state, SamplerEvent::Closed).unwrap();
    assert_eq!(action, SamplerAction::Finish);
    assert!(matches!(
        state,
        SamplerState::Done { result: Err(SampleError::UnknownMetric) }
    ));
}

#[test]
fn protocol_actions_in_order() {
    // One full successful queue pass, action by action.
    let kind = MetricKind::QueueLength;
    let (state, action) = start();
    assert_eq!(action, SamplerAction::Open);
    let (state, action) = step(kind, state, SamplerEvent::Opened).unwrap();
    assert_eq!(action, SamplerAction::AttachCounter);
    let (state, action) = step(kind, state, SamplerEvent::Attached).unwrap();
    assert_eq!(action, SamplerAction::CollectNow);
    let (state, action) = step(kind, state, SamplerEvent::Collected).unwrap();
    assert_eq!(action, SamplerAction::ReadValue);
    let (state, action) = step(kind, state, SamplerEvent::ValueRead(100_000)).unwrap();
    assert_eq!(action, SamplerAction::ScheduleCollect { interval_units: 2 });
    let (state, action) = step(kind, state, SamplerEvent::Scheduled).unwrap();
    assert_eq!(action, SamplerAction::WaitSignal);
    let (state, action) = step(kind, state, SamplerEvent::SignalReady).unwrap();
    assert_eq!(action, SamplerAction::ReadValue);
    let (state, action) = step(kind, state, SamplerEvent::ValueRead(200_000)).unwrap();
    assert_eq!(action, SamplerAction::RemoveCounter);
    let (state, action) = step(kind, state, SamplerEvent::Detached).unwrap();
    assert_eq!(action, SamplerAction::CloseSession);
    let (state, action) = step(kind, state, SamplerEvent::Closed).unwrap();
    assert_eq!(action, SamplerAction::Finish);
    assert!(matches!(state, SamplerState::Done { result: Ok(_) }));
}

#[test]
fn processor_cadence_is_one_unit_and_queue_cadence_two() {
    for (kind, expected) in [
        (MetricKind::ProcessorActivity, 1u64),
        (MetricKind::QueueLength, 2u64),
    ] {
        let (state, _) = start();
        let (state, _) = step(kind, state, SamplerEvent::Opened).unwrap();
        let (state, _) = step(kind, state, SamplerEvent::Attached).unwrap();
        let (state, _) = step(kind, state, SamplerEvent::Collected).unwrap();
        let (_, action) = step(kind, state, SamplerEvent::ValueRead(0)).unwrap();
        assert_eq!(action, SamplerAction::ScheduleCollect { interval_units: expected });
    }
}

#[test]
fn out_of_protocol_event_is_refused() {
    let (state, _) = start();
    assert_eq!(step(MetricKind::QueueLength, state, SamplerEvent::Attached), None);
    let events = vec![SamplerEvent::Attached];
    assert_eq!(run_to_completion(MetricKind::QueueLength, &events), None);
}

#[test]
fn incomplete_event_sequence_yields_no_outcome() {
    let events = vec![
        SamplerEvent::Opened,
        SamplerEvent::Attached,
        SamplerEvent::Collected,
    ];
    assert_eq!(run_to_completion(MetricKind::QueueLength, &events), None);
}

#[test]
fn events_after_completion_are_ignored() {
    let events = vec![SamplerEvent::OpenFailed, SamplerEvent::Opened];
    let r = run_to_completion(MetricKind::ProcessorActivity, &events);
    assert_eq!(r, Some(Err(SampleError::ProviderUnavailable)));
}

#[test]
fn readings_are_clamped_into_range() {
    let events = vec![
        SamplerEvent::Opened,
        SamplerEvent::Attached,
        SamplerEvent::Collected,
        SamplerEvent::ValueRead(u64::MAX),
        SamplerEvent::Scheduled,
        SamplerEvent::SignalReady,
        SamplerEvent::ValueRead(MAX_READING + 17),
        SamplerEvent::Detached,
        SamplerEvent::Closed,
    ];
    let r = run_to_completion(MetricKind::QueueLength, &events);
    assert_eq!(
        r,
        Some(Ok(SampleOutcome::Pair(SamplePair {
            first: MAX_READING,
            second: MAX_READING,
        })))
    );
}
