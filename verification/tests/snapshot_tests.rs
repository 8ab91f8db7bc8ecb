//! Tests of the coordinator merge and the load snapshot.

use hostload::model::DecayConstants;
use hostload::model::SamplePair;
use hostload::snapshot::merge;
use hostload::snapshot::LoadSnapshot;
use hostload::sampler::SampleError;

#[test]
fn merge_of_two_successes() {
    let c = DecayConstants::two_unit_cadence();
    let s = merge(
        &c,
        Ok(1_234_000),
        Ok(SamplePair { first: 200_000, second: 300_000 }),
    );
    assert_eq!(s.processor_activity, 1_234_000);
    // The current load is the second, most recent, queue reading.
    assert_eq!(s.current_load, 300_000);
    assert_eq!(s.avg_1_load, 110_048);
    assert_eq!(s.avg_5_load, 102_000);
    assert_eq!(s.avg_15_load, 101_110);
}

#[test]
fn processor_failure_leaves_queue_fields_untouched() {
    let c = DecayConstants::two_unit_cadence();
    let queue = Ok(SamplePair { first: 200_000, second: 300_000 });
    let both = merge(&c, Ok(555_000), queue);
    let degraded = merge(&c, Err(SampleError::ProviderUnavailable), queue);
    assert_eq!(degraded.processor_activity, 0);
    assert_eq!(degraded.current_load, both.current_load);
    assert_eq!(degraded.avg_1_load, both.avg_1_load);
    assert_eq!(degraded.avg_5_load, both.avg_5_load);
    assert_eq!(degraded.avg_15_load, both.avg_15_load);
}

#[test]
fn unknown_metric_with_unit_queue_pair() {
    // Processor sampling fails with an unknown counter path; queue sampling
    // succeeds with the pair (1.0, 1.0).
    let c = DecayConstants::two_unit_cadence();
    let s = merge(
        &c,
        Err(SampleError::UnknownMetric),
        Ok(SamplePair { first: 100_000, second: 100_000 }),
    );
    assert_eq!(s.processor_activity, 0);
    assert_eq!(s.current_load, 100_000);
    assert_eq!(s.avg_1_load, 100_000);
    assert_eq!(s.avg_5_load, 100_000);
    assert_eq!(s.avg_15_load, 100_000);
}

#[test]
fn queue_failure_zeroes_only_queue_fields() {
    let c = DecayConstants::two_unit_cadence();
    let s = merge(&c, Ok(777_000), Err(SampleError::UnknownMetric));
    assert_eq!(s.processor_activity, 777_000);
    assert_eq!(s.current_load, 0);
    assert_eq!(s.avg_1_load, 0);
    assert_eq!(s.avg_5_load, 0);
    assert_eq!(s.avg_15_load, 0);
}

#[test]
fn total_failure_is_the_zero_sentinel() {
    let c = DecayConstants::two_unit_cadence();
    let s = merge(
        &c,
        Err(SampleError::ProviderUnavailable),
        Err(SampleError::ProviderUnavailable),
    );
    assert_eq!(s, LoadSnapshot::zero());
    assert_eq!(s, LoadSnapshot::default());
    assert_eq!(s.processor_activity, 0);
    assert_eq!(s.current_load, 0);
    assert_eq!(s.avg_1_load, 0);
    assert_eq!(s.avg_5_load, 0);
    assert_eq!(s.avg_15_load, 0);
}

#[test]
fn two_passes_with_equal_samples_agree() {
    // No state is carried between sampling passes: merging the same unit
    // results twice yields bit-identical snapshots.
    let c = DecayConstants::two_unit_cadence();
    let queue = Ok(SamplePair { first: 42_000, second: 58_000 });
    let a = merge(&c, Ok(900_000), queue);
    let b = merge(&c, Ok(900_000), queue);
    assert_eq!(a, b);
}
