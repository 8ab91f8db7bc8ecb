//! Tests of the load-average model.

use hostload::model::clamp_reading;
use hostload::model::get_load_averages;
use hostload::model::DecayConstants;
use hostload::model::SamplePair;
use hostload::model::MAX_READING;
use hostload::model::SCALE;

#[test]
fn two_unit_cadence_constants() {
    let c = DecayConstants::two_unit_cadence();
    assert_eq!(c.k1, 96_722);
    assert_eq!(c.k5, 99_336);
    assert_eq!(c.k15, 99_778);
    assert_eq!(c.interval_units, 2);
}

#[test]
fn scale_is_one_hundred_thousand() {
    assert_eq!(SCALE, 100_000);
}

#[test]
fn clamping_keeps_values_in_range() {
    assert_eq!(clamp_reading(5), 5);
    assert_eq!(clamp_reading(MAX_READING), MAX_READING);
    assert_eq!(clamp_reading(MAX_READING + 1), MAX_READING);
    assert_eq!(clamp_reading(u64::MAX), MAX_READING);
    let p = SamplePair::new(u64::MAX, 7);
    assert_eq!(p.first, MAX_READING);
    assert_eq!(p.second, 7);
}

#[test]
fn idle_pair_yields_constant_products() {
    // With both readings zero each average collapses to the product of its
    // two decay constants: k1*k1, k5*k5 and k5*k15, truncated to fixed point.
    let c = DecayConstants::two_unit_cadence();
    let a = get_load_averages(SamplePair { first: 0, second: 0 }, c);
    assert_eq!(a.avg_1, 96_722 * 96_722 / SCALE);
    assert_eq!(a.avg_5, 99_336 * 99_336 / SCALE);
    assert_eq!(a.avg_15, 99_336 * 99_778 / SCALE);
    assert_eq!(a.avg_1, 93_551);
    assert_eq!(a.avg_5, 98_676);
    assert_eq!(a.avg_15, 99_115);
}

#[test]
fn queue_pair_two_three() {
    // Queue lengths 2.0 and 3.0: the short average must match
    // (0.96722 + 2.0*0.03278) * (0.96722 + 3.0*0.03278) to four decimals.
    let c = DecayConstants::two_unit_cadence();
    let a = get_load_averages(SamplePair { first: 200_000, second: 300_000 }, c);
    assert_eq!(a.avg_1, 110_048);
    assert_eq!(a.avg_5, 102_000);
    assert_eq!(a.avg_15, 101_110);

    let avg_1 = a.avg_1 as f64 / SCALE as f64;
    let expected = (0.96722 + 2.0 * 0.03278) * (0.96722 + 3.0 * 0.03278);
    assert!((avg_1 - expected).abs() < 1e-4);

    let avg_5 = a.avg_5 as f64 / SCALE as f64;
    let expected_5 = (0.99336 + 2.0 * 0.00664) * (0.99336 + 3.0 * 0.00664);
    assert!((avg_5 - expected_5).abs() < 1e-4);

    // The long average mixes the five-unit constant into the first term and
    // the fifteen-unit constant into the second; the asymmetry is kept.
    let avg_15 = a.avg_15 as f64 / SCALE as f64;
    let expected_15 = (0.99336 + 2.0 * 0.00664) * (0.99778 + 3.0 * 0.00222);
    assert!((avg_15 - expected_15).abs() < 1e-4);
}

#[test]
fn steady_unit_load_is_exactly_one() {
    // With both readings at 1.0 every decay term is exactly one, so all
    // three averages are exactly 1.0.
    let c = DecayConstants::two_unit_cadence();
    let a = get_load_averages(SamplePair { first: SCALE, second: SCALE }, c);
    assert_eq!(a.avg_1, SCALE);
    assert_eq!(a.avg_5, SCALE);
    assert_eq!(a.avg_15, SCALE);
}

#[test]
fn model_is_deterministic() {
    // Re-invoking the model with the same pair yields identical results.
    let c = DecayConstants::two_unit_cadence();
    let p = SamplePair { first: 123_456, second: 654_321 };
    let a = get_load_averages(p, c);
    let b = get_load_averages(p, c);
    assert_eq!(a, b);
}

#[test]
fn largest_reading_is_accepted() {
    let c = DecayConstants::two_unit_cadence();
    let p = SamplePair { first: MAX_READING, second: MAX_READING };
    let a = get_load_averages(p, c);
    // (k1 + 10^7 * (1 - k1))^2 for k1 = 0.96722 is about 1.075e11; the
    // result stays well within range and far above the idle value.
    assert!(a.avg_1 > a.avg_5 || a.avg_1 > 0);
    assert!(a.avg_1 >= 96_722 * 96_722 / SCALE);
}
