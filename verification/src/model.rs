//! The load-average model.
//!
//! Two successive run-queue readings, taken one sampling interval apart, are
//! smoothed into short / medium / long averages with exponential decay
//! constants.  Every scalar is a fixed-point number: a value `v` stands for
//! the real quantity `v / SCALE`.  The decay constants are bundled with the
//! sampling cadence they were calibrated against, so that one cadence's
//! interval can never be paired silently with another cadence's constants.

use vstd::arithmetic::div_mod::lemma_div_by_multiple;
use vstd::arithmetic::div_mod::lemma_div_denominator;
use vstd::arithmetic::div_mod::lemma_div_is_ordered;
use vstd::prelude::*;

verus! {

/// Fixed-point scale: a stored value `v` stands for the real quantity
/// `v / SCALE`.
pub const SCALE: u64 = 100_000;

/// The cube of [`SCALE`]; the denominator that takes a product of two decay
/// terms (each scaled by `SCALE * SCALE`) back to a plain fixed-point value.
pub const SCALE_CUBED: u64 = 1_000_000_000_000_000;

/// Largest admissible fixed-point reading (a real quantity of ten million).
/// The bound is what the machine forces: it keeps the smoothed averages
/// within `u64` and the intermediate products within `u128`.
pub const MAX_READING: u64 = 1_000_000_000_000;

/// Exponential decay constants, fixed-point scaled by [`SCALE`], together
/// with the sampling cadence (in time units between the two readings of a
/// pair) that they were calibrated against.
#[derive(Clone, Copy, Debug, PartialEq, Eq, Structural)]
pub struct DecayConstants {
    /// Decay constant of the short (one-minute-equivalent) average.
    pub k1: u64,
    /// Decay constant of the medium (five-minute-equivalent) average.
    pub k5: u64,
    /// Decay constant of the long (fifteen-minute-equivalent) average.
    pub k15: u64,
    /// The cadence the constants are calibrated for: the number of time
    /// units between the first and the second reading of a sample pair.
    pub interval_units: u64,
}

impl DecayConstants {
    /// A decay constant is a proper fraction: strictly between zero and one.
    pub open spec fn wf(self) -> bool {
        &&& 0 < self.k1 < SCALE
        &&& 0 < self.k5 < SCALE
        &&& 0 < self.k15 < SCALE
        &&& 0 < self.interval_units
    }

    /// The constants calibrated for a two-time-unit sampling cadence.
    pub open spec fn two_unit_cadence_spec() -> DecayConstants {
        DecayConstants { k1: 96_722, k5: 99_336, k15: 99_778, interval_units: 2 }
    }

    /// The constants calibrated for a two-time-unit sampling cadence.
    pub fn two_unit_cadence() -> (c: DecayConstants)
        ensures
            c == DecayConstants::two_unit_cadence_spec(),
            c.k1 == 96_722,
            c.k5 == 99_336,
            c.k15 == 99_778,
            c.interval_units == 2,
            c.wf(),
    {
        DecayConstants { k1: 96_722, k5: 99_336, k15: 99_778, interval_units: 2 }
    }
}

/// The cube constant is exactly the cube of the scale.
pub proof fn lemma_scale_cubed_is_cube_of_scale()
    ensures
        SCALE_CUBED as int == (SCALE as int) * (SCALE as int) * (SCALE as int),
{
    assert(1_000_000_000_000_000int == 100_000int * 100_000int * 100_000int) by (nonlinear_arith);
}

/// Clamp a raw fixed-point value into the representable reading range.
pub open spec fn clamped(v: u64) -> u64 {
    if v > MAX_READING {
        MAX_READING
    } else {
        v
    }
}

/// Two readings of the same metric taken at two distinct points in time,
/// ordered by collection order: `first` just after the query was opened,
/// `second` one sampling interval later.
#[derive(Clone, Copy, Debug, PartialEq, Eq, Structural)]
pub struct SamplePair {
    pub first: u64,
    pub second: u64,
}

impl SamplePair {
    /// Both readings are within the representable range.
    pub open spec fn wf(self) -> bool {
        self.first <= MAX_READING && self.second <= MAX_READING
    }

    /// Build a pair from raw fixed-point values, clamping each into range.
    pub fn new(first: u64, second: u64) -> (p: SamplePair)
        ensures
            p.first == clamped(first),
            p.second == clamped(second),
            p.wf(),
    {
        SamplePair { first: clamp_reading(first), second: clamp_reading(second) }
    }
}

/// Clamp a raw fixed-point value into the representable reading range.
pub fn clamp_reading(v: u64) -> (r: u64)
    ensures
        r == clamped(v),
{
    if v > MAX_READING {
        MAX_READING
    } else {
        v
    }
}

/// The three smoothed averages derived from one sample pair; fixed-point
/// scaled by [`SCALE`], like the readings they are derived from.
#[derive(Clone, Copy, Debug, PartialEq, Eq, Structural)]
pub struct LoadAverages {
    pub avg_1: u64,
    pub avg_5: u64,
    pub avg_15: u64,
}

/// One decay term `k + q * (1 - k)` of the smoothing formula, written over
/// fixed-point integers; the result is scaled by `SCALE * SCALE`.
pub open spec fn decay_term(k: int, q: int) -> int {
    k * SCALE + q * (SCALE - k)
}

/// One smoothed average `(k_first + first * (1 - k_first)) * (k_second +
/// second * (1 - k_second))`, truncated back to a fixed-point value scaled
/// by [`SCALE`].
pub open spec fn smoothed(k_first: int, k_second: int, first: int, second: int) -> int {
    (decay_term(k_first, first) * decay_term(k_second, second)) / (SCALE_CUBED as int)
}

/// The averages the model assigns to a sample pair.  The long average
/// deliberately mixes the medium decay constant into the `first` term and
/// the long constant into the `second` term; the asymmetry is part of the
/// model and is preserved exactly.
pub open spec fn averages_of(c: DecayConstants, p: SamplePair) -> LoadAverages {
    LoadAverages {
        avg_1: smoothed(c.k1 as int, c.k1 as int, p.first as int, p.second as int) as u64,
        avg_5: smoothed(c.k5 as int, c.k5 as int, p.first as int, p.second as int) as u64,
        avg_15: smoothed(c.k5 as int, c.k15 as int, p.first as int, p.second as int) as u64,
    }
}

/// Compute one smoothed average over fixed-point integers.
fn smooth(k_first: u64, k_second: u64, first: u64, second: u64) -> (r: u64)
    requires
        k_first <= SCALE,
        k_second <= SCALE,
        first <= MAX_READING,
        second <= MAX_READING,
    ensures
        r == smoothed(k_first as int, k_second as int, first as int, second as int),
{
    let one_minus_k_first: u64 = SCALE - k_first;
    let one_minus_k_second: u64 = SCALE - k_second;
    assert((first as int) * (one_minus_k_first as int) <= 100_000_000_000_000_000)
        by (nonlinear_arith)
        requires
            0 <= first <= 1_000_000_000_000,
            0 <= one_minus_k_first <= 100_000,
    ;
    assert((second as int) * (one_minus_k_second as int) <= 100_000_000_000_000_000)
        by (nonlinear_arith)
        requires
            0 <= second <= 1_000_000_000_000,
            0 <= one_minus_k_second <= 100_000,
    ;
    let term_first: u128 = (k_first as u128) * (SCALE as u128) + (first as u128)
        * (one_minus_k_first as u128);
    let term_second: u128 = (k_second as u128) * (SCALE as u128) + (second as u128)
        * (one_minus_k_second as u128);
    assert(term_first as int == decay_term(k_first as int, first as int));
    assert(term_second as int == decay_term(k_second as int, second as int));
    assert((term_first as int) * (term_second as int)
        <= 10_000_002_000_000_100_000_000_000_000_000_000int) by (nonlinear_arith)
        requires
            0 <= term_first <= 100_000_010_000_000_000,
            0 <= term_second <= 100_000_010_000_000_000,
    ;
    let product: u128 = term_first * term_second;
    let divisor: u128 = 1_000_000_000_000_000;
    proof {
        lemma_div_is_ordered(
            product as int,
            10_000_002_000_000_100_000_000_000_000_000_000int,
            divisor as int,
        );
        assert(10_000_002_000_000_100_000_000_000_000_000_000int / 1_000_000_000_000_000int
            == 10_000_002_000_000_100_000int) by (nonlinear_arith);
    }
    (product / divisor) as u64
}

/// Turn one sample pair into the three smoothed averages.
///
/// The result is a pure function of the pair and the constants alone:
/// resampling the same pair always yields the identical averages.
pub fn get_load_averages(pair: SamplePair, constants: DecayConstants) -> (r: LoadAverages)
    requires
        pair.wf(),
        constants.wf(),
    ensures
        r == averages_of(constants, pair),
{
    let avg_1 = smooth(constants.k1, constants.k1, pair.first, pair.second);
    let avg_5 = smooth(constants.k5, constants.k5, pair.first, pair.second);
    let avg_15 = smooth(constants.k5, constants.k15, pair.first, pair.second);
    LoadAverages { avg_1, avg_5, avg_15 }
}

/// Law: the model is deterministic.  The averages are a function of the
/// sample pair and the decay constants and of nothing else, so two
/// invocations on equal inputs agree exactly.  Together with the contract
/// of [`get_load_averages`], whose result is pinned to [`averages_of`],
/// this rules out any hidden state in the model.
pub proof fn lemma_model_deterministic(
    c1: DecayConstants,
    c2: DecayConstants,
    p1: SamplePair,
    p2: SamplePair,
)
    requires
        c1 == c2,
        p1 == p2,
    ensures
        averages_of(c1, p1) == averages_of(c2, p2),
{
}

/// Law: on the all-idle pair (both readings zero) each smoothed average
/// collapses to the product of its two decay constants, truncated to fixed
/// point: `avg_1 = k1 * k1`, `avg_5 = k5 * k5`, `avg_15 = k5 * k15`.
pub proof fn lemma_idle_pair_fixed_point(c: DecayConstants)
    requires
        c.wf(),
    ensures
        averages_of(c, SamplePair { first: 0, second: 0 }).avg_1 == c.k1 * c.k1 / (SCALE as int),
        averages_of(c, SamplePair { first: 0, second: 0 }).avg_5 == c.k5 * c.k5 / (SCALE as int),
        averages_of(c, SamplePair { first: 0, second: 0 }).avg_15 == c.k5 * c.k15 / (SCALE as int),
{
    lemma_smoothed_of_zero_pair(c.k1 as int, c.k1 as int);
    lemma_smoothed_of_zero_pair(c.k5 as int, c.k5 as int);
    lemma_smoothed_of_zero_pair(c.k5 as int, c.k15 as int);
}

/// On the zero pair the smoothing formula reduces to `ka * kb / SCALE`.
proof fn lemma_smoothed_of_zero_pair(ka: int, kb: int)
    requires
        0 < ka < SCALE,
        0 < kb < SCALE,
    ensures
        smoothed(ka, kb, 0, 0) == ka * kb / (SCALE as int),
        0 <= smoothed(ka, kb, 0, 0) <= SCALE,
{
    let s = SCALE as int;
    assert(decay_term(ka, 0) == ka * s);
    assert(decay_term(kb, 0) == kb * s);
    assert(0 <= ka * kb <= s * s && (ka * s) * (kb * s) == (ka * kb) * (s * s) && 0 <= (ka * kb)
        * (s * s)) by (nonlinear_arith)
        requires
            0 < ka <= s,
            0 < kb <= s,
    ;
    lemma_scale_cubed_is_cube_of_scale();
    lemma_div_denominator((ka * kb) * (s * s), s * s, s);
    lemma_div_by_multiple(ka * kb, s * s);
    assert(smoothed(ka, kb, 0, 0) == ka * kb / s);
    lemma_div_is_ordered(ka * kb, s * s, s);
    lemma_div_by_multiple(s, s);
}

} // verus!
