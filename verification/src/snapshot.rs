//! The load snapshot and the coordinator's merge.
//!
//! One sampling pass runs two independent units - processor activity and
//! queue length - each against a fresh session of its own, waits for both,
//! and merges their results into one immutable snapshot.  A failed unit
//! contributes the sentinel zero for its metric and leaves the other
//! metric's fields untouched; a pass therefore always yields a usable, if
//! degraded, snapshot.  The snapshot whose fields are all zero is the
//! sentinel for "sampling failed" and never a valid reading: callers must
//! track success out of band rather than trust a numeric zero.

use crate::model::averages_of;
use crate::model::get_load_averages;
use crate::model::DecayConstants;
use crate::model::SamplePair;
use crate::sampler::SampleError;
use vstd::prelude::*;

verus! {

/// The final aggregate of one sampling pass; every field is a fixed-point
/// scalar (see [`crate::model::SCALE`]).
#[derive(Clone, Copy, Debug, PartialEq, Eq, Structural)]
pub struct LoadSnapshot {
    /// Most recent total processor utilization percentage.
    pub processor_activity: u64,
    /// Most recent queue-length reading: the second element of the pair.
    pub current_load: u64,
    /// Short smoothed average.
    pub avg_1_load: u64,
    /// Medium smoothed average.
    pub avg_5_load: u64,
    /// Long smoothed average.
    pub avg_15_load: u64,
}

impl LoadSnapshot {
    /// The all-zero sentinel: every field zero, representing "no valid
    /// reading obtained".
    pub open spec fn zero_spec() -> LoadSnapshot {
        LoadSnapshot {
            processor_activity: 0,
            current_load: 0,
            avg_1_load: 0,
            avg_5_load: 0,
            avg_15_load: 0,
        }
    }

    /// Build the all-zero sentinel snapshot.
    pub fn zero() -> (s: LoadSnapshot)
        ensures
            s == LoadSnapshot::zero_spec(),
    {
        LoadSnapshot {
            processor_activity: 0,
            current_load: 0,
            avg_1_load: 0,
            avg_5_load: 0,
            avg_15_load: 0,
        }
    }
}

impl Default for LoadSnapshot {
    /// The default snapshot is the failure sentinel.
    fn default() -> (s: LoadSnapshot)
        ensures
            s == LoadSnapshot::zero_spec(),
    {
        LoadSnapshot::zero()
    }
}

/// The snapshot the coordinator assembles from the two unit results: each
/// failed unit contributes the sentinel zero for its own fields only.
pub open spec fn merged(
    c: DecayConstants,
    processor: Result<u64, SampleError>,
    queue: Result<SamplePair, SampleError>,
) -> LoadSnapshot {
    LoadSnapshot {
        processor_activity: match processor {
            Ok(percent) => percent,
            Err(_) => 0,
        },
        current_load: match queue {
            Ok(pair) => pair.second,
            Err(_) => 0,
        },
        avg_1_load: match queue {
            Ok(pair) => averages_of(c, pair).avg_1,
            Err(_) => 0,
        },
        avg_5_load: match queue {
            Ok(pair) => averages_of(c, pair).avg_5,
            Err(_) => 0,
        },
        avg_15_load: match queue {
            Ok(pair) => averages_of(c, pair).avg_15,
            Err(_) => 0,
        },
    }
}

/// Merge the two unit results into one snapshot.  The queue unit's pair
/// feeds the load-average model; its second element is reported as the
/// current load.  Merging happens only after both units have completed, so
/// the snapshot is written exactly once.
pub fn merge(
    constants: &DecayConstants,
    processor: Result<u64, SampleError>,
    queue: Result<SamplePair, SampleError>,
) -> (s: LoadSnapshot)
    requires
        constants.wf(),
        queue matches Ok(pair) ==> pair.wf(),
    ensures
        s == merged(*constants, processor, queue),
{
    let processor_activity = match processor {
        Ok(percent) => percent,
        Err(_) => 0,
    };
    match queue {
        Ok(pair) => {
            let averages = get_load_averages(pair, *constants);
            LoadSnapshot {
                processor_activity,
                current_load: pair.second,
                avg_1_load: averages.avg_1,
                avg_5_load: averages.avg_5,
                avg_15_load: averages.avg_15,
            }
        },
        Err(_) => {
            LoadSnapshot {
                processor_activity,
                current_load: 0,
                avg_1_load: 0,
                avg_5_load: 0,
                avg_15_load: 0,
            }
        },
    }
}

/// Law: the current load of any successful queue sample is exactly the
/// second - most recent - reading of the pair, independently of the
/// processor unit's result.
pub proof fn lemma_current_load_is_second(
    c: DecayConstants,
    processor: Result<u64, SampleError>,
    pair: SamplePair,
)
    ensures
        merged(c, processor, Ok(pair)).current_load == pair.second,
{
}

/// Law: unit independence.  A failed processor unit contributes exactly the
/// sentinel zero for processor activity, and the queue-derived fields are
/// whatever the queue unit alone determines: they coincide with the fields
/// merged from any other processor result.
pub proof fn lemma_processor_failure_independent(
    c: DecayConstants,
    e: SampleError,
    other: Result<u64, SampleError>,
    queue: Result<SamplePair, SampleError>,
)
    ensures
        merged(c, Err(e), queue).processor_activity == 0,
        merged(c, Err(e), queue).current_load == merged(c, other, queue).current_load,
        merged(c, Err(e), queue).avg_1_load == merged(c, other, queue).avg_1_load,
        merged(c, Err(e), queue).avg_5_load == merged(c, other, queue).avg_5_load,
        merged(c, Err(e), queue).avg_15_load == merged(c, other, queue).avg_15_load,
{
}

/// Law: unit independence, the other way.  A failed queue unit contributes
/// the sentinel zero for the current load and all three averages, and the
/// processor field is whatever the processor unit alone determined.
pub proof fn lemma_queue_failure_independent(
    c: DecayConstants,
    e: SampleError,
    other: Result<SamplePair, SampleError>,
    processor: Result<u64, SampleError>,
)
    ensures
        merged(c, processor, Err(e)).current_load == 0,
        merged(c, processor, Err(e)).avg_1_load == 0,
        merged(c, processor, Err(e)).avg_5_load == 0,
        merged(c, processor, Err(e)).avg_15_load == 0,
        merged(c, processor, Err(e)).processor_activity == merged(
            c,
            processor,
            other,
        ).processor_activity,
{
}

/// Law: when both concurrent units fail, the merged snapshot is exactly the
/// all-zero sentinel.
pub proof fn lemma_total_failure_is_sentinel(c: DecayConstants, e1: SampleError, e2: SampleError)
    ensures
        merged(c, Err(e1), Err(e2)) == LoadSnapshot::zero_spec(),
{
}

/// Law: a sampling pass carries no state.  The merged snapshot is a
/// function of the two unit results and the constants alone, so two passes
/// whose units report the same results produce identical snapshots; two
/// passes differ only where their fresh samples differ.
pub proof fn lemma_pass_stateless(
    c: DecayConstants,
    processor_a: Result<u64, SampleError>,
    queue_a: Result<SamplePair, SampleError>,
    processor_b: Result<u64, SampleError>,
    queue_b: Result<SamplePair, SampleError>,
)
    requires
        processor_a == processor_b,
        queue_a == queue_b,
    ensures
        merged(c, processor_a, queue_a) == merged(c, processor_b, queue_b),
{
}

} // verus!
