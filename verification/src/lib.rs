//! A point-in-time host telemetry library.
//!
//! The heart of the crate is the load/activity sampling engine: a sampler
//! protocol that drives one performance-counter session through
//! open - attach - collect - read - release - close, a pure load-average
//! model that smooths two successive run-queue readings with exponential
//! decay constants, and a coordinator merge that combines the two
//! independently sampled metrics into one immutable snapshot.
//!
//! All scalar readings and averages are fixed-point numbers: a value `v`
//! stands for the real quantity `v / SCALE` (see [`model::SCALE`]).  The
//! operating-system metric provider itself lives outside this crate; callers
//! perform the provider calls that the sampler state machine requests and
//! feed the results back as events.

pub mod disks;
pub mod host;
pub mod model;
pub mod sampler;
pub mod snapshot;
