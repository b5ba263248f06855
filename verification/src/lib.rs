//! Planning for a throughput benchmark of concurrent key-value maps.
//!
//! The crate decides *what* a benchmark run consists of: which operation
//! mixes are measured, with how many worker threads, against which map, in
//! which order, and where deferred memory reclamation is forced between
//! measurements. Running a measurement and printing belong to the caller.

pub mod mix;
pub mod reclaim;
pub mod workload;
pub mod schedule;
pub mod guarantees;
