//! A single-process engine for synthetic workload tasks.
//!
//! A task is submitted, tracked through the lifecycle Pending -> Running ->
//! Finished, run by one of three workload simulators (CPU-, memory- or
//! I/O-bound), and reported on by a stats aggregator that folds the whole
//! store into counts and average timings.

pub mod models;

pub mod host;

pub mod lifecycle;

pub mod sim;

pub mod store;

pub mod stats;

pub mod engine;






