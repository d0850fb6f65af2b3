//! Purchase-validation protocol: signed request envelopes, response
//! verification, and the bookkeeping of the sequential and load-test runners.

pub mod fields;
pub mod model;
pub mod codec;
pub mod validation;
pub mod schedule;
pub mod runner;
pub mod loadtest;
pub mod arguments;
pub mod load_arguments;
