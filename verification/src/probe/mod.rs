//! Probe targets, the target security policy, batch scanning and the
//! assembly of a probe's result.

pub mod policy;
pub mod target;
pub mod model;
pub mod batch;
pub mod run;
