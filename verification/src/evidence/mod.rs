//! The evidence model and the policy-driven scoring engine.

pub mod model;
pub mod tables;
pub mod policy;
pub mod matching;
pub mod scoring;
pub mod summary;
pub mod engine;
pub mod laws;
