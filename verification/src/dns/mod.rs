//! The DNS stage.

pub mod model;
pub mod aggregate;
pub mod resolution;
pub mod names;
pub mod cache;
pub mod health;
