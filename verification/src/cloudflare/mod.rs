//! Cloudflare's published ranges and the decisions of their cache.

pub mod ranges;
pub mod client;
pub mod cache;
pub mod refresh;
