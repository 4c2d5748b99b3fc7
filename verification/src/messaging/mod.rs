//! Pairwise messaging: envelopes, the reliable delivery engine, and group
//! sender keys.

pub mod envelope;
pub mod error;
pub mod engine;
pub mod group;
pub mod group_session;
pub mod session;
