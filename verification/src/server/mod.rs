//! The relay server's rules: device authentication, rate limits, routing of
//! peer frames and the use of invites.

pub mod auth;
pub mod rate_limit;
pub mod relay;
pub mod session;
pub mod cli;
pub mod invites;
