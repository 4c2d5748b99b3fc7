//! The group-chat planning model: group configuration and policy, the member
//! roster, chat-message validation, invite tokens and the rekey plan.

pub mod security;
pub mod config;
pub mod domain;
pub mod invite;
pub mod workflow;
