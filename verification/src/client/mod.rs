//! The desktop client's decisions: which route carries a message, how media
//! is sealed for the relay, and what the interface shows.

pub mod relay;
pub mod media;
pub mod views;
pub mod runtime;
pub mod chats;
pub mod transfer;
pub mod trust;
pub mod sending;
pub mod verification;
pub mod labels;
pub mod auth;
pub mod status;
pub mod direct;
pub mod peers;
pub mod peer_list;
