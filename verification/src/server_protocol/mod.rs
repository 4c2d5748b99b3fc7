//! The client/relay-server protocol: its messages, their validation, the
//! device-authentication payload and HMAC-signed invite links.

pub mod messages;
pub mod invites;
pub mod contacts;
