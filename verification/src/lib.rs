//! Local-first secure messenger core: identifiers, planning model, discovery
//! records, relay protocol checks, messaging engine, group sender keys and
//! the double ratchet, each stated and proved with Verus.

pub mod text;
pub mod ids;
pub mod bytes;
pub mod wire;
pub mod contexts;
pub mod outside;
pub mod crypto;
pub mod device;
pub mod member;
pub mod maps;
pub mod messaging;
pub mod planning;
pub mod server_protocol;
pub mod discovery;
pub mod client;
pub mod server;
pub mod storage;
