//! Local-network discovery: the announcement a device publishes, its TXT
//! records and the peers found from them.

pub mod peer;
pub mod txt;
pub mod laws;
pub mod registry;
pub mod service;
pub mod address;
