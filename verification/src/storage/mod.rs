//! Encrypted local storage: the records a device keeps, the at-rest cipher
//! that seals them, and the opaque keys they are filed under.

pub mod error;
pub mod models;
pub mod cipher;
pub mod records;
