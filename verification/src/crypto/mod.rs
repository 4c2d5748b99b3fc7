//! Identity keys, signed and one-time prekeys, the X3DH bootstrap and the
//! Double Ratchet.

pub mod error;
pub mod identity;
pub mod kdf;
pub mod prekey;
pub mod ratchet;
pub mod skipped;
pub mod x3dh;
