//! Errors of the key-agreement and ratchet layer.

use vstd::prelude::*;
use crate::text::{decimal_spec, push_decimal, push_str};

verus! {

#[derive(Debug, Clone, PartialEq, Eq)]
pub enum CryptoError {
    InvalidSignature,
    MissingSignedPrekey(u32),
    MissingOneTimePrekey(u32),
    MissingSendingChain,
    MissingReceivingChain,
    InvalidHeaderVersion(u8),
    ReplayOrDuplicateMessage(u32),
    MessageNumberTooFarAhead { current: u32, requested: u32, max_skip: u32 },
    Serialization(String),
    EncryptionFailed,
    DecryptionFailed,
    InvalidKeyMaterial(&'static str),
}

/// The text each error prints.
pub open spec fn crypto_error_text_spec(e: CryptoError) -> Seq<char> {
    match e {
        CryptoError::InvalidSignature => "invalid prekey signature"@,
        CryptoError::MissingSignedPrekey(id) => "missing signed prekey "@ + decimal_spec(id as nat),
        CryptoError::MissingOneTimePrekey(id) => "missing one-time prekey "@ + decimal_spec(id as nat),
        CryptoError::MissingSendingChain => "missing sending chain"@,
        CryptoError::MissingReceivingChain => "missing receiving chain"@,
        CryptoError::InvalidHeaderVersion(v) => "unsupported message header version "@ + decimal_spec(v as nat),
        CryptoError::ReplayOrDuplicateMessage(n) => "message "@ + decimal_spec(n as nat) + " was already processed"@,
        CryptoError::MessageNumberTooFarAhead { current, requested, max_skip } =>
            "message number advanced too far: current="@ + decimal_spec(current as nat) + ", requested="@
            + decimal_spec(requested as nat) + ", max_skip="@ + decimal_spec(max_skip as nat),
        CryptoError::Serialization(m) => "serialization error: "@ + m@,
        CryptoError::EncryptionFailed => "message encryption failed"@,
        CryptoError::DecryptionFailed => "message decryption failed"@,
        CryptoError::InvalidKeyMaterial(label) => "invalid key material for "@ + label@,
    }
}

impl CryptoError {
    /// The text of the error.
    pub fn message(&self) -> (r: String)
        ensures
            r@ == crypto_error_text_spec(*self),
    {
        let mut out = String::new();
        match self {
            CryptoError::InvalidSignature => push_str(&mut out, "invalid prekey signature"),
            CryptoError::MissingSignedPrekey(id) => {
                push_str(&mut out, "missing signed prekey ");
                push_decimal(&mut out, *id as u64);
            },
            CryptoError::MissingOneTimePrekey(id) => {
                push_str(&mut out, "missing one-time prekey ");
                push_decimal(&mut out, *id as u64);
            },
            CryptoError::MissingSendingChain => push_str(&mut out, "missing sending chain"),
            CryptoError::MissingReceivingChain => push_str(&mut out, "missing receiving chain"),
            CryptoError::InvalidHeaderVersion(v) => {
                push_str(&mut out, "unsupported message header version ");
                push_decimal(&mut out, *v as u64);
            },
            CryptoError::ReplayOrDuplicateMessage(n) => {
                push_str(&mut out, "message ");
                push_decimal(&mut out, *n as u64);
                push_str(&mut out, " was already processed");
            },
            CryptoError::MessageNumberTooFarAhead { current, requested, max_skip } => {
                push_str(&mut out, "message number advanced too far: current=");
                push_decimal(&mut out, *current as u64);
                push_str(&mut out, ", requested=");
                push_decimal(&mut out, *requested as u64);
                push_str(&mut out, ", max_skip=");
                push_decimal(&mut out, *max_skip as u64);
            },
            CryptoError::Serialization(m) => {
                push_str(&mut out, "serialization error: ");
                push_str(&mut out, m.as_str());
            },
            CryptoError::EncryptionFailed => push_str(&mut out, "message encryption failed"),
            CryptoError::DecryptionFailed => push_str(&mut out, "message decryption failed"),
            CryptoError::InvalidKeyMaterial(label) => {
                push_str(&mut out, "invalid key material for ");
                push_str(&mut out, label);
            },
        }
        assert(out@ =~= crypto_error_text_spec(*self));
        out
    }
}

} // verus!
