//! Errors of the storage layer.

use vstd::prelude::*;
use crate::crypto::error::{crypto_error_text_spec, CryptoError};
use crate::ids::{core_error_text_spec, CoreError};
use crate::text::{decimal_spec, push_decimal, push_str};

verus! {

#[derive(Debug, Clone, PartialEq, Eq)]
pub enum StorageError {
    Core(CoreError),
    Crypto(CryptoError),
    Sqlite(String),
    Serialization(String),
    InvalidStorageKeyLength(usize),
    InvalidRecordVersion(u8),
    InvalidIdentifier { field: &'static str, value: String },
    EmptyCiphertext,
    LocalDeviceIdentityMismatch,
    LocalPrekeyIdentityMismatch,
    EncryptionFailed,
    DecryptionFailed,
}

/// The text each storage error prints.
pub open spec fn storage_error_text_spec(e: StorageError) -> Seq<char> {
    match e {
        StorageError::Core(e) => "core error: "@ + core_error_text_spec(e),
        StorageError::Crypto(e) => "crypto error: "@ + crypto_error_text_spec(e),
        StorageError::Sqlite(e) => "sqlite error: "@ + e@,
        StorageError::Serialization(e) => "serialization error: "@ + e@,
        StorageError::InvalidStorageKeyLength(n) => "storage key must be 32 bytes, got "@ + decimal_spec(n as nat),
        StorageError::InvalidRecordVersion(v) => "unsupported encrypted record version "@ + decimal_spec(v as nat),
        StorageError::InvalidIdentifier { field, value } => field@ + " '"@ + value@ + "' contains unsupported characters"@,
        StorageError::EmptyCiphertext => "ciphertext cannot be empty"@,
        StorageError::LocalDeviceIdentityMismatch => "local device identity does not match the stored identity key"@,
        StorageError::LocalPrekeyIdentityMismatch => "local prekey store identity does not match the device"@,
        StorageError::EncryptionFailed => "at-rest encryption failed"@,
        StorageError::DecryptionFailed => "at-rest decryption failed"@,
    }
}

impl StorageError {
    /// The text of the error.
    pub fn message(&self) -> (r: String)
        ensures
            r@ == storage_error_text_spec(*self),
    {
        let mut out = String::new();
        match self {
            StorageError::Core(e) => {
                push_str(&mut out, "core error: ");
                push_str(&mut out, e.message().as_str());
            },
            StorageError::Crypto(e) => {
                push_str(&mut out, "crypto error: ");
                push_str(&mut out, e.message().as_str());
            },
            StorageError::Sqlite(e) => {
                push_str(&mut out, "sqlite error: ");
                push_str(&mut out, e.as_str());
            },
            StorageError::Serialization(e) => {
                push_str(&mut out, "serialization error: ");
                push_str(&mut out, e.as_str());
            },
            StorageError::InvalidStorageKeyLength(n) => {
                push_str(&mut out, "storage key must be 32 bytes, got ");
                push_decimal(&mut out, *n as u64);
            },
            StorageError::InvalidRecordVersion(v) => {
                push_str(&mut out, "unsupported encrypted record version ");
                push_decimal(&mut out, *v as u64);
            },
            StorageError::InvalidIdentifier { field, value } => {
                push_str(&mut out, field);
                push_str(&mut out, " '");
                push_str(&mut out, value.as_str());
                push_str(&mut out, "' contains unsupported characters");
            },
            StorageError::EmptyCiphertext => push_str(&mut out, "ciphertext cannot be empty"),
            StorageError::LocalDeviceIdentityMismatch => push_str(
                &mut out,
                "local device identity does not match the stored identity key",
            ),
            StorageError::LocalPrekeyIdentityMismatch => push_str(
                &mut out,
                "local prekey store identity does not match the device",
            ),
            StorageError::EncryptionFailed => push_str(&mut out, "at-rest encryption failed"),
            StorageError::DecryptionFailed => push_str(&mut out, "at-rest decryption failed"),
        }
        assert(out@ =~= storage_error_text_spec(*self));
        out
    }
}

} // verus!
