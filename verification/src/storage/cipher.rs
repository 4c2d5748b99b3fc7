//! The at-rest cipher: each record is sealed with AES-256-GCM under the
//! storage key, bound to its namespace and lookup key, and framed with a
//! version and its nonce.

use vstd::prelude::*;
use vstd::utf8::encode_utf8;
use crate::bytes::extend_bytes;
use crate::contexts::{storage_aad_prefix, storage_aad_prefix_spec, storage_index_prefix, storage_index_prefix_spec};
use crate::outside::{aes256gcm_decrypt, aes256gcm_encrypt, aes256gcm_open, aes256gcm_seal, random_bytes_12, sha256, sha256_digest};
use crate::storage::error::StorageError;
use crate::storage::models::StorageKey;
use crate::wire::{
    bytes_frame, lemma_parse_array12, lemma_parse_bytes, lemma_parse_u8, parse_array12, parse_bytes, parse_u8,
    read_array12, read_bytes, read_u8, write_bytes,
};

verus! {

/// Version of the sealed record format.
pub const ENCRYPTED_BLOB_VERSION: u8 = 1;

/// The associated data of a record: a context, the namespace and the lookup key.
pub open spec fn storage_aad_spec(namespace: Seq<char>, lookup_key: Seq<u8>) -> Seq<u8> {
    storage_aad_prefix_spec() + encode_utf8(namespace) + lookup_key
}

/// A sealed record: version, nonce, then the ciphertext behind its length.
pub open spec fn blob_bytes(version: u8, nonce: Seq<u8>, ciphertext: Seq<u8>) -> Seq<u8> {
    seq![version] + (nonce + bytes_frame(ciphertext))
}

/// The version, nonce and ciphertext a sealed record starts with.
pub open spec fn parse_blob(b: Seq<u8>) -> Option<(u8, Seq<u8>, Seq<u8>)> {
    match parse_u8(b) {
        None => None,
        Some((version, b1)) => match parse_array12(b1) {
            None => None,
            Some((nonce, b2)) => match parse_bytes(b2) {
                None => None,
                Some((ciphertext, _)) => Some((version, nonce, ciphertext)),
            },
        },
    }
}

/// Why a sealed record does not open.
pub enum RecordRefusal {
    Malformed,
    Version(u8),
    DecryptionFailed,
}

/// The error by which a refused record is reported.
pub open spec fn record_refused_as(e: StorageError, f: RecordRefusal) -> bool {
    match f {
        RecordRefusal::Malformed => e matches StorageError::Serialization(_),
        RecordRefusal::Version(v) => e == StorageError::InvalidRecordVersion(v),
        RecordRefusal::DecryptionFailed => e == StorageError::DecryptionFailed,
    }
}

/// Opening a sealed record under a key, for a namespace and lookup key.
pub open spec fn open_record_spec(key: Seq<u8>, namespace: Seq<char>, lookup_key: Seq<u8>, blob: Seq<u8>) -> Result<Seq<u8>, RecordRefusal> {
    match parse_blob(blob) {
        None => Err(RecordRefusal::Malformed),
        Some((version, nonce, ciphertext)) => if version != ENCRYPTED_BLOB_VERSION {
            Err(RecordRefusal::Version(version))
        } else {
            match aes256gcm_open(key, nonce, ciphertext, storage_aad_spec(namespace, lookup_key)) {
                Some(p) => Ok(p),
                None => Err(RecordRefusal::DecryptionFailed),
            }
        },
    }
}

/// The opaque key a record is filed under: SHA-256 of a context, the
/// namespace and the identifier.
pub open spec fn lookup_key_spec(namespace: Seq<char>, identifier: Seq<char>) -> Seq<u8> {
    sha256(storage_index_prefix_spec() + encode_utf8(namespace) + encode_utf8(identifier))
}

pub fn opaque_lookup_key(namespace: &str, identifier: &str) -> (r: [u8; 32])
    ensures
        r@ == lookup_key_spec(namespace@, identifier@),
{
    let mut input = storage_index_prefix();
    extend_bytes(&mut input, namespace.as_bytes());
    extend_bytes(&mut input, identifier.as_bytes());
    sha256_digest(&input)
}

fn associated_data(namespace: &str, lookup_key: &[u8]) -> (r: Vec<u8>)
    ensures
        r@ == storage_aad_spec(namespace@, lookup_key@),
{
    let mut aad = storage_aad_prefix();
    extend_bytes(&mut aad, namespace.as_bytes());
    extend_bytes(&mut aad, lookup_key);
    aad
}

/// Seals records under one storage key.
#[derive(Clone)]
pub struct AtRestCipher {
    storage_key: StorageKey,
}

impl View for AtRestCipher {
    type V = Seq<u8>;

    closed spec fn view(&self) -> Seq<u8> {
        self.storage_key@
    }
}

impl AtRestCipher {
    pub fn new(storage_key: StorageKey) -> (r: AtRestCipher)
        ensures
            r@ == storage_key@,
    {
        AtRestCipher { storage_key }
    }

    /// Seals a record with the given nonce.  It opens again under the same
    /// key, namespace and lookup key to the plaintext.
    pub fn encrypt_with(&self, namespace: &str, lookup_key: &[u8], plaintext: &[u8], nonce: [u8; 12]) -> (r: Result<
        Vec<u8>,
        StorageError,
    >)
        ensures
            plaintext@.len() <= 0x10_0000_0000 && storage_aad_spec(namespace@, lookup_key@).len() <= 0x10_0000_0000
                ==> (r matches Ok(b) && b@ == blob_bytes(
                ENCRYPTED_BLOB_VERSION,
                nonce@,
                aes256gcm_seal(self@, nonce@, plaintext@, storage_aad_spec(namespace@, lookup_key@)),
            ) && open_record_spec(self@, namespace@, lookup_key@, b@) == Ok::<Seq<u8>, RecordRefusal>(plaintext@)),
            !(plaintext@.len() <= 0x10_0000_0000 && storage_aad_spec(namespace@, lookup_key@).len() <= 0x10_0000_0000)
                ==> r == Err::<Vec<u8>, StorageError>(StorageError::EncryptionFailed),
    {
        let aad = associated_data(namespace, lookup_key);
        let ciphertext = match aes256gcm_encrypt(self.storage_key.as_bytes(), &nonce, plaintext, aad.as_slice()) {
            Some(c) => c,
            None => return Err(StorageError::EncryptionFailed),
        };
        let mut out: Vec<u8> = Vec::new();
        out.push(ENCRYPTED_BLOB_VERSION);
        extend_bytes(&mut out, &nonce);
        write_bytes(&mut out, ciphertext.as_slice());
        proof {
            let c = ciphertext@;
            assert(out@ =~= blob_bytes(ENCRYPTED_BLOB_VERSION, nonce@, c));
            lemma_parse_u8(ENCRYPTED_BLOB_VERSION, nonce@ + bytes_frame(c));
            lemma_parse_array12(nonce@, bytes_frame(c));
            assert(bytes_frame(c) + Seq::<u8>::empty() =~= bytes_frame(c));
            lemma_parse_bytes(c, Seq::<u8>::empty());
        }
        Ok(out)
    }

    /// Seals a record under a fresh random nonce.
    pub fn encrypt(&self, namespace: &str, lookup_key: &[u8], plaintext: &[u8]) -> (r: Result<Vec<u8>, StorageError>)
        ensures
            plaintext@.len() <= 0x10_0000_0000 && storage_aad_spec(namespace@, lookup_key@).len() <= 0x10_0000_0000
                ==> (r matches Ok(b) && open_record_spec(self@, namespace@, lookup_key@, b@) == Ok::<
                Seq<u8>,
                RecordRefusal,
            >(plaintext@)),
            !(plaintext@.len() <= 0x10_0000_0000 && storage_aad_spec(namespace@, lookup_key@).len() <= 0x10_0000_0000)
                ==> r == Err::<Vec<u8>, StorageError>(StorageError::EncryptionFailed),
    {
        let nonce = random_bytes_12();
        self.encrypt_with(namespace, lookup_key, plaintext, nonce)
    }

    /// Opens a sealed record.
    pub fn decrypt(&self, namespace: &str, lookup_key: &[u8], blob_bytes: &[u8]) -> (r: Result<Vec<u8>, StorageError>)
        ensures
            match open_record_spec(self@, namespace@, lookup_key@, blob_bytes@) {
                Ok(p) => r matches Ok(x) && x@ == p,
                Err(f) => r matches Err(e) && record_refused_as(e, f),
            },
    {
        assert(blob_bytes@.skip(0) =~= blob_bytes@);
        let (version, p) = match read_u8(blob_bytes, 0) {
            Some(x) => x,
            None => return Err(StorageError::Serialization(crate::text::owned("malformed encrypted record"))),
        };
        let (nonce, p) = match read_array12(blob_bytes, p) {
            Some(x) => x,
            None => return Err(StorageError::Serialization(crate::text::owned("malformed encrypted record"))),
        };
        let (ciphertext, _p) = match read_bytes(blob_bytes, p) {
            Some(x) => x,
            None => return Err(StorageError::Serialization(crate::text::owned("malformed encrypted record"))),
        };
        if version != ENCRYPTED_BLOB_VERSION {
            return Err(StorageError::InvalidRecordVersion(version));
        }
        let aad = associated_data(namespace, lookup_key);
        match aes256gcm_decrypt(self.storage_key.as_bytes(), &nonce, ciphertext.as_slice(), aad.as_slice()) {
            Some(p) => Ok(p),
            None => Err(StorageError::DecryptionFailed),
        }
    }
}

} // verus!
