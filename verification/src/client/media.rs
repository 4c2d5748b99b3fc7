//! Media sent through the relay: sealed with a fresh key, identified by the
//! digest of its ciphertext.

use vstd::prelude::*;
use crate::outside::{
    aes256gcm_decrypt, aes256gcm_encrypt, aes256gcm_open, aes256gcm_seal, base64_standard_encode,
    base64_standard_encode_bytes, random_bytes_12, random_bytes_32, sha256, sha256_digest,
};
use crate::server_protocol::messages::MediaKind;
use crate::text::{hex_encode, hex_spec, owned, push_str, starts_with, starts_with_spec};

verus! {

/// The largest media file the relay takes: 5 MiB.
pub const RELAY_MEDIA_MAX_BYTES: usize = 5242880;

/// How a media file travels.
#[derive(Debug, Clone, Copy, PartialEq, Eq, Structural)]
pub enum MediaRoute {
    RelayBlobStore,
    DirectQuic,
}

impl MediaRoute {
    pub fn label(self) -> (r: &'static str)
        ensures
            r@ == match self {
                MediaRoute::RelayBlobStore => "server_blob_store"@,
                MediaRoute::DirectQuic => "p2p_quic_direct"@,
            },
    {
        match self {
            MediaRoute::RelayBlobStore => "server_blob_store",
            MediaRoute::DirectQuic => "p2p_quic_direct",
        }
    }
}

/// A sealed media file with the key and nonce that open it.
#[derive(Debug, Clone)]
pub struct EncryptedBlob {
    pub ciphertext: Vec<u8>,
    pub key: [u8; 32],
    pub nonce: [u8; 12],
    pub sha256_hex: String,
}

/// What a direct transfer delivered.
#[derive(Debug, Clone)]
pub struct DirectTransferReceipt {
    pub transfer_id: String,
    pub transferred_bytes: u64,
    pub sha256_hex: String,
}

/// Images are photos; everything else is a file.
pub fn media_kind_for_mime(mime_type: &str) -> (r: MediaKind)
    ensures
        r == (if starts_with_spec(mime_type@, "image/"@) { MediaKind::Photo } else { MediaKind::File }),
{
    if starts_with(mime_type, "image/") {
        MediaKind::Photo
    } else {
        MediaKind::File
    }
}

/// Lower-case hex of the SHA-256 digest of `bytes`.
pub fn sha256_hex(bytes: &[u8]) -> (r: String)
    ensures
        r@ == hex_spec(sha256(bytes@)),
{
    let digest = sha256_digest(bytes);
    hex_encode(&digest)
}

/// Seals `plaintext` under `key` and `nonce` (no associated data). Fails only
/// for a plaintext over 2^36 bytes. The blob opens again to the plaintext.
pub fn encrypt_blob_with(plaintext: &[u8], key: [u8; 32], nonce: [u8; 12]) -> (r: Result<EncryptedBlob, String>)
    ensures
        r is Ok <==> plaintext@.len() <= 0x10_0000_0000,
        r matches Err(e) ==> e@ == "blob encryption failed"@,
        r matches Ok(b) ==> b.key == key && b.nonce == nonce && b.ciphertext@ == aes256gcm_seal(
            key@,
            nonce@,
            plaintext@,
            Seq::empty(),
        ) && b.sha256_hex@ == hex_spec(sha256(b.ciphertext@)),
        r matches Ok(b) ==> aes256gcm_open(b.key@, b.nonce@, b.ciphertext@, Seq::empty()) == Some(
            plaintext@,
        ),
{
    let empty: [u8; 0] = [];
    proof {
        assert(empty@ =~= Seq::<u8>::empty());
    }
    match aes256gcm_encrypt(&key, &nonce, plaintext, &empty) {
        None => Err(owned("blob encryption failed")),
        Some(ciphertext) => {
            let sha256_hex = sha256_hex(ciphertext.as_slice());
            Ok(EncryptedBlob { ciphertext, key, nonce, sha256_hex })
        },
    }
}

/// Seals `plaintext` under a fresh random key and nonce.
pub fn encrypt_blob(plaintext: &[u8]) -> (r: Result<EncryptedBlob, String>)
    ensures
        r is Ok <==> plaintext@.len() <= 0x10_0000_0000,
        r matches Err(e) ==> e@ == "blob encryption failed"@,
        r matches Ok(b) ==> b.ciphertext@ == aes256gcm_seal(b.key@, b.nonce@, plaintext@, Seq::empty())
            && b.sha256_hex@ == hex_spec(sha256(b.ciphertext@)),
        r matches Ok(b) ==> aes256gcm_open(b.key@, b.nonce@, b.ciphertext@, Seq::empty()) == Some(
            plaintext@,
        ),
{
    let key = random_bytes_32();
    let nonce = random_bytes_12();
    encrypt_blob_with(plaintext, key, nonce)
}

/// Opens a sealed blob; a tampered ciphertext, key or nonce fails.
pub fn decrypt_blob(blob: &EncryptedBlob) -> (r: Result<Vec<u8>, String>)
    ensures
        match r {
            Ok(p) => aes256gcm_open(blob.key@, blob.nonce@, blob.ciphertext@, Seq::empty()) == Some(p@),
            Err(e) => aes256gcm_open(blob.key@, blob.nonce@, blob.ciphertext@, Seq::empty()) is None
                && e@ == "blob decryption failed"@,
        },
{
    let empty: [u8; 0] = [];
    proof {
        assert(empty@ =~= Seq::<u8>::empty());
    }
    match aes256gcm_decrypt(&blob.key, &blob.nonce, blob.ciphertext.as_slice(), &empty) {
        None => Err(owned("blob decryption failed")),
        Some(p) => Ok(p),
    }
}

/// `data:<mime type>;base64,<standard Base64 of the bytes>`.
pub fn data_url(mime_type: &str, bytes: &[u8]) -> (r: String)
    ensures
        r@ == "data:"@ + mime_type@ + ";base64,"@ + base64_standard_encode(bytes@),
{
    let mut out = owned("data:");
    push_str(&mut out, mime_type);
    push_str(&mut out, ";base64,");
    let encoded = base64_standard_encode_bytes(bytes);
    push_str(&mut out, encoded.as_str());
    out
}

} // verus!
