//! The calls into outside cryptographic and encoding crates, each behind a
//! small trusted wrapper whose contract Verus takes on trust.

use vstd::prelude::*;
use aes_gcm::aead::{Aead, Payload};
use aes_gcm::{Aes256Gcm, KeyInit, Nonce};
use base64::Engine;
use ed25519_dalek::{Signer, Verifier};
use hmac::Mac;
use rand_core::RngCore;
use sha2::Digest;
use vstd::utf8::{decode_utf8, valid_utf8};

verus! {

/// The X25519 public key that `x25519_dalek` derives from a secret scalar.
pub uninterp spec fn x25519_public(secret: Seq<u8>) -> Seq<u8>;

/// The X25519 shared secret of a local secret scalar and a remote public key.
pub uninterp spec fn x25519_shared(secret: Seq<u8>, public: Seq<u8>) -> Seq<u8>;

/// The Ed25519 verifying key of a signing seed.
pub uninterp spec fn ed25519_public(seed: Seq<u8>) -> Seq<u8>;

/// The deterministic Ed25519 signature of a message under a signing seed.
pub uninterp spec fn ed25519_signature(seed: Seq<u8>, message: Seq<u8>) -> Seq<u8>;

/// Whether `ed25519_dalek` accepts a signature of a message under a public key.
pub uninterp spec fn ed25519_accepts(public: Seq<u8>, message: Seq<u8>, signature: Seq<u8>) -> bool;

/// The HKDF-SHA256 output of `len` bytes for a salt, input key material and info.
pub uninterp spec fn hkdf_sha256(salt: Option<Seq<u8>>, ikm: Seq<u8>, info: Seq<u8>, len: nat) -> Seq<u8>;

/// The AES-256-GCM ciphertext (tag appended) of a plaintext.
pub uninterp spec fn aes256gcm_seal(key: Seq<u8>, nonce: Seq<u8>, plaintext: Seq<u8>, aad: Seq<u8>) -> Seq<u8>;

/// The AES-256-GCM plaintext of a ciphertext, or `None` where authentication fails.
pub uninterp spec fn aes256gcm_open(key: Seq<u8>, nonce: Seq<u8>, ciphertext: Seq<u8>, aad: Seq<u8>) -> Option<Seq<u8>>;

/// The SHA-256 digest of a byte string.
pub uninterp spec fn sha256(data: Seq<u8>) -> Seq<u8>;

/// Whether 32 bytes decode as an Ed25519 verifying key.
pub uninterp spec fn ed25519_key_valid(public: Seq<u8>) -> bool;

/// The HMAC-SHA256 tag of a message under a key.
pub uninterp spec fn hmac_sha256(key: Seq<u8>, message: Seq<u8>) -> Seq<u8>;

/// The URL-safe, unpadded Base64 text of a byte string.
pub uninterp spec fn base64_url_encode(data: Seq<u8>) -> Seq<char>;

/// The bytes of a URL-safe, unpadded Base64 text, or `None` where it is malformed.
pub uninterp spec fn base64_url_decode(text: Seq<char>) -> Option<Seq<u8>>;

/// The text of the error that decoding a malformed URL-safe Base64 text reports.
pub uninterp spec fn base64_url_decode_error(text: Seq<char>) -> Seq<char>;

/// The standard, padded Base64 text of a byte string.
pub uninterp spec fn base64_standard_encode(data: Seq<u8>) -> Seq<char>;

/// The text `String::from_utf8_lossy` makes of a byte string.
pub uninterp spec fn utf8_lossy(bytes: Seq<u8>) -> Seq<char>;

/// The bytes of a standard, padded Base64 text, or `None` where it is malformed.
pub uninterp spec fn base64_standard_decode(text: Seq<char>) -> Option<Seq<u8>>;

/// The text of the error that decoding a malformed standard Base64 text reports.
pub uninterp spec fn base64_standard_decode_error(text: Seq<char>) -> Seq<char>;

/// A character of the URL-safe Base64 alphabet.
pub open spec fn is_base64_url_char(c: char) -> bool {
    ('A' <= c && c <= 'Z') || ('a' <= c && c <= 'z') || ('0' <= c && c <= '9') || c == '-' || c
        == '_'
}

/// `x25519_dalek::PublicKey::from(&StaticSecret::from(secret))`: the public
/// key of a secret scalar, named `x25519_public`.
#[verifier::external_body]
pub(crate) fn x25519_public_key(secret: &[u8; 32]) -> (r: [u8; 32])
    ensures
        r@ == x25519_public(secret@),
{
    let secret = x25519_dalek::StaticSecret::from(*secret);
    x25519_dalek::PublicKey::from(&secret).to_bytes()
}

/// `StaticSecret::diffie_hellman`: the shared secret of a secret scalar and a
/// remote public key, named `x25519_shared`.  As Diffie-Hellman it agrees
/// with the other side: when the remote public key is that of a secret `b`,
/// the result is also what `b` computes against this secret's public key.
#[verifier::external_body]
pub(crate) fn x25519_diffie_hellman(secret: &[u8; 32], remote_public: &[u8; 32]) -> (r: [u8; 32])
    ensures
        r@ == x25519_shared(secret@, remote_public@),
        forall|b: Seq<u8>| #[trigger] x25519_public(b) == remote_public@ && b.len() == 32
            ==> r@ == x25519_shared(b, x25519_public(secret@)),
{
    let secret = x25519_dalek::StaticSecret::from(*secret);
    let remote = x25519_dalek::PublicKey::from(*remote_public);
    secret.diffie_hellman(&remote).to_bytes()
}

/// `OsRng::fill_bytes` on 32 bytes: fresh randomness, of which nothing is stated.
#[verifier::external_body]
pub(crate) fn random_bytes_32() -> (r: [u8; 32]) {
    let mut bytes = [0u8; 32];
    rand_core::OsRng.fill_bytes(&mut bytes);
    bytes
}

/// `OsRng::fill_bytes` on 12 bytes: fresh randomness, of which nothing is stated.
#[verifier::external_body]
pub(crate) fn random_bytes_12() -> (r: [u8; 12]) {
    let mut bytes = [0u8; 12];
    rand_core::OsRng.fill_bytes(&mut bytes);
    bytes
}

/// `OsRng::next_u32`: a fresh random number, of which nothing is stated.
#[verifier::external_body]
pub(crate) fn random_u32() -> (r: u32) {
    rand_core::OsRng.next_u32()
}

/// `SigningKey::from_bytes(seed).verifying_key().to_bytes()`: the Ed25519
/// verifying key of a seed, named `ed25519_public`.
#[verifier::external_body]
pub(crate) fn ed25519_verifying_key(seed: &[u8; 32]) -> (r: [u8; 32])
    ensures
        r@ == ed25519_public(seed@),
{
    ed25519_dalek::SigningKey::from_bytes(seed).verifying_key().to_bytes()
}

/// `SigningKey::from_bytes(seed).sign(message).to_bytes()`: the Ed25519
/// signature, named `ed25519_signature`; it verifies under the seed's
/// verifying key.
#[verifier::external_body]
pub(crate) fn ed25519_sign(seed: &[u8; 32], message: &[u8]) -> (r: [u8; 64])
    ensures
        r@ == ed25519_signature(seed@, message@),
        ed25519_accepts(ed25519_public(seed@), message@, r@),
{
    ed25519_dalek::SigningKey::from_bytes(seed).sign(message).to_bytes()
}

/// `VerifyingKey::from_bytes(public)` followed by `Verifier::verify`: true
/// exactly where the key decodes and the signature verifies, named
/// `ed25519_accepts`.
#[verifier::external_body]
pub(crate) fn ed25519_verify(public: &[u8; 32], message: &[u8], signature: &[u8; 64]) -> (r: bool)
    ensures
        r == ed25519_accepts(public@, message@, signature@),
{
    match ed25519_dalek::VerifyingKey::from_bytes(public) {
        Ok(key) => key.verify(message, &ed25519_dalek::Signature::from_bytes(signature)).is_ok(),
        Err(_) => false,
    }
}

/// `VerifyingKey::from_bytes(public).is_ok()`: whether the bytes decode as
/// a verifying key, named `ed25519_key_valid`; a key that does not decode
/// accepts no signature.
#[verifier::external_body]
pub(crate) fn ed25519_key_decodes(public: &[u8; 32]) -> (r: bool)
    ensures
        r == ed25519_key_valid(public@),
        !r ==> forall|m: Seq<u8>, s: Seq<u8>| !#[trigger] ed25519_accepts(public@, m, s),
{
    ed25519_dalek::VerifyingKey::from_bytes(public).is_ok()
}

/// `Hkdf::<Sha256>::new(salt, ikm).expand(info, okm)` for an output of `len`
/// bytes; `expand` fails only above 255 blocks of 32 bytes, which `requires`
/// rules out.
#[verifier::external_body]
pub(crate) fn hkdf_expand(salt: Option<&[u8]>, ikm: &[u8], info: &[u8], len: usize) -> (r: Vec<u8>)
    requires
        len <= 255 * 32,
    ensures
        r@ == hkdf_sha256(
            match salt {
                Some(s) => Some(s@),
                None => None,
            },
            ikm@,
            info@,
            len as nat,
        ),
        r@.len() == len,
{
    let mut okm = vec![0u8; len];
    hkdf::Hkdf::<sha2::Sha256>::new(salt, ikm).expand(info, &mut okm).unwrap();
    okm
}

/// `Aes256Gcm::encrypt` with a 32-byte key and a 12-byte nonce.  It fails only
/// where the plaintext or the associated data exceed 2^36 bytes; otherwise the
/// ciphertext, named `aes256gcm_seal`, is the plaintext length plus a 16-byte
/// tag, and opening it under the same key, nonce and data gives the plaintext back.
#[verifier::external_body]
pub(crate) fn aes256gcm_encrypt(key: &[u8; 32], nonce: &[u8; 12], plaintext: &[u8], aad: &[u8]) -> (r: Option<Vec<u8>>)
    ensures
        r is Some <==> (plaintext@.len() <= 0x10_0000_0000 && aad@.len() <= 0x10_0000_0000),
        r matches Some(c) ==> c@ == aes256gcm_seal(key@, nonce@, plaintext@, aad@)
            && c@.len() == plaintext@.len() + 16,
        r matches Some(c) ==> aes256gcm_open(key@, nonce@, c@, aad@) == Some(plaintext@),
{
    let cipher = Aes256Gcm::new_from_slice(key).unwrap();
    cipher.encrypt(Nonce::from_slice(nonce), Payload { msg: plaintext, aad }).ok()
}

/// `Aes256Gcm::decrypt` with a 32-byte key and a 12-byte nonce, named
/// `aes256gcm_open`.  As an AEAD it gives back the plaintext of a ciphertext
/// that `encrypt` made under the same key, nonce and associated data; that is
/// the one further fact stated here.
#[verifier::external_body]
pub(crate) fn aes256gcm_decrypt(key: &[u8; 32], nonce: &[u8; 12], ciphertext: &[u8], aad: &[u8]) -> (r: Option<Vec<u8>>)
    ensures
        r matches Some(p) ==> aes256gcm_open(key@, nonce@, ciphertext@, aad@) == Some(p@),
        r is None ==> aes256gcm_open(key@, nonce@, ciphertext@, aad@) is None,
        forall|p: Seq<u8>|
            p.len() <= 0x10_0000_0000 && aad@.len() <= 0x10_0000_0000
                && #[trigger] aes256gcm_seal(key@, nonce@, p, aad@) == ciphertext@ ==> r is Some && r.unwrap()@ == p,
{
    let cipher = Aes256Gcm::new_from_slice(key).unwrap();
    cipher.decrypt(Nonce::from_slice(nonce), Payload { msg: ciphertext, aad }).ok()
}

/// `Sha256::digest`: the 32-byte digest, named `sha256`.
#[verifier::external_body]
pub(crate) fn sha256_digest(data: &[u8]) -> (r: [u8; 32])
    ensures
        r@ == sha256(data@),
{
    sha2::Sha256::digest(data).into()
}

/// `Hmac::<Sha256>::new_from_slice(key)`, `update(message)`, `finalize()`: the
/// 32-byte tag, named `hmac_sha256`.  HMAC accepts keys of every length.
#[verifier::external_body]
pub(crate) fn hmac_sha256_tag(key: &[u8], message: &[u8]) -> (r: [u8; 32])
    ensures
        r@ == hmac_sha256(key@, message@),
{
    let mut mac = <hmac::Hmac<sha2::Sha256> as Mac>::new_from_slice(key).unwrap();
    mac.update(message);
    mac.finalize().into_bytes().into()
}

/// `Mac::verify_slice`: accepts exactly the tag that `hmac_sha256` gives.
#[verifier::external_body]
pub(crate) fn hmac_sha256_verify(key: &[u8], message: &[u8], tag: &[u8]) -> (r: bool)
    ensures
        r == (tag@ == hmac_sha256(key@, message@)),
{
    let mut mac = <hmac::Hmac<sha2::Sha256> as Mac>::new_from_slice(key).unwrap();
    mac.update(message);
    mac.verify_slice(tag).is_ok()
}

/// `URL_SAFE_NO_PAD.encode`, named `base64_url_encode`; its output uses the
/// URL-safe alphabet only.
#[verifier::external_body]
pub(crate) fn base64_url_encode_bytes(data: &[u8]) -> (r: String)
    ensures
        r@ == base64_url_encode(data@),
        forall|i: int| 0 <= i < r@.len() ==> is_base64_url_char(#[trigger] r@[i]),
        base64_url_decode(r@) == Some(data@),
{
    base64::engine::general_purpose::URL_SAFE_NO_PAD.encode(data)
}

/// `URL_SAFE_NO_PAD.decode`, named `base64_url_decode`, with the text of its
/// error named `base64_url_decode_error`; it gives back the bytes of any text
/// that `encode` produced.
#[verifier::external_body]
pub(crate) fn base64_url_decode_text(text: &str) -> (r: Result<Vec<u8>, String>)
    ensures
        r matches Ok(b) ==> base64_url_decode(text@) == Some(b@),
        r matches Err(e) ==> base64_url_decode(text@) is None && e@ == base64_url_decode_error(text@),
        forall|d: Seq<u8>| #[trigger] base64_url_encode(d) == text@ ==> r is Ok && r.unwrap()@ == d,
{
    match base64::engine::general_purpose::URL_SAFE_NO_PAD.decode(text) {
        Ok(bytes) => Ok(bytes),
        Err(error) => Err(error.to_string()),
    }
}

/// `STANDARD.encode`, named `base64_standard_encode`.
#[verifier::external_body]
pub(crate) fn base64_standard_encode_bytes(data: &[u8]) -> (r: String)
    ensures
        r@ == base64_standard_encode(data@),
{
    base64::engine::general_purpose::STANDARD.encode(data)
}

/// `STANDARD.decode`, named `base64_standard_decode`, with the text of its
/// error named `base64_standard_decode_error`; it gives back the bytes of any
/// text that `STANDARD.encode` produced.
#[verifier::external_body]
pub(crate) fn base64_standard_decode_text(text: &str) -> (r: Result<Vec<u8>, String>)
    ensures
        r matches Ok(b) ==> base64_standard_decode(text@) == Some(b@),
        r matches Err(e) ==> base64_standard_decode(text@) is None && e@ == base64_standard_decode_error(text@),
        forall|d: Seq<u8>| #[trigger] base64_standard_encode(d) == text@ ==> r is Ok && r.unwrap()@ == d,
{
    match base64::engine::general_purpose::STANDARD.decode(text) {
        Ok(bytes) => Ok(bytes),
        Err(error) => Err(error.to_string()),
    }
}

/// `String::from_utf8_lossy(..).into_owned()`, named `utf8_lossy`: for valid
/// UTF-8 the text the bytes encode; invalid sequences become U+FFFD, which is
/// left unsaid here.
#[verifier::external_body]
pub(crate) fn string_from_utf8_lossy(bytes: &[u8]) -> (r: String)
    ensures
        r@ == utf8_lossy(bytes@),
        valid_utf8(bytes@) ==> r@ == decode_utf8(bytes@),
{
    String::from_utf8_lossy(bytes).into_owned()
}

/// `String::from_utf8`: the text whose UTF-8 encoding the bytes are, or
/// `None` where they are not valid UTF-8.
#[verifier::external_body]
pub(crate) fn string_from_utf8(bytes: Vec<u8>) -> (r: Option<String>)
    ensures
        r is Some <==> valid_utf8(bytes@),
        r matches Some(s) ==> s@ == decode_utf8(bytes@),
{
    String::from_utf8(bytes).ok()
}

/// `SystemTime::now()` as milliseconds since the Unix epoch (0 for a clock set
/// before it): the time of the machine, of which nothing is stated.
#[verifier::external_body]
pub(crate) fn unix_time_ms() -> (r: u64) {
    match std::time::SystemTime::now().duration_since(std::time::UNIX_EPOCH) {
        Ok(elapsed) => elapsed.as_millis() as u64,
        Err(_) => 0,
    }
}

} // verus!
