//! Long-term device identity: an X25519 agreement key and an Ed25519 signing key.

use vstd::prelude::*;
use crate::bytes::{extend_bytes, u32_be, u32_be_spec};
use crate::contexts::{signed_prekey_context, signed_prekey_context_spec};
use crate::crypto::error::CryptoError;
use crate::outside::{
    ed25519_accepts, ed25519_public, ed25519_sign, ed25519_signature, ed25519_verify,
    ed25519_verifying_key, random_bytes_32, x25519_public, x25519_public_key,
};

verus! {

/// The bytes a signed prekey signature covers: the context, the prekey id in
/// big-endian order, and the prekey's public key.
pub open spec fn signed_prekey_payload_spec(prekey_id: u32, prekey_public: Seq<u8>) -> Seq<u8> {
    signed_prekey_context_spec() + u32_be_spec(prekey_id) + prekey_public
}

pub fn signed_prekey_payload(prekey_id: u32, prekey_public: &[u8; 32]) -> (r: Vec<u8>)
    ensures
        r@ == signed_prekey_payload_spec(prekey_id, prekey_public@),
{
    let mut payload = signed_prekey_context();
    let id = u32_be(prekey_id);
    extend_bytes(&mut payload, &id);
    extend_bytes(&mut payload, prekey_public);
    payload
}

/// The secret halves of an identity, as stored at rest.
#[derive(Clone, PartialEq, Eq, Debug)]
pub struct IdentityKeyMaterial {
    pub agreement_secret_key: [u8; 32],
    pub signing_secret_key: [u8; 32],
}

/// The public halves of an identity.
#[derive(Debug, Clone, PartialEq, Eq)]
pub struct IdentityPublicKeys {
    pub agreement_public_key: [u8; 32],
    pub signing_public_key: [u8; 32],
}

impl IdentityPublicKeys {
    pub fn duplicate(&self) -> (r: IdentityPublicKeys)
        ensures
            r == *self,
            r.agreement_public_key@ == self.agreement_public_key@,
            r.signing_public_key@ == self.signing_public_key@,
    {
        IdentityPublicKeys {
            agreement_public_key: self.agreement_public_key,
            signing_public_key: self.signing_public_key,
        }
    }

    pub open spec fn same_keys(&self, other: &IdentityPublicKeys) -> bool {
        self.agreement_public_key@ == other.agreement_public_key@
            && self.signing_public_key@ == other.signing_public_key@
    }

    pub fn same_as(&self, other: &IdentityPublicKeys) -> (r: bool)
        ensures
            r == self.same_keys(other),
    {
        crate::bytes::bytes_eq(&self.agreement_public_key, &other.agreement_public_key)
            && crate::bytes::bytes_eq(&self.signing_public_key, &other.signing_public_key)
    }

    /// Checks a signed-prekey signature: `Ok` exactly where the signature is 64
    /// bytes long and Ed25519 accepts it over the signed-prekey payload.
    pub fn verify_signed_prekey(&self, prekey_id: u32, prekey_public: &[u8; 32], signature: &[u8]) -> (r: Result<(), CryptoError>)
        ensures
            r is Ok <==> (signature@.len() == 64 && ed25519_accepts(
                self.signing_public_key@,
                signed_prekey_payload_spec(prekey_id, prekey_public@),
                signature@,
            )),
            r is Err ==> r == Err::<(), CryptoError>(CryptoError::InvalidSignature),
    {
        let payload = signed_prekey_payload(prekey_id, prekey_public);
        self.verify_message(&payload, signature)
    }

    /// Checks a message signature: `Ok` exactly where the signature is 64 bytes
    /// long and Ed25519 accepts it.
    pub fn verify_message(&self, payload: &[u8], signature: &[u8]) -> (r: Result<(), CryptoError>)
        ensures
            r is Ok <==> (signature@.len() == 64 && ed25519_accepts(
                self.signing_public_key@,
                payload@,
                signature@,
            )),
            r is Err ==> r == Err::<(), CryptoError>(CryptoError::InvalidSignature),
    {
        if signature.len() != 64 {
            return Err(CryptoError::InvalidSignature);
        }
        let sig = crate::bytes::array64_at(signature, 0);
        assert(signature@.subrange(0, 64) =~= signature@);
        if ed25519_verify(&self.signing_public_key, payload, &sig) {
            Ok(())
        } else {
            Err(CryptoError::InvalidSignature)
        }
    }
}

/// A device identity: agreement secret and signing seed, with their public keys.
pub struct IdentityKeyPair {
    agreement_secret: [u8; 32],
    agreement_public: [u8; 32],
    signing_seed: [u8; 32],
    signing_public: [u8; 32],
}

impl IdentityKeyPair {
    /// The public keys are those of the secrets held.
    pub closed spec fn wf(&self) -> bool {
        &&& self.agreement_public@ == x25519_public(self.agreement_secret@)
        &&& self.signing_public@ == ed25519_public(self.signing_seed@)
    }

    pub closed spec fn agreement_secret_spec(&self) -> Seq<u8> {
        self.agreement_secret@
    }

    pub closed spec fn signing_seed_spec(&self) -> Seq<u8> {
        self.signing_seed@
    }

    /// A fresh identity from operating-system randomness.
    pub fn generate() -> (r: IdentityKeyPair)
        ensures
            r.wf(),
    {
        let agreement_secret = random_bytes_32();
        let signing_seed = random_bytes_32();
        Self::from_secrets(agreement_secret, signing_seed)
    }

    fn from_secrets(agreement_secret: [u8; 32], signing_seed: [u8; 32]) -> (r: IdentityKeyPair)
        ensures
            r.wf(),
            r.agreement_secret_spec() == agreement_secret@,
            r.signing_seed_spec() == signing_seed@,
    {
        let agreement_public = x25519_public_key(&agreement_secret);
        let signing_public = ed25519_verifying_key(&signing_seed);
        IdentityKeyPair { agreement_secret, agreement_public, signing_seed, signing_public }
    }

    pub fn agreement_secret(&self) -> (r: [u8; 32])
        ensures
            r@ == self.agreement_secret_spec(),
    {
        self.agreement_secret
    }

    pub fn agreement_public(&self) -> (r: [u8; 32])
        requires
            self.wf(),
        ensures
            r@ == x25519_public(self.agreement_secret_spec()),
    {
        self.agreement_public
    }

    pub fn signing_public(&self) -> (r: [u8; 32])
        requires
            self.wf(),
        ensures
            r@ == ed25519_public(self.signing_seed_spec()),
    {
        self.signing_public
    }

    pub fn public_keys(&self) -> (r: IdentityPublicKeys)
        requires
            self.wf(),
        ensures
            r.agreement_public_key@ == x25519_public(self.agreement_secret_spec()),
            r.signing_public_key@ == ed25519_public(self.signing_seed_spec()),
    {
        IdentityPublicKeys {
            agreement_public_key: self.agreement_public,
            signing_public_key: self.signing_public,
        }
    }

    pub fn to_material(&self) -> (r: IdentityKeyMaterial)
        ensures
            r.agreement_secret_key@ == self.agreement_secret_spec(),
            r.signing_secret_key@ == self.signing_seed_spec(),
    {
        IdentityKeyMaterial {
            agreement_secret_key: self.agreement_secret,
            signing_secret_key: self.signing_seed,
        }
    }

    pub fn from_material(material: &IdentityKeyMaterial) -> (r: IdentityKeyPair)
        ensures
            r.wf(),
            r.agreement_secret_spec() == material.agreement_secret_key@,
            r.signing_seed_spec() == material.signing_secret_key@,
    {
        Self::from_secrets(material.agreement_secret_key, material.signing_secret_key)
    }

    pub fn sign_signed_prekey(&self, prekey_id: u32, prekey_public: &[u8; 32]) -> (r: [u8; 64])
        ensures
            r@ == ed25519_signature(
                self.signing_seed_spec(),
                signed_prekey_payload_spec(prekey_id, prekey_public@),
            ),
            ed25519_accepts(
                ed25519_public(self.signing_seed_spec()),
                signed_prekey_payload_spec(prekey_id, prekey_public@),
                r@,
            ),
    {
        let payload = signed_prekey_payload(prekey_id, prekey_public);
        ed25519_sign(&self.signing_seed, &payload)
    }

    pub fn sign_message(&self, payload: &[u8]) -> (r: [u8; 64])
        ensures
            r@ == ed25519_signature(self.signing_seed_spec(), payload@),
            ed25519_accepts(ed25519_public(self.signing_seed_spec()), payload@, r@),
    {
        ed25519_sign(&self.signing_seed, payload)
    }
}

} // verus!
