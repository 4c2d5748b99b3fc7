//! The records a device stores: its storage key, stored messages, pending
//! outbound messages and its own secrets.

use vstd::prelude::*;
use crate::crypto::identity::{IdentityKeyMaterial, IdentityKeyPair, IdentityPublicKeys};
use crate::crypto::prekey::{LocalPrekeyStore, OneTimePrekeyMaterial, PrekeyStoreMaterial, SignedPrekeyMaterial};
use crate::device::Device;
use crate::ids::{DeviceId, MemberId};
use crate::outside::random_bytes_32;
use crate::storage::error::StorageError;
use crate::text::{all_scoped_identifier_chars, all_scoped_identifier_chars_spec, is_blank, is_blank_spec, owned};

verus! {

/// The key that seals a device's records at rest.
#[derive(Clone)]
pub struct StorageKey([u8; 32]);

impl View for StorageKey {
    type V = Seq<u8>;

    closed spec fn view(&self) -> Seq<u8> {
        self.0@
    }
}

impl StorageKey {
    /// A fresh random key.
    pub fn generate() -> (r: StorageKey)
        ensures
            r@.len() == 32,
    {
        StorageKey(random_bytes_32())
    }

    pub fn from_bytes(bytes: [u8; 32]) -> (r: StorageKey)
        ensures
            r@ == bytes@,
    {
        StorageKey(bytes)
    }

    /// A key from exactly 32 bytes; other lengths are refused.
    pub fn try_from_slice(bytes: &[u8]) -> (r: Result<StorageKey, StorageError>)
        ensures
            bytes@.len() == 32 ==> (r matches Ok(k) && k@ == bytes@),
            bytes@.len() != 32 ==> r == Err::<StorageKey, StorageError>(StorageError::InvalidStorageKeyLength(bytes@.len() as usize)),
    {
        if bytes.len() != 32 {
            return Err(StorageError::InvalidStorageKeyLength(bytes.len()));
        }
        let key = crate::bytes::array32_at(bytes, 0);
        assert(bytes@.subrange(0, 32) =~= bytes@);
        Ok(StorageKey(key))
    }

    pub(crate) fn as_bytes(&self) -> (r: &[u8; 32])
        ensures
            r@ == self@,
    {
        &self.0
    }
}

/// The storage identifier rule: not blank, and only ASCII letters, digits,
/// `-`, `_` and `:`.
pub open spec fn is_storage_identifier(s: Seq<char>) -> bool {
    !is_blank_spec(s) && all_scoped_identifier_chars_spec(s)
}

/// `Ok` exactly for storage identifiers; the error names the field and value.
pub fn validate_identifier(field: &'static str, value: &str) -> (r: Result<(), StorageError>)
    ensures
        is_storage_identifier(value@) ==> r is Ok,
        !is_storage_identifier(value@) ==> (r matches Err(StorageError::InvalidIdentifier { field: f, value: v })
            && f == field && v@ == value@),
{
    if is_blank(value) || !all_scoped_identifier_chars(value) {
        return Err(StorageError::InvalidIdentifier { field, value: owned(value) });
    }
    Ok(())
}

#[derive(Debug, Clone, Copy, PartialEq, Eq)]
pub enum StoredMessageKind {
    Text,
    Attachment,
    VoiceNote,
    System,
}

/// A message as stored: its ids, sender, time, kind and ciphertext.
#[derive(Debug, PartialEq, Eq)]
pub struct StoredMessage {
    pub message_id: String,
    pub conversation_id: String,
    pub sender_member_id: MemberId,
    pub sender_device_id: DeviceId,
    pub sent_at_unix_ms: i64,
    pub kind: StoredMessageKind,
    pub ciphertext: Vec<u8>,
}

impl StoredMessage {
    /// A stored message; the ids must pass the storage identifier rule and
    /// the ciphertext must not be empty.
    pub fn new(
        message_id: &str,
        conversation_id: &str,
        sender_member_id: MemberId,
        sender_device_id: DeviceId,
        sent_at_unix_ms: i64,
        kind: StoredMessageKind,
        ciphertext: Vec<u8>,
    ) -> (r: Result<StoredMessage, StorageError>)
        ensures
            !is_storage_identifier(message_id@) ==> (r matches Err(StorageError::InvalidIdentifier { field, value })
                && field == "message_id" && value@ == message_id@),
            is_storage_identifier(message_id@) && !is_storage_identifier(conversation_id@) ==> (r matches Err(
                StorageError::InvalidIdentifier { field, value },
            ) && field == "conversation_id" && value@ == conversation_id@),
            is_storage_identifier(message_id@) && is_storage_identifier(conversation_id@) && ciphertext@.len() == 0
                ==> r == Err::<StoredMessage, StorageError>(StorageError::EmptyCiphertext),
            is_storage_identifier(message_id@) && is_storage_identifier(conversation_id@) && ciphertext@.len() > 0
                ==> (r matches Ok(m) && m.message_id@ == message_id@ && m.conversation_id@ == conversation_id@
                && m.sender_member_id@ == sender_member_id@ && m.sender_device_id@ == sender_device_id@
                && m.sent_at_unix_ms == sent_at_unix_ms && m.kind == kind && m.ciphertext@ == ciphertext@),
    {
        match validate_identifier("message_id", message_id) {
            Ok(()) => {},
            Err(e) => return Err(e),
        }
        match validate_identifier("conversation_id", conversation_id) {
            Ok(()) => {},
            Err(e) => return Err(e),
        }
        if ciphertext.len() == 0 {
            return Err(StorageError::EmptyCiphertext);
        }
        Ok(StoredMessage {
            message_id: owned(message_id),
            conversation_id: owned(conversation_id),
            sender_member_id,
            sender_device_id,
            sent_at_unix_ms,
            kind,
            ciphertext,
        })
    }
}

/// An outbound message kept until its peer acknowledges it.
#[derive(Debug, PartialEq, Eq)]
pub struct StoredPendingOutbound {
    pub peer_device_id: String,
    pub delivery_order: u64,
    pub message_id: String,
    pub conversation_id: String,
    pub sent_at_unix_ms: i64,
    pub kind: StoredMessageKind,
    pub body: Vec<u8>,
    pub attempt_count: u32,
}

impl StoredPendingOutbound {
    /// A pending entry; the peer device, message and conversation ids must
    /// pass the storage identifier rule and the body must not be empty.
    pub fn new(
        peer_device_id: &str,
        delivery_order: u64,
        message_id: &str,
        conversation_id: &str,
        sent_at_unix_ms: i64,
        kind: StoredMessageKind,
        body: Vec<u8>,
        attempt_count: u32,
    ) -> (r: Result<StoredPendingOutbound, StorageError>)
        ensures
            !is_storage_identifier(peer_device_id@) ==> (r matches Err(StorageError::InvalidIdentifier { field, value })
                && field == "peer_device_id" && value@ == peer_device_id@),
            is_storage_identifier(peer_device_id@) && !is_storage_identifier(message_id@) ==> (r matches Err(
                StorageError::InvalidIdentifier { field, value },
            ) && field == "message_id" && value@ == message_id@),
            is_storage_identifier(peer_device_id@) && is_storage_identifier(message_id@) && !is_storage_identifier(
                conversation_id@,
            ) ==> (r matches Err(StorageError::InvalidIdentifier { field, value }) && field == "conversation_id"
                && value@ == conversation_id@),
            is_storage_identifier(peer_device_id@) && is_storage_identifier(message_id@) && is_storage_identifier(
                conversation_id@,
            ) && body@.len() == 0 ==> r == Err::<StoredPendingOutbound, StorageError>(StorageError::EmptyCiphertext),
            is_storage_identifier(peer_device_id@) && is_storage_identifier(message_id@) && is_storage_identifier(
                conversation_id@,
            ) && body@.len() > 0 ==> (r matches Ok(m) && m.peer_device_id@ == peer_device_id@ && m.delivery_order
                == delivery_order && m.message_id@ == message_id@ && m.conversation_id@ == conversation_id@
                && m.sent_at_unix_ms == sent_at_unix_ms && m.kind == kind && m.body@ == body@ && m.attempt_count
                == attempt_count),
    {
        match validate_identifier("peer_device_id", peer_device_id) {
            Ok(()) => {},
            Err(e) => return Err(e),
        }
        match validate_identifier("message_id", message_id) {
            Ok(()) => {},
            Err(e) => return Err(e),
        }
        match validate_identifier("conversation_id", conversation_id) {
            Ok(()) => {},
            Err(e) => return Err(e),
        }
        if body.len() == 0 {
            return Err(StorageError::EmptyCiphertext);
        }
        Ok(StoredPendingOutbound {
            peer_device_id: owned(peer_device_id),
            delivery_order,
            message_id: owned(message_id),
            conversation_id: owned(conversation_id),
            sent_at_unix_ms,
            kind,
            body,
            attempt_count,
        })
    }
}

/// A device's own record: the device and the material of its identity and prekeys.
pub struct StoredLocalDeviceSecrets {
    pub device: Device,
    pub identity_key_material: IdentityKeyMaterial,
    pub prekey_store_material: PrekeyStoreMaterial,
}

/// A field-by-field copy of prekey store material.
fn copy_prekey_material(m: &PrekeyStoreMaterial) -> (r: PrekeyStoreMaterial)
    ensures
        r.identity == m.identity,
        r.signed_prekey.id == m.signed_prekey.id,
        r.signed_prekey.secret_key@ == m.signed_prekey.secret_key@,
        r.signed_prekey.signature@ == m.signed_prekey.signature@,
        r.one_time_prekeys@ == m.one_time_prekeys@,
{
    let mut one_time: Vec<OneTimePrekeyMaterial> = Vec::new();
    let mut i: usize = 0;
    while i < m.one_time_prekeys.len()
        invariant
            i <= m.one_time_prekeys@.len(),
            one_time@ == m.one_time_prekeys@.subrange(0, i as int),
        decreases m.one_time_prekeys@.len() - i,
    {
        let e = &m.one_time_prekeys[i];
        one_time.push(OneTimePrekeyMaterial { id: e.id, secret_key: e.secret_key });
        i = i + 1;
        assert(one_time@ =~= m.one_time_prekeys@.subrange(0, i as int));
    }
    assert(m.one_time_prekeys@.subrange(0, i as int) =~= m.one_time_prekeys@);
    PrekeyStoreMaterial {
        identity: m.identity.duplicate(),
        signed_prekey: SignedPrekeyMaterial {
            id: m.signed_prekey.id,
            secret_key: m.signed_prekey.secret_key,
            signature: crate::bytes::to_vec(m.signed_prekey.signature.as_slice()),
        },
        one_time_prekeys: one_time,
    }
}

impl StoredLocalDeviceSecrets {
    /// The record of a running device; its identity keys must be those of
    /// the key pair and of the prekey store.
    pub fn from_runtime(device: Device, identity_keypair: &IdentityKeyPair, prekey_store: &LocalPrekeyStore) -> (r: Result<
        StoredLocalDeviceSecrets,
        StorageError,
    >)
        requires
            identity_keypair.wf(),
        ensures
            !(device@.agreement_public_key == crate::outside::x25519_public(identity_keypair.agreement_secret_spec())
                && device@.signing_public_key == crate::outside::ed25519_public(identity_keypair.signing_seed_spec()))
                ==> r == Err::<StoredLocalDeviceSecrets, StorageError>(StorageError::LocalDeviceIdentityMismatch),
            (device@.agreement_public_key == crate::outside::x25519_public(identity_keypair.agreement_secret_spec())
                && device@.signing_public_key == crate::outside::ed25519_public(identity_keypair.signing_seed_spec()))
                && !(prekey_store.identity_spec().agreement_public_key@ == device@.agreement_public_key
                && prekey_store.identity_spec().signing_public_key@ == device@.signing_public_key) ==> r
                == Err::<StoredLocalDeviceSecrets, StorageError>(StorageError::LocalPrekeyIdentityMismatch),
            (device@.agreement_public_key == crate::outside::x25519_public(identity_keypair.agreement_secret_spec())
                && device@.signing_public_key == crate::outside::ed25519_public(identity_keypair.signing_seed_spec()))
                && (prekey_store.identity_spec().agreement_public_key@ == device@.agreement_public_key
                && prekey_store.identity_spec().signing_public_key@ == device@.signing_public_key) ==> (r matches Ok(s)
                && s.device@ == device@ && s.identity_key_material.agreement_secret_key@
                == identity_keypair.agreement_secret_spec() && s.identity_key_material.signing_secret_key@
                == identity_keypair.signing_seed_spec() && s.prekey_store_material.identity
                == prekey_store.identity_spec()),
    {
        let public = identity_keypair.public_keys();
        if !device.identity_keys().same_as(&public) {
            return Err(StorageError::LocalDeviceIdentityMismatch);
        }
        if !prekey_store.identity().same_as(device.identity_keys()) {
            return Err(StorageError::LocalPrekeyIdentityMismatch);
        }
        Ok(StoredLocalDeviceSecrets {
            device,
            identity_key_material: identity_keypair.to_material(),
            prekey_store_material: prekey_store.to_material(),
        })
    }

    /// The identity key pair of the stored material.
    pub fn identity_keypair(&self) -> (r: IdentityKeyPair)
        ensures
            r.wf(),
            r.agreement_secret_spec() == self.identity_key_material.agreement_secret_key@,
            r.signing_seed_spec() == self.identity_key_material.signing_secret_key@,
    {
        IdentityKeyPair::from_material(&self.identity_key_material)
    }

    /// The prekey store of the stored material.
    pub fn prekey_store(&self) -> (r: Result<LocalPrekeyStore, StorageError>)
        ensures
            self.prekey_store_material.signed_prekey.signature@.len() != 64 ==> r == Err::<LocalPrekeyStore, StorageError>(
                StorageError::Crypto(crate::crypto::error::CryptoError::InvalidSignature),
            ),
            self.prekey_store_material.signed_prekey.signature@.len() == 64 ==> (r matches Ok(s) && s.identity_spec()
                == self.prekey_store_material.identity && s.signed_spec().id == self.prekey_store_material.signed_prekey.id
                && s.one_time_spec() == crate::crypto::prekey::material_map_spec(
                self.prekey_store_material.one_time_prekeys@,
            )),
    {
        match LocalPrekeyStore::from_material(copy_prekey_material(&self.prekey_store_material)) {
            Ok(s) => Ok(s),
            Err(e) => Err(StorageError::Crypto(e)),
        }
    }
}

} // verus!
