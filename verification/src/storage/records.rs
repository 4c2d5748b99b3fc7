//! How the local store files its records: the namespace of each kind of
//! record and the opaque keys rows are found by, derived from the record's
//! identifiers, with the identifiers checked where the store checks them.

use vstd::prelude::*;
use crate::bytes::extend_bytes;
use crate::contexts::{pending_store_context, pending_store_context_spec};
use crate::ids::DeviceId;
use crate::outside::{sha256, sha256_digest};
use crate::storage::cipher::{lookup_key_spec, opaque_lookup_key, open_record_spec, record_refused_as, AtRestCipher};
use crate::storage::error::StorageError;
use crate::storage::models::{is_storage_identifier, validate_identifier};

verus! {

/// The namespace of device records.
pub const DEVICE_NAMESPACE: &'static str = "device";
/// The namespace of the local device's secrets.
pub const LOCAL_SECRETS_NAMESPACE: &'static str = "local-device-secrets";
/// The namespace of discovered peers.
pub const PEER_NAMESPACE: &'static str = "peer";
/// The namespace of remote peers' session offers.
pub const REMOTE_OFFER_NAMESPACE: &'static str = "remote-peer-offer";
/// The namespace of messages.
pub const MESSAGE_NAMESPACE: &'static str = "message";
/// The namespace conversations are filed under.
pub const CONVERSATION_NAMESPACE: &'static str = "conversation";
/// The namespace of messages waiting to be sent.
pub const PENDING_NAMESPACE: &'static str = "pending-outbound";

/// The key a device's record is filed under.
pub fn device_lookup_key(device_id: &DeviceId) -> (r: [u8; 32])
    ensures
        r@ == lookup_key_spec(DEVICE_NAMESPACE@, device_id@),
{
    opaque_lookup_key(DEVICE_NAMESPACE, device_id.as_str())
}

/// The key the local device's secrets are filed under.
pub fn local_secrets_lookup_key(device_id: &DeviceId) -> (r: [u8; 32])
    ensures
        r@ == lookup_key_spec(LOCAL_SECRETS_NAMESPACE@, device_id@),
{
    opaque_lookup_key(LOCAL_SECRETS_NAMESPACE, device_id.as_str())
}

/// The key a discovered peer is filed under.
pub fn peer_lookup_key(device_id: &str) -> (r: [u8; 32])
    ensures
        r@ == lookup_key_spec(PEER_NAMESPACE@, device_id@),
{
    opaque_lookup_key(PEER_NAMESPACE, device_id)
}

/// The key a remote peer's offer is filed under, by its device id.
pub fn remote_offer_lookup_key(device_id: &str) -> (r: [u8; 32])
    ensures
        r@ == lookup_key_spec(REMOTE_OFFER_NAMESPACE@, device_id@),
{
    opaque_lookup_key(REMOTE_OFFER_NAMESPACE, device_id)
}

/// The keys a message is filed under, by its id and by its conversation;
/// both identifiers are checked first, the message id first.
pub fn message_keys(message_id: &str, conversation_id: &str) -> (r: Result<([u8; 32], [u8; 32]), StorageError>)
    ensures
        !is_storage_identifier(message_id@) ==> (r matches Err(StorageError::InvalidIdentifier { field: f, value: v })
            && f == "message_id" && v@ == message_id@),
        is_storage_identifier(message_id@) && !is_storage_identifier(conversation_id@) ==> (r matches Err(
            StorageError::InvalidIdentifier { field: f, value: v },
        ) && f == "conversation_id" && v@ == conversation_id@),
        is_storage_identifier(message_id@) && is_storage_identifier(conversation_id@) ==> (r matches Ok((m, c)) && m@
            == lookup_key_spec(MESSAGE_NAMESPACE@, message_id@) && c@ == lookup_key_spec(
            CONVERSATION_NAMESPACE@,
            conversation_id@,
        )),
{
    validate_identifier("message_id", message_id)?;
    validate_identifier("conversation_id", conversation_id)?;
    Ok((opaque_lookup_key(MESSAGE_NAMESPACE, message_id), opaque_lookup_key(CONVERSATION_NAMESPACE, conversation_id)))
}

/// The key a conversation's messages are found by; the id is checked first.
pub fn conversation_key(conversation_id: &str) -> (r: Result<[u8; 32], StorageError>)
    ensures
        !is_storage_identifier(conversation_id@) ==> (r matches Err(StorageError::InvalidIdentifier { field: f, value: v })
            && f == "conversation_id" && v@ == conversation_id@),
        is_storage_identifier(conversation_id@) ==> (r matches Ok(c) && c@ == lookup_key_spec(
            CONVERSATION_NAMESPACE@,
            conversation_id@,
        )),
{
    validate_identifier("conversation_id", conversation_id)?;
    Ok(opaque_lookup_key(CONVERSATION_NAMESPACE, conversation_id))
}

/// The keys a waiting message is filed under: by its peer and by its id.
pub fn pending_keys(peer_device_id: &str, message_id: &str) -> (r: ([u8; 32], [u8; 32]))
    ensures
        r.0@ == lookup_key_spec(PENDING_NAMESPACE@, peer_device_id@),
        r.1@ == lookup_key_spec(PENDING_NAMESPACE@, message_id@),
{
    (opaque_lookup_key(PENDING_NAMESPACE, peer_device_id), opaque_lookup_key(PENDING_NAMESPACE, message_id))
}

/// The key a peer's waiting messages are found by; the id is checked first.
pub fn pending_peer_key(peer_device_id: &str) -> (r: Result<[u8; 32], StorageError>)
    ensures
        !is_storage_identifier(peer_device_id@) ==> (r matches Err(StorageError::InvalidIdentifier { field: f, value: v })
            && f == "peer_device_id" && v@ == peer_device_id@),
        is_storage_identifier(peer_device_id@) ==> (r matches Ok(k) && k@ == lookup_key_spec(
            PENDING_NAMESPACE@,
            peer_device_id@,
        )),
{
    validate_identifier("peer_device_id", peer_device_id)?;
    Ok(opaque_lookup_key(PENDING_NAMESPACE, peer_device_id))
}

/// The key of one waiting message to remove; the peer's id and the
/// message id are checked first, in that order.
pub fn pending_removal_key(peer_device_id: &str, message_id: &str) -> (r: Result<[u8; 32], StorageError>)
    ensures
        !is_storage_identifier(peer_device_id@) ==> (r matches Err(StorageError::InvalidIdentifier { field: f, value: v })
            && f == "peer_device_id" && v@ == peer_device_id@),
        is_storage_identifier(peer_device_id@) && !is_storage_identifier(message_id@) ==> (r matches Err(
            StorageError::InvalidIdentifier { field: f, value: v },
        ) && f == "message_id" && v@ == message_id@),
        is_storage_identifier(peer_device_id@) && is_storage_identifier(message_id@) ==> (r matches Ok(k) && k@
            == lookup_key_spec(PENDING_NAMESPACE@, message_id@)),
{
    validate_identifier("peer_device_id", peer_device_id)?;
    validate_identifier("message_id", message_id)?;
    Ok(opaque_lookup_key(PENDING_NAMESPACE, message_id))
}

/// Opens a waiting message's row: its key must be 32 bytes, and the record
/// must open under it.
pub fn open_pending_row(cipher: &AtRestCipher, message_key: &[u8], encrypted_blob: &[u8]) -> (r: Result<Vec<u8>, StorageError>)
    ensures
        message_key@.len() != 32 ==> r == Err::<Vec<u8>, StorageError>(StorageError::DecryptionFailed),
        message_key@.len() == 32 ==> match open_record_spec(cipher@, PENDING_NAMESPACE@, message_key@, encrypted_blob@) {
            Ok(p) => r matches Ok(b) && b@ == p,
            Err(f) => r matches Err(e) && record_refused_as(e, f),
        },
{
    if message_key.len() != 32 {
        return Err(StorageError::DecryptionFailed);
    }
    cipher.decrypt(PENDING_NAMESPACE, message_key, encrypted_blob)
}

/// The key of the client's pending-queue store, derived from the local
/// identity so that the same store opens again after a restart: SHA-256 over
/// the pending-store context and the identity's signing secret.
pub fn pending_store_key(signing_secret_key: &[u8; 32]) -> (r: [u8; 32])
    ensures
        r@ == sha256(pending_store_context_spec() + signing_secret_key@),
{
    let mut input = pending_store_context();
    extend_bytes(&mut input, signing_secret_key);
    sha256_digest(input.as_slice())
}

} // verus!
