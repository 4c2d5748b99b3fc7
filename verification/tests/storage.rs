use localmessenger::storage::records::{conversation_key, message_keys, pending_keys, pending_peer_key, pending_removal_key};
use localmessenger::ids::{DeviceId, MemberId};
use localmessenger::storage::cipher::{opaque_lookup_key, AtRestCipher};
use localmessenger::storage::error::StorageError;
use localmessenger::storage::models::{StorageKey, StoredMessage, StoredMessageKind, StoredPendingOutbound};

#[test]
fn storage_key_requires_thirty_two_bytes() {
    assert!(StorageKey::try_from_slice(&[7_u8; 32]).is_ok());
    assert!(matches!(StorageKey::try_from_slice(&[7_u8; 31]), Err(StorageError::InvalidStorageKeyLength(31))));
    assert_eq!(
        StorageError::InvalidStorageKeyLength(31).message(),
        "storage key must be 32 bytes, got 31"
    );
}

#[test]
fn at_rest_cipher_round_trips_and_binds_context() {
    let cipher = AtRestCipher::new(StorageKey::from_bytes([9_u8; 32]));
    let lookup = opaque_lookup_key("device", "alice-main");
    let blob = cipher.encrypt("device", &lookup, b"record bytes").expect("encrypt");
    assert_eq!(blob[0], 1);
    assert_eq!(cipher.decrypt("device", &lookup, &blob).expect("decrypt"), b"record bytes".to_vec());

    let other_lookup = opaque_lookup_key("device", "bob-main");
    assert!(matches!(cipher.decrypt("device", &other_lookup, &blob), Err(StorageError::DecryptionFailed)));
    assert!(matches!(cipher.decrypt("peer", &lookup, &blob), Err(StorageError::DecryptionFailed)));

    let wrong_key = AtRestCipher::new(StorageKey::from_bytes([8_u8; 32]));
    assert!(matches!(wrong_key.decrypt("device", &lookup, &blob), Err(StorageError::DecryptionFailed)));

    let mut other_version = blob.clone();
    other_version[0] = 2;
    assert!(matches!(cipher.decrypt("device", &lookup, &other_version), Err(StorageError::InvalidRecordVersion(2))));
    assert!(matches!(cipher.decrypt("device", &lookup, &blob[..5]), Err(StorageError::Serialization(_))));
}

#[test]
fn lookup_keys_are_deterministic_and_namespaced() {
    assert_eq!(opaque_lookup_key("device", "alice"), opaque_lookup_key("device", "alice"));
    assert_ne!(opaque_lookup_key("device", "alice"), opaque_lookup_key("peer", "alice"));
}

#[test]
fn stored_records_validate_ids_and_ciphertext() {
    let member = MemberId::new("alice").expect("member id should be valid");
    let device = DeviceId::new("alice-main").expect("device id should be valid");
    let error = StoredMessage::new("bad id!", "chat_main", member.clone(), device.clone(), 1, StoredMessageKind::Text, b"x".to_vec())
        .expect_err("invalid id should fail");
    assert!(matches!(error, StorageError::InvalidIdentifier { field: "message_id", .. }));
    assert!(matches!(
        StoredMessage::new("msg-1", "chat:main", member.clone(), device.clone(), 1, StoredMessageKind::Text, Vec::new()),
        Err(StorageError::EmptyCiphertext)
    ));
    let stored = StoredMessage::new("msg-1", "chat_main", member, device, 5, StoredMessageKind::VoiceNote, b"c".to_vec())
        .expect("message should validate");
    assert_eq!(stored.sent_at_unix_ms, 5);

    let pending = StoredPendingOutbound::new("bob-phone", 3, "msg-pending-1", "chat-main", 1711111200000, StoredMessageKind::Text, b"encrypted-body-bytes".to_vec(), 0)
        .expect("pending entry should validate");
    assert_eq!(pending.delivery_order, 3);
    assert!(matches!(
        StoredPendingOutbound::new(" ", 3, "m", "c", 0, StoredMessageKind::Text, b"b".to_vec(), 0),
        Err(StorageError::InvalidIdentifier { field: "peer_device_id", .. })
    ));
}

#[test]
fn records_are_filed_under_checked_opaque_keys() {
    let (message, conversation) = message_keys("msg-1", "chat_main").expect("keys");
    assert_ne!(message, conversation);
    assert_eq!(conversation_key("chat_main").expect("key"), conversation);
    assert!(message_keys("bad id!", "chat_main").is_err());
    assert!(conversation_key("").is_err());
    let (peer, pending) = pending_keys("bob-phone", "msg-1");
    assert_eq!(pending_peer_key("bob-phone").expect("key"), peer);
    assert_eq!(pending_removal_key("bob-phone", "msg-1").expect("key"), pending);
    assert_ne!(pending, message);
}
