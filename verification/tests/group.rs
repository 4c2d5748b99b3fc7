use localmessenger::crypto::error::CryptoError;
use localmessenger::crypto::identity::IdentityKeyPair;
use localmessenger::device::Device;
use localmessenger::ids::{DeviceId, MemberId};
use localmessenger::messaging::envelope::MessageKind;
use localmessenger::messaging::error::MessagingError;
use localmessenger::messaging::group::{GroupMembership, GroupParticipant, GroupSenderKeyDistribution};
use localmessenger::messaging::group_session::{GroupEncryptedMessage, GroupRotationReason, GroupSession};

fn group_device(member_id: &str, device_id: &str, device_name: &str) -> Device {
    let identity = IdentityKeyPair::generate();
    Device::from_identity_keypair(
        DeviceId::new(device_id).expect("device id should be valid"),
        MemberId::new(member_id).expect("member id should be valid"),
        device_name,
        &identity,
    )
    .expect("device should be created")
}

fn build_group_membership(devices: &[&Device]) -> GroupMembership {
    GroupMembership::new(devices.iter().map(|device| GroupParticipant::from_device(device)).collect())
        .expect("membership should build")
}

#[test]
fn sender_key_distribution_round_trip_and_out_of_order_decrypt_work() {
    let alice = group_device("alice", "alice-phone", "Alice Phone");
    let bob = group_device("bob", "bob-phone", "Bob Phone");
    let membership = build_group_membership(&[&alice, &bob]);

    let mut alice_group = GroupSession::create("friends", 1, alice.duplicate(), membership.duplicate())
        .expect("alice group session should build");
    let mut bob_group = GroupSession::create("friends", 1, bob, membership).expect("bob group");

    let distribution_bytes = alice_group.sender_key_distribution().encode();
    bob_group
        .import_sender_key(
            GroupSenderKeyDistribution::decode(&distribution_bytes).expect("distribution should decode"),
        )
        .expect("bob should import alice sender key");

    let first = alice_group
        .encrypt_message("group-msg-1", MessageKind::Text, 10, b"first".to_vec())
        .expect("first message should encrypt");
    let second = alice_group
        .encrypt_message("group-msg-2", MessageKind::Text, 11, b"second".to_vec())
        .expect("second message should encrypt");

    let second_plaintext = bob_group
        .decrypt_message(&second)
        .expect("receiver should decrypt skipped group message");
    let first_plaintext = bob_group
        .decrypt_message(&first)
        .expect("receiver should decrypt delayed group message");

    assert_eq!(second_plaintext.body(), b"second");
    assert_eq!(first_plaintext.body(), b"first");
    assert_eq!(first_plaintext.sender_member_id(), &MemberId::new("alice").unwrap());
}

#[test]
fn rotating_epoch_for_member_addition_requires_new_sender_key_distribution() {
    let alice = group_device("alice", "alice-phone", "Alice Phone");
    let bob = group_device("bob", "bob-phone", "Bob Phone");
    let carol = group_device("carol", "carol-phone", "Carol Phone");

    let membership_v1 = build_group_membership(&[&alice, &bob]);
    let alice_v1 = GroupSession::create("friends", 1, alice.duplicate(), membership_v1.duplicate())
        .expect("alice v1 should build");

    let (mut alice_v2, rotation) = alice_v1
        .rotate_for_member_addition(GroupParticipant::from_device(&carol))
        .expect("rotation should succeed");
    assert_eq!(rotation.previous_epoch(), 1);
    assert_eq!(rotation.next_epoch(), 2);
    assert_eq!(rotation.membership().len(), 3);

    let mut bob_v2 = GroupSession::create("friends", 2, bob, rotation.membership().duplicate())
        .expect("bob v2 should build");
    let mut carol_v2 = GroupSession::create("friends", 2, carol, rotation.membership().duplicate())
        .expect("carol v2 should build");

    let epoch_two_message = alice_v2
        .encrypt_message("epoch-2-msg", MessageKind::Text, 20, b"welcome".to_vec())
        .expect("epoch two message should encrypt");

    let bob_error = bob_v2
        .decrypt_message(&epoch_two_message)
        .expect_err("bob should require new sender key");
    assert!(matches!(bob_error, MessagingError::UnknownSenderKey(_)));

    bob_v2
        .import_sender_key(rotation.local_sender_key_distribution().duplicate())
        .expect("bob should import new sender key");
    carol_v2
        .import_sender_key(rotation.local_sender_key_distribution().duplicate())
        .expect("carol should import new sender key");

    let bob_plaintext = bob_v2.decrypt_message(&epoch_two_message).expect("bob should decrypt epoch two");
    let carol_plaintext = carol_v2.decrypt_message(&epoch_two_message).expect("carol should decrypt epoch two");

    assert_eq!(bob_plaintext.body(), b"welcome");
    assert_eq!(carol_plaintext.body(), b"welcome");
}

#[test]
fn rotating_epoch_for_member_removal_blocks_removed_member() {
    let alice = group_device("alice", "alice-phone", "Alice Phone");
    let bob = group_device("bob", "bob-phone", "Bob Phone");
    let carol = group_device("carol", "carol-phone", "Carol Phone");

    let membership_v1 = build_group_membership(&[&alice, &bob, &carol]);
    let alice_v1 = GroupSession::create("friends", 1, alice.duplicate(), membership_v1.duplicate())
        .expect("alice v1 should build");
    let mut carol_v1 = GroupSession::create("friends", 1, carol.duplicate(), membership_v1.duplicate())
        .expect("carol v1 should build");
    carol_v1
        .import_sender_key(alice_v1.sender_key_distribution())
        .expect("carol should import alice sender key");

    let (mut alice_v2, rotation) = alice_v1
        .rotate_for_member_removal(carol.device_id())
        .expect("removal rotation should succeed");
    assert_eq!(rotation.membership().len(), 2);

    let mut bob_v2 = GroupSession::create("friends", 2, bob, rotation.membership().duplicate())
        .expect("bob v2 should build");
    bob_v2
        .import_sender_key(rotation.local_sender_key_distribution().duplicate())
        .expect("bob should import epoch two sender key");

    let epoch_two_message = alice_v2
        .encrypt_message("epoch-2-after-removal", MessageKind::Text, 30, b"private".to_vec())
        .expect("epoch two message should encrypt");

    let bob_plaintext = bob_v2.decrypt_message(&epoch_two_message).expect("bob should decrypt epoch two");
    assert_eq!(bob_plaintext.body(), b"private");

    let carol_error = carol_v1
        .decrypt_message(&epoch_two_message)
        .expect_err("removed member must not decrypt next epoch");
    assert!(matches!(carol_error, MessagingError::GroupEpochMismatch { expected: 1, received: 2 }));
}

#[test]
fn manual_rekey_rotates_epoch_without_membership_change() {
    let alice = group_device("alice", "alice-phone", "Alice Phone");
    let bob = group_device("bob", "bob-phone", "Bob Phone");
    let membership = build_group_membership(&[&alice, &bob]);

    let alice_v1 = GroupSession::create("friends", 1, alice.duplicate(), membership.duplicate())
        .expect("alice v1 should build");

    let (alice_v2, rotation) = alice_v1.rotate_for_manual_rekey().expect("manual rekey should succeed");

    assert_eq!(rotation.previous_epoch(), 1);
    assert_eq!(rotation.next_epoch(), 2);
    assert_eq!(rotation.membership(), &membership);
    assert!(matches!(rotation.reason(), GroupRotationReason::ManualForwardSecrecyRefresh));
    assert_eq!(alice_v2.membership(), &membership);
}

#[test]
fn tampered_group_message_signature_is_rejected() {
    let alice = group_device("alice", "alice-phone", "Alice Phone");
    let bob = group_device("bob", "bob-phone", "Bob Phone");
    let membership = build_group_membership(&[&alice, &bob]);

    let mut alice_group = GroupSession::create("friends", 1, alice, membership.duplicate())
        .expect("alice group session should build");
    let mut bob_group = GroupSession::create("friends", 1, bob, membership).expect("bob group");
    bob_group
        .import_sender_key(alice_group.sender_key_distribution())
        .expect("bob should import alice sender key");

    let encrypted = alice_group
        .encrypt_message("tamper-1", MessageKind::Text, 40, b"hello".to_vec())
        .expect("message should encrypt");
    let mut bytes = encrypted.encode();
    let signature_start = bytes.len() - 64;
    bytes[signature_start] ^= 0x55;
    let encrypted = GroupEncryptedMessage::decode(&bytes).expect("tampered bytes still decode");

    let error = bob_group.decrypt_message(&encrypted).expect_err("tampered signature must fail");
    assert!(matches!(error, MessagingError::InvalidGroupSignature));
}

#[test]
fn replayed_group_message_is_rejected() {
    let alice = group_device("alice", "alice-phone", "Alice Phone");
    let bob = group_device("bob", "bob-phone", "Bob Phone");
    let membership = build_group_membership(&[&alice, &bob]);

    let mut alice_group = GroupSession::create("friends", 1, alice, membership.duplicate())
        .expect("alice group session should build");
    let mut bob_group = GroupSession::create("friends", 1, bob, membership).expect("bob group");
    bob_group
        .import_sender_key(alice_group.sender_key_distribution())
        .expect("bob should import alice sender key");

    let encrypted = alice_group
        .encrypt_message("replay-1", MessageKind::Text, 40, b"hello".to_vec())
        .expect("message should encrypt");
    bob_group.decrypt_message(&encrypted).expect("first decrypt should succeed");

    let error = bob_group.decrypt_message(&encrypted).expect_err("replayed group message must fail");
    assert!(matches!(error, MessagingError::Crypto(CryptoError::ReplayOrDuplicateMessage(0))));
}

#[test]
fn duplicate_group_message_id_is_rejected_within_epoch() {
    let alice = group_device("alice", "alice-phone", "Alice Phone");
    let bob = group_device("bob", "bob-phone", "Bob Phone");
    let membership = build_group_membership(&[&alice, &bob]);

    let mut alice_group =
        GroupSession::create("friends", 1, alice, membership).expect("alice group session should build");

    alice_group
        .encrypt_message("dup-group-id", MessageKind::Text, 50, b"one".to_vec())
        .expect("first group message should encrypt");
    let error = alice_group
        .encrypt_message("dup-group-id", MessageKind::Text, 51, b"two".to_vec())
        .expect_err("duplicate group id must fail");

    assert!(matches!(
        error,
        MessagingError::DuplicateGroupMessageId(message_id) if message_id == "dup-group-id"
    ));
}

#[test]
fn same_epoch_sender_key_replacement_is_rejected() {
    let alice = group_device("alice", "alice-phone", "Alice Phone");
    let bob = group_device("bob", "bob-phone", "Bob Phone");
    let membership = build_group_membership(&[&alice, &bob]);

    let alice_group_a = GroupSession::create("friends", 1, alice.duplicate(), membership.duplicate())
        .expect("alice group A should build");
    let alice_group_b =
        GroupSession::create("friends", 1, alice, membership.duplicate()).expect("alice group B should build");
    let mut bob_group = GroupSession::create("friends", 1, bob, membership).expect("bob group");

    bob_group
        .import_sender_key(alice_group_a.sender_key_distribution())
        .expect("initial sender key import should succeed");
    let error = bob_group
        .import_sender_key(alice_group_b.sender_key_distribution())
        .expect_err("same-epoch sender-key replacement must fail");

    assert!(matches!(
        error,
        MessagingError::SenderKeyDistributionConflict { device_id, epoch }
            if device_id == "alice-phone" && epoch == 1
    ));
}

#[test]
fn group_membership_rejects_duplicates_and_size_overflow() {
    let alice = group_device("alice", "alice-phone", "Alice Phone");
    let duplicate = GroupMembership::new(vec![
        GroupParticipant::from_device(&alice),
        GroupParticipant::from_device(&alice),
    ])
    .expect_err("duplicate device must fail");
    assert!(matches!(
        duplicate,
        MessagingError::DuplicateGroupParticipant(device_id) if device_id == "alice-phone"
    ));

    let overflow = GroupMembership::new(
        (0..9)
            .map(|index| {
                GroupParticipant::new(
                    MemberId::new(&format!("member-{index}")).expect("member id"),
                    DeviceId::new(&format!("device-{index}")).expect("device id"),
                )
            })
            .collect(),
    )
    .expect_err("group size limit must be enforced");
    assert!(matches!(overflow, MessagingError::GroupMembershipLimitExceeded(9)));
}

#[test]
fn group_distribution_and_message_bytes_round_trip() {
    let alice = group_device("alice", "alice-phone", "Alice Phone");
    let bob = group_device("bob", "bob-phone", "Bob Phone");
    let membership = build_group_membership(&[&alice, &bob]);
    let mut alice_group =
        GroupSession::create("friends", 3, alice, membership).expect("alice group session should build");

    let distribution = alice_group.sender_key_distribution();
    let decoded = GroupSenderKeyDistribution::decode(&distribution.encode()).expect("distribution should decode");
    assert_eq!(decoded, distribution);
    assert_eq!(decoded.epoch(), 3);
    assert_eq!(decoded.group_id(), "friends");

    let message = alice_group
        .encrypt_message("bytes-1", MessageKind::VoiceNote, -7, b"voice".to_vec())
        .expect("message should encrypt");
    let decoded = GroupEncryptedMessage::decode(&message.encode()).expect("message should decode");
    assert_eq!(decoded, message);
    assert_eq!(decoded.kind(), MessageKind::VoiceNote);
    assert_eq!(decoded.sent_at_unix_ms(), -7);

    let mut wrong_version = distribution.encode();
    wrong_version[0] = 2;
    assert!(matches!(
        GroupSenderKeyDistribution::decode(&wrong_version),
        Err(MessagingError::InvalidSenderKeyDistributionVersion(2))
    ));
    assert!(matches!(
        GroupEncryptedMessage::decode(&[1, 2, 3]),
        Err(MessagingError::Serialization(_))
    ));
}

#[test]
fn group_membership_keeps_devices_sorted_and_removes() {
    let mut membership = GroupMembership::new(vec![
        GroupParticipant::new(MemberId::new("zed").unwrap(), DeviceId::new("zed-phone").unwrap()),
        GroupParticipant::new(MemberId::new("amy").unwrap(), DeviceId::new("amy-phone").unwrap()),
    ])
    .expect("membership should build");
    let order: Vec<String> = membership.participants().iter().map(|p| p.device_id().to_string()).collect();
    assert_eq!(order, vec!["amy-phone".to_string(), "zed-phone".to_string()]);

    let removed = membership.remove_participant(&DeviceId::new("amy-phone").unwrap()).expect("amy should leave");
    assert_eq!(removed.member_id().as_str(), "amy");
    assert_eq!(membership.len(), 1);
    assert!(matches!(
        membership.remove_participant(&DeviceId::new("amy-phone").unwrap()),
        Err(MessagingError::MissingGroupParticipant(device)) if device == "amy-phone"
    ));
    assert!(matches!(GroupMembership::new(Vec::new()), Err(MessagingError::EmptyGroupMembership)));
}
