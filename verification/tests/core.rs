use localmessenger::crypto::identity::IdentityKeyPair;
use localmessenger::device::{Device, DeviceVerificationQr, SafetyNumber, VerificationMethod, VerificationStatus};
use localmessenger::ids::{CoreError, DeviceId, MemberId};
use localmessenger::member::MemberProfile;
use localmessenger::messaging::engine::MessagingEngine;
use localmessenger::messaging::envelope::MessageKind;
use localmessenger::messaging::error::MessagingError;

fn make_device(member: &str, device: &str, name: &str) -> Device {
    Device::from_identity_keypair(
        DeviceId::new(device).expect("device id should be valid"),
        MemberId::new(member).expect("member id should be valid"),
        name,
        &IdentityKeyPair::generate(),
    )
    .expect("device should be created")
}

#[test]
fn member_profile_supports_multiple_devices() {
    let member_id = MemberId::new("alice").expect("member id should be valid");
    let mut member = MemberProfile::new(member_id.duplicate(), "Alice").expect("member profile should be created");

    let laptop = Device::from_identity_keypair(
        DeviceId::new("alice-laptop").expect("device id should be valid"),
        member_id.duplicate(),
        "Alice Laptop",
        &IdentityKeyPair::generate(),
    )
    .expect("device should be created");
    let phone = Device::from_identity_keypair(
        DeviceId::new("alice-phone").expect("device id should be valid"),
        member_id,
        "Alice Phone",
        &IdentityKeyPair::generate(),
    )
    .expect("device should be created");

    member.add_device(laptop).expect("first device should fit");
    member.add_device(phone).expect("second device should fit");

    assert_eq!(member.devices().len(), 2);
    assert!(member.verified_devices().is_empty());
}

#[test]
fn safety_number_is_symmetric_and_can_verify_device() {
    let alice_device = make_device("alice", "alice-phone", "Alice Phone");
    let mut bob_device = make_device("bob", "bob-phone", "Bob Phone");

    let from_alice = alice_device.safety_number_with(&bob_device);
    let from_bob = bob_device.safety_number_with(&alice_device);

    assert_eq!(from_alice, from_bob);
    assert!(!from_alice.digits().is_empty());

    bob_device
        .verify_with_safety_number(&alice_device, &from_alice)
        .expect("matching safety number should verify");

    assert_eq!(
        bob_device.verification_status(),
        &VerificationStatus::Verified { method: VerificationMethod::SafetyNumber }
    );
}

#[test]
fn member_level_safety_verification_fails_on_wrong_number() {
    let alice_device = make_device("alice", "alice-main", "Alice Main");
    let bob_member_id = MemberId::new("bob").expect("member id should be valid");
    let bob_device_id = DeviceId::new("bob-main").expect("device id should be valid");
    let bob_device = Device::from_identity_keypair(
        bob_device_id.duplicate(),
        bob_member_id.duplicate(),
        "Bob Main",
        &IdentityKeyPair::generate(),
    )
    .expect("device should be created");

    let mut bob = MemberProfile::new(bob_member_id, "Bob").expect("member profile should be created");
    bob.add_device(bob_device).expect("device should be added");

    let wrong_safety = SafetyNumber::between(&alice_device, &alice_device);
    let error = bob
        .verify_device_by_safety_number(&bob_device_id, &alice_device, &wrong_safety)
        .expect_err("wrong safety number must fail");

    assert!(matches!(error, CoreError::SafetyNumberMismatch));
}

#[test]
fn messaging_engine_rejects_duplicate_outgoing_message_ids() {
    let alice_device = make_device("alice", "alice-phone", "Alice Phone");
    let bob_device = make_device("bob", "bob-phone", "Bob Phone");
    let mut engine = MessagingEngine::new(alice_device, bob_device);

    engine
        .queue_message("same-id", "chat-main", MessageKind::Text, 1, b"one".to_vec())
        .expect("first message should queue");
    let error = engine
        .queue_message("same-id", "chat-main", MessageKind::Text, 2, b"two".to_vec())
        .expect_err("duplicate ids must be rejected");

    assert!(matches!(
        error,
        MessagingError::DuplicateOutgoingMessageId(message_id) if message_id == "same-id"
    ));
}

#[test]
fn identifiers_and_error_texts() {
    assert_eq!(MemberId::new(" ").unwrap_err(), CoreError::EmptyIdentifier("member_id"));
    assert_eq!(
        DeviceId::new("a/b").unwrap_err().message(),
        "device_id 'a/b' must contain only ASCII letters, digits, '-' or '_'"
    );
    assert_eq!(CoreError::InvalidQrPayloadVersion(3).message(), "unsupported QR payload version 3");
    assert_eq!(
        MessagingError::IncomingOrderTooFarAhead { expected: 1, received: 2000, max_gap: 1024 }.message(),
        "incoming delivery order advanced too far: expected=1, received=2000, max_gap=1024"
    );
    assert_eq!(
        MessagingError::Core(CoreError::SafetyNumberMismatch).message(),
        "core error: provided safety number did not match"
    );
}

#[test]
fn duplicate_device_is_rejected() {
    let mut member = MemberProfile::new(MemberId::new("alice").unwrap(), "Alice").unwrap();
    member.add_device(make_device("alice", "d1", "One")).unwrap();
    assert_eq!(
        member.add_device(make_device("alice", "d1", "Again")).unwrap_err(),
        CoreError::DuplicateDevice("d1".to_string())
    );
    assert!(matches!(
        member.add_device(make_device("bob", "d2", "Foreign")).unwrap_err(),
        CoreError::ForeignDeviceOwner { .. }
    ));
    assert!(member.device(&DeviceId::new("d1").unwrap()).is_some());
}

#[test]
fn qr_verification_marks_matching_device_as_verified() {
    let member_id = MemberId::new("bob").expect("member id should be valid");
    let mut member = MemberProfile::new(member_id.duplicate(), "Bob").expect("member profile should exist");
    let device_id = DeviceId::new("bob-laptop").expect("device id should be valid");

    let device = Device::from_identity_keypair(
        device_id.duplicate(),
        member_id,
        "Bob Laptop",
        &IdentityKeyPair::generate(),
    )
    .expect("device should be created");
    let qr_payload = device.qr_payload(None).expect("QR payload generation should work");

    member.add_device(device).expect("device should be stored");
    member.verify_device_by_qr(&device_id, &qr_payload).expect("matching QR should verify");

    let stored = member.device(&device_id).expect("device should exist");
    assert!(stored.is_verified());
    assert_eq!(
        stored.verification_status(),
        &VerificationStatus::Verified { method: VerificationMethod::QrCode }
    );
}

#[test]
fn qr_verification_rejects_tampered_payload() {
    let mut device = Device::from_identity_keypair(
        DeviceId::new("eve-phone").expect("device id should be valid"),
        MemberId::new("eve").expect("member id should be valid"),
        "Eve Phone",
        &IdentityKeyPair::generate(),
    )
    .expect("device should be created");

    let mut payload = DeviceVerificationQr::from_device(&device, None);
    payload.device_id = "wrong-device".to_string();
    let payload_bytes = payload.encode().expect("payload encoding should work");

    let error = device.verify_with_qr_payload(&payload_bytes).expect_err("tampered QR must be rejected");
    assert!(matches!(error, CoreError::QrPayloadMismatch));
}

#[test]
fn qr_payload_bytes_round_trip_and_reject_other_versions() {
    let device = make_device("dana", "dana-phone", "Dana Phone");
    let bytes = device.qr_payload(None).expect("QR payload generation should work");
    let decoded = DeviceVerificationQr::decode(&bytes).expect("payload should decode");
    assert_eq!(decoded.member_id, "dana");
    assert_eq!(decoded.device_id, "dana-phone");
    assert_eq!(decoded.device_name, "Dana Phone");
    assert_eq!(&decoded.identity_keys, device.identity_keys());
    assert!(decoded.safety_number.matches(&device.safety_number_with(&device)));

    let mut other_version = bytes.clone();
    other_version[0] = 7;
    assert!(matches!(
        DeviceVerificationQr::decode(&other_version),
        Err(CoreError::InvalidQrPayloadVersion(7))
    ));
    assert!(matches!(DeviceVerificationQr::decode(&bytes[..10]), Err(CoreError::Serialization(_))));

    let mut member = MemberProfile::new(MemberId::new("dana").unwrap(), "Dana").unwrap();
    assert!(matches!(
        member.verify_device_by_qr(&DeviceId::new("dana-phone").unwrap(), &bytes),
        Err(CoreError::MissingDevice(id)) if id == "dana-phone"
    ));
}
