use localmessenger::crypto::error::CryptoError;
use localmessenger::crypto::identity::IdentityKeyPair;
use localmessenger::crypto::prekey::LocalPrekeyStore;
use localmessenger::crypto::ratchet::DoubleRatchet;
use localmessenger::crypto::x3dh::{accept_session, initiate_session};
use localmessenger::device::{Device, SafetyNumber};
use localmessenger::ids::{DeviceId, MemberId};
use localmessenger::messaging::engine::MessagingEngine;
use localmessenger::messaging::envelope::MessageKind;
use localmessenger::messaging::error::MessagingError;
use localmessenger::messaging::group::{GroupMembership, GroupParticipant};
use localmessenger::messaging::session::{
    check_offer_binding, check_responder_keys, check_session_request, check_session_response, session_id_from_binding,
    session_request, session_response, transport_certificate_sha256, validate_local_device_identity,
    RemoteSessionOffer, SecureSession, SessionBinding, SessionPeer,
};
use localmessenger::server::rate_limit::{RateLimitBucket, RateLimitProfile, RateLimiter};
use localmessenger::storage::records::pending_store_key;
use sha2::{Digest, Sha256};

fn device_for(member: &str, device: &str, name: &str, identity: &IdentityKeyPair) -> Device {
    Device::from_identity_keypair(
        DeviceId::new(device).expect("device id"),
        MemberId::new(member).expect("member id"),
        name,
        identity,
    )
    .expect("device")
}

fn encode_peer(out: &mut Vec<u8>, peer: &SessionPeer) {
    for text in [&peer.device_id, &peer.member_id, &peer.device_name] {
        out.extend_from_slice(&(text.len() as u64).to_le_bytes());
        out.extend_from_slice(text.as_bytes());
    }
    out.extend_from_slice(&peer.identity_keys.agreement_public_key);
    out.extend_from_slice(&peer.identity_keys.signing_public_key);
}

fn encode_binding(binding: &SessionBinding) -> Vec<u8> {
    let mut out = vec![binding.version];
    encode_peer(&mut out, &binding.initiator);
    encode_peer(&mut out, &binding.responder);
    out.extend_from_slice(&binding.responder_transport_certificate_sha256);
    out
}

#[test]
fn secure_session_bootstrap_supports_encrypted_round_trip() {
    let alice_identity = IdentityKeyPair::generate();
    let bob_identity = IdentityKeyPair::generate();
    let alice_device = device_for("alice", "alice-laptop", "Alice Laptop", &alice_identity);
    let bob_device = device_for("bob", "bob-phone", "Bob Phone", &bob_identity);
    let mut bob_store = LocalPrekeyStore::generate(&bob_identity, 9, 2, 40);
    let bob_certificate = b"bob transport certificate";

    assert_eq!(check_responder_keys(&bob_device, &bob_identity, &bob_store), Ok(()));
    assert_eq!(validate_local_device_identity(&alice_device, &alice_identity), Ok(()));

    let offer = RemoteSessionOffer::from_parts(
        bob_device.duplicate(),
        bob_store.public_bundle(),
        transport_certificate_sha256(bob_certificate),
    )
    .expect("offer");
    let trusted = check_offer_binding(bob_certificate, &offer).expect("pinned certificate");
    assert_eq!(trusted, <[u8; 32]>::from(Sha256::digest(bob_certificate)));

    let initiator = initiate_session(&alice_identity, offer.prekey_bundle()).expect("initiator");
    let request = session_request(&alice_device, &offer, trusted, initiator.handshake.clone());

    let bob_sha = transport_certificate_sha256(bob_certificate);
    assert_eq!(check_session_request(&request, &SessionPeer::from_device(&bob_device), bob_sha), Ok(()));
    let initiator_device = request.initiator.clone().try_into_device().expect("initiator device");
    assert_eq!(initiator_device.device_id().as_str(), "alice-laptop");
    let responder = accept_session(&bob_identity, &mut bob_store, &request.x3dh).expect("responder");
    let (response, bob_binding) =
        session_response(&request, &bob_device, bob_sha, responder.consumed_one_time_prekey_id);
    assert_eq!(response.consumed_one_time_prekey_id, Some(40));

    let alice_binding =
        check_session_response(&response, &request.expected_responder, trusted, request.initiator.clone())
            .expect("response");
    assert_eq!(encode_binding(&alice_binding), encode_binding(&bob_binding));

    let mut alice_session = SecureSession::new(
        alice_device.duplicate(),
        bob_device.duplicate(),
        Some(trusted),
        DoubleRatchet::from_seed(initiator.seed),
        encode_binding(&alice_binding),
    );
    let mut bob_session = SecureSession::new(
        bob_device.duplicate(),
        initiator_device,
        None,
        DoubleRatchet::from_seed(responder.seed),
        encode_binding(&bob_binding),
    );
    assert_eq!(alice_session.session_id(), bob_session.session_id());
    let mut expected_id = Sha256::new();
    expected_id.update(b"localmessenger/secure-session/v1");
    expected_id.update(encode_binding(&alice_binding));
    let expected_id: [u8; 32] = expected_id.finalize().into();
    assert_eq!(*alice_session.session_id(), expected_id);
    assert_eq!(session_id_from_binding(&encode_binding(&bob_binding)), expected_id);
    assert_eq!(alice_session.remote_transport_certificate_sha256(), Some(trusted));
    assert_eq!(bob_session.remote_transport_certificate_sha256(), None);

    let hello = alice_session.encrypt(b"hello bob").expect("encrypt");
    assert_eq!(bob_session.decrypt(&hello).expect("decrypt"), b"hello bob".to_vec());
    let reply = bob_session.encrypt(b"hello alice").expect("encrypt reply");
    assert_eq!(alice_session.decrypt(&reply).expect("decrypt reply"), b"hello alice".to_vec());

    let mut other_binding = alice_binding.clone();
    other_binding.responder_transport_certificate_sha256 = [0_u8; 32];
    let charlie_identity = IdentityKeyPair::generate();
    let mut charlie_store = LocalPrekeyStore::generate(&charlie_identity, 3, 1, 1);
    let to_charlie = initiate_session(&alice_identity, &charlie_store.public_bundle()).expect("initiator");
    let charlie_side = accept_session(&charlie_identity, &mut charlie_store, &to_charlie.handshake).expect("responder");
    let charlie_device = device_for("charlie", "charlie-phone", "Charlie Phone", &charlie_identity);
    let mut sender = SecureSession::new(
        alice_device.duplicate(),
        charlie_device.duplicate(),
        None,
        DoubleRatchet::from_seed(to_charlie.seed),
        encode_binding(&alice_binding),
    );
    let mut receiver = SecureSession::new(
        charlie_device,
        alice_device.duplicate(),
        None,
        DoubleRatchet::from_seed(charlie_side.seed),
        encode_binding(&other_binding),
    );
    let sealed = sender.encrypt(b"bound").expect("encrypt");
    assert_eq!(receiver.decrypt(&sealed), Err(MessagingError::Crypto(CryptoError::DecryptionFailed)));
}

#[test]
fn initiator_rejects_transport_binding_mismatch_before_handshake() {
    let bob_identity = IdentityKeyPair::generate();
    let bob_device = device_for("bob", "bob-phone", "Bob Phone", &bob_identity);
    let bob_store = LocalPrekeyStore::generate(&bob_identity, 9, 1, 1);
    let offer = RemoteSessionOffer::from_parts(
        bob_device.duplicate(),
        bob_store.public_bundle(),
        transport_certificate_sha256(b"expected-cert"),
    )
    .expect("offer");
    assert_eq!(
        check_offer_binding(b"unexpected-cert", &offer),
        Err(MessagingError::TransportBindingMismatch)
    );
}

#[test]
fn remote_offer_checks_bundle_and_identity() {
    let bob_identity = IdentityKeyPair::generate();
    let bob_device = device_for("bob", "bob-phone", "Bob Phone", &bob_identity);
    let bob_store = LocalPrekeyStore::generate(&bob_identity, 9, 1, 1);

    let mut tampered = bob_store.public_bundle();
    tampered.signed_prekey.signature[0] ^= 0x55;
    assert_eq!(
        RemoteSessionOffer::from_parts(bob_device.duplicate(), tampered, [1_u8; 32]).map(|_| ()),
        Err(MessagingError::Crypto(CryptoError::InvalidSignature))
    );

    let mallory_identity = IdentityKeyPair::generate();
    let mallory_store = LocalPrekeyStore::generate(&mallory_identity, 9, 1, 1);
    assert_eq!(
        RemoteSessionOffer::from_parts(bob_device.duplicate(), mallory_store.public_bundle(), [1_u8; 32]).map(|_| ()),
        Err(MessagingError::RemoteOfferMismatch("prekey bundle identity does not match remote device identity"))
    );
    assert_eq!(
        check_responder_keys(&bob_device, &bob_identity, &mallory_store),
        Err(MessagingError::LocalDeviceIdentityMismatch)
    );
    assert_eq!(
        validate_local_device_identity(&bob_device, &mallory_identity),
        Err(MessagingError::LocalDeviceIdentityMismatch)
    );
}

#[test]
fn handshake_checks_come_in_order() {
    let alice_identity = IdentityKeyPair::generate();
    let bob_identity = IdentityKeyPair::generate();
    let alice_device = device_for("alice", "alice-laptop", "Alice Laptop", &alice_identity);
    let bob_device = device_for("bob", "bob-phone", "Bob Phone", &bob_identity);
    let mut bob_store = LocalPrekeyStore::generate(&bob_identity, 9, 1, 1);
    let bob_sha = transport_certificate_sha256(b"bob-cert");
    let offer = RemoteSessionOffer::from_parts(bob_device.duplicate(), bob_store.public_bundle(), bob_sha).expect("offer");
    let initiator = initiate_session(&alice_identity, offer.prekey_bundle()).expect("initiator");
    let request = session_request(&alice_device, &offer, bob_sha, initiator.handshake.clone());
    let bob_peer = SessionPeer::from_device(&bob_device);

    let mut wrong_version = request.clone();
    wrong_version.version = 2;
    wrong_version.expected_responder_transport_certificate_sha256 = [0_u8; 32];
    assert_eq!(check_session_request(&wrong_version, &bob_peer, bob_sha), Err(MessagingError::InvalidHandshakeVersion(2)));

    let mut wrong_responder = request.clone();
    wrong_responder.expected_responder.device_name = "Someone Else".to_string();
    assert_eq!(
        check_session_request(&wrong_responder, &bob_peer, bob_sha),
        Err(MessagingError::RemoteBindingMismatch("requested responder device metadata"))
    );
    assert_eq!(check_session_request(&request, &bob_peer, [0_u8; 32]), Err(MessagingError::TransportBindingMismatch));

    let mut wrong_initiator = request.clone();
    wrong_initiator.initiator.identity_keys.signing_public_key[0] ^= 1;
    assert_eq!(
        check_session_request(&wrong_initiator, &bob_peer, bob_sha),
        Err(MessagingError::RemoteBindingMismatch("initiator identity keys"))
    );

    let responder = accept_session(&bob_identity, &mut bob_store, &request.x3dh).expect("responder");
    let (response, _) = session_response(&request, &bob_device, bob_sha, responder.consumed_one_time_prekey_id);
    let mut old_response = response.clone();
    old_response.version = 0;
    assert_eq!(
        check_session_response(&old_response, &request.expected_responder, bob_sha, request.initiator.clone()).map(|_| ()),
        Err(MessagingError::InvalidHandshakeVersion(0))
    );
    let other_peer = SessionPeer::from_device(&alice_device);
    assert_eq!(
        check_session_response(&response, &other_peer, bob_sha, request.initiator.clone()).map(|_| ()),
        Err(MessagingError::RemoteBindingMismatch("responder device metadata"))
    );
    assert_eq!(
        check_session_response(&response, &request.expected_responder, [9_u8; 32], request.initiator.clone()).map(|_| ()),
        Err(MessagingError::TransportBindingMismatch)
    );

    let mut unnamed = request.initiator.clone();
    unnamed.device_id = String::new();
    assert!(matches!(unnamed.try_into_device(), Err(MessagingError::Core(_))));
}

#[test]
fn public_bundle_lists_one_time_prekeys_from_the_start_id() {
    let identity = IdentityKeyPair::generate();
    let full = LocalPrekeyStore::generate(&identity, 7, 2, 100).public_bundle();
    let none = LocalPrekeyStore::generate(&identity, 7, 0, 0).public_bundle();
    assert_eq!(full.first_one_time_prekey().map(|k| k.id), Some(100));
    assert_eq!(full.one_time_prekeys.iter().map(|k| k.id).collect::<Vec<_>>(), vec![100, 101]);
    assert!(none.first_one_time_prekey().is_none());
}

#[test]
fn group_participants_come_in_device_id_order() {
    let zed = device_for("zed", "zed-phone", "Zed Phone", &IdentityKeyPair::generate());
    let amy = device_for("amy", "amy-laptop", "Amy Laptop", &IdentityKeyPair::generate());
    let kim = device_for("kim", "kim-tablet", "Kim Tablet", &IdentityKeyPair::generate());
    let membership = GroupMembership::new(vec![
        GroupParticipant::from_device(&zed),
        GroupParticipant::from_device(&amy),
        GroupParticipant::from_device(&kim),
    ])
    .expect("membership");
    let ids: Vec<String> = membership.participants().iter().map(|p| p.device_id().as_str().to_string()).collect();
    assert_eq!(ids, vec!["amy-laptop", "kim-tablet", "zed-phone"]);
    assert_eq!(membership.len(), 3);
}

#[test]
fn safety_number_digits_are_ten_groups_of_five() {
    let a = device_for("alice", "alice-phone", "Alice Phone", &IdentityKeyPair::generate());
    let b = device_for("bob", "bob-phone", "Bob Phone", &IdentityKeyPair::generate());
    let number = SafetyNumber::between(&a, &b);
    let digits = number.digits();
    assert_eq!(digits.len(), 59);
    let groups: Vec<&str> = digits.split(' ').collect();
    assert_eq!(groups.len(), 10);
    assert!(groups.iter().all(|g| g.len() == 5 && g.chars().all(|c| c.is_ascii_digit())));
    let again = SafetyNumber::between(&b, &a);
    assert!(number.matches(&again));
    assert_eq!(again.digits(), digits);
}

#[test]
fn restored_pending_queue_matches_the_exported_one() {
    let alice = device_for("alice", "alice-phone", "Alice Phone", &IdentityKeyPair::generate());
    let bob = device_for("bob", "bob-phone", "Bob Phone", &IdentityKeyPair::generate());
    let mut a = MessagingEngine::new(alice.duplicate(), bob.duplicate());
    a.queue_message("msg-1", "chat-main", MessageKind::Text, 1_000, b"first".to_vec()).expect("queue");
    a.queue_message("msg-2", "chat-main", MessageKind::Text, 2_000, b"second".to_vec()).expect("queue");

    let mut b = MessagingEngine::new(alice.duplicate(), bob.duplicate());
    assert_eq!(b.restore_pending_queue(a.export_pending_queue()), Ok(()));
    let ids = |e: &MessagingEngine| {
        e.pending_messages().iter().map(|m| (m.message_id().to_string(), m.delivery_order(), m.body().to_vec())).collect::<Vec<_>>()
    };
    assert_eq!(ids(&b), ids(&a));
    assert!(b.is_pending("msg-1") && b.is_pending("msg-2"));
    let next = b.queue_message("msg-3", "chat-main", MessageKind::Text, 3_000, b"third".to_vec()).expect("queue");
    assert_eq!(next.delivery_order(), 2);
    assert_eq!(
        b.restore_pending_queue(a.export_pending_queue()),
        Err(MessagingError::DuplicateOutgoingMessageId("msg-1".to_string()))
    );
}

#[test]
fn rate_limiter_windows_bound_each_bucket() {
    let mut limiter = RateLimiter::new(RateLimitProfile::new(500, 1, 1, 32, 1).expect("profile"));
    assert!(limiter.allow("alice-phone", RateLimitBucket::HealthCheck, 1, 100));
    assert!(!limiter.allow("alice-phone", RateLimitBucket::HealthCheck, 1, 200));
    assert!(limiter.allow("bob-phone", RateLimitBucket::HealthCheck, 1, 200));
    assert!(limiter.allow("alice-phone", RateLimitBucket::HealthCheck, 1, 700));
    assert!(!limiter.allow("alice-phone", RateLimitBucket::BlobChunkBytes, 33, 700));
    assert!(limiter.allow("alice-phone", RateLimitBucket::BlobChunkBytes, 20, 700));
    assert!(limiter.allow("alice-phone", RateLimitBucket::BlobChunkBytes, 12, 800));
    assert!(!limiter.allow("alice-phone", RateLimitBucket::BlobChunkBytes, 1, 900));
}

#[test]
fn pending_store_key_hashes_context_and_signing_secret() {
    let secret = [5_u8; 32];
    let mut hasher = Sha256::new();
    hasher.update(b"localmessenger/pending-store/v1");
    hasher.update(secret);
    let expected: [u8; 32] = hasher.finalize().into();
    assert_eq!(pending_store_key(&secret), expected);
    assert_ne!(pending_store_key(&[6_u8; 32]), expected);
}
