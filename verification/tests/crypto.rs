use localmessenger::crypto::error::CryptoError;
use localmessenger::crypto::identity::IdentityKeyPair;
use localmessenger::crypto::prekey::LocalPrekeyStore;
use localmessenger::crypto::ratchet::{DoubleRatchet, SessionRole};
use localmessenger::crypto::x3dh::{accept_session, initiate_session};

#[test]
fn signed_prekey_bundle_verifies_and_rejects_tampering() {
    let identity = IdentityKeyPair::generate();
    let store = LocalPrekeyStore::generate(&identity, 7, 2, 100);
    let bundle = store.public_bundle();

    assert!(bundle.verify().is_ok());

    let mut tampered = bundle.clone();
    tampered.signed_prekey.signature[0] ^= 0xA5;
    let error = tampered.verify().expect_err("tampered signature must fail");
    assert!(matches!(error, CryptoError::InvalidSignature));
}

#[test]
fn x3dh_session_seed_matches_on_both_sides() {
    let alice = IdentityKeyPair::generate();
    let bob = IdentityKeyPair::generate();
    let mut bob_store = LocalPrekeyStore::generate(&bob, 21, 3, 300);
    let bob_bundle = bob_store.public_bundle();

    let alice_session = initiate_session(&alice, &bob_bundle).expect("initiator session should be created");
    let bob_session = accept_session(&bob, &mut bob_store, &alice_session.handshake)
        .expect("responder session should be created");

    assert_eq!(alice_session.seed.root_key, bob_session.seed.root_key);
    assert_eq!(alice_session.seed.sending_chain_key, bob_session.seed.receiving_chain_key);
    assert_eq!(
        bob_session.consumed_one_time_prekey_id,
        alice_session.handshake.responder_one_time_prekey_id
    );
}

#[test]
fn double_ratchet_round_trip_supports_out_of_order_messages() {
    let alice = IdentityKeyPair::generate();
    let bob = IdentityKeyPair::generate();
    let mut bob_store = LocalPrekeyStore::generate(&bob, 31, 4, 500);
    let bob_bundle = bob_store.public_bundle();

    let alice_bootstrap = initiate_session(&alice, &bob_bundle).expect("initiator bootstrap should succeed");
    let bob_bootstrap = accept_session(&bob, &mut bob_store, &alice_bootstrap.handshake)
        .expect("responder bootstrap should succeed");

    let mut alice_ratchet = DoubleRatchet::from_seed(alice_bootstrap.seed);
    let mut bob_ratchet = DoubleRatchet::from_seed(bob_bootstrap.seed);

    let ad = b"chat:room-1";
    let msg1 = alice_ratchet.encrypt(b"first", ad).expect("first message should encrypt");
    let msg2 = alice_ratchet.encrypt(b"second", ad).expect("second message should encrypt");

    let second = bob_ratchet.decrypt(&msg2, ad).expect("receiver should handle skipped keys");
    let first = bob_ratchet.decrypt(&msg1, ad).expect("receiver should decrypt delayed first message");

    assert_eq!(first, b"first");
    assert_eq!(second, b"second");

    let reply = bob_ratchet.encrypt(b"ack", ad).expect("reply should encrypt after ratchet step");
    let reply_plaintext = alice_ratchet.decrypt(&reply, ad).expect("initiator should decrypt ratcheted reply");
    assert_eq!(reply_plaintext, b"ack");

    let follow_up = alice_ratchet.encrypt(b"after-ratchet", ad).expect("initiator follow-up should encrypt");
    let follow_up_plaintext = bob_ratchet.decrypt(&follow_up, ad).expect("responder should decrypt next ratchet message");
    assert_eq!(follow_up_plaintext, b"after-ratchet");
}

#[test]
fn ratchet_state_snapshot_changes_after_remote_ratchet_step() {
    let alice = IdentityKeyPair::generate();
    let bob = IdentityKeyPair::generate();
    let mut bob_store = LocalPrekeyStore::generate(&bob, 41, 4, 700);
    let bob_bundle = bob_store.public_bundle();

    let alice_bootstrap = initiate_session(&alice, &bob_bundle).expect("initiator bootstrap should succeed");
    let bob_bootstrap = accept_session(&bob, &mut bob_store, &alice_bootstrap.handshake)
        .expect("responder bootstrap should succeed");

    let mut alice_ratchet = DoubleRatchet::from_seed(alice_bootstrap.seed);
    let mut bob_ratchet = DoubleRatchet::from_seed(bob_bootstrap.seed);

    let before = alice_ratchet.state_snapshot();
    let ad = b"chat:security";

    let outbound = alice_ratchet.encrypt(b"probe", ad).expect("probe should encrypt");
    bob_ratchet.decrypt(&outbound, ad).expect("bob should decrypt probe");
    let reply = bob_ratchet.encrypt(b"ack", ad).expect("reply should encrypt");
    alice_ratchet.decrypt(&reply, ad).expect("alice should decrypt reply");

    let after = alice_ratchet.state_snapshot();
    assert_ne!(before.local_ratchet_public(), after.local_ratchet_public());
    assert_ne!(before.remote_ratchet_public(), after.remote_ratchet_public());
    assert_eq!(after.skipped_message_key_count(), 0);
    assert_eq!(after.role(), SessionRole::Initiator);
}

#[test]
fn key_material_round_trip_restores_identity_and_prekeys() {
    let identity = IdentityKeyPair::generate();
    let store = LocalPrekeyStore::generate(&identity, 71, 3, 900);

    let restored_identity = IdentityKeyPair::from_material(&identity.to_material());
    let restored_store = LocalPrekeyStore::from_material(store.to_material()).expect("prekeys should restore");

    assert_eq!(restored_identity.public_keys(), identity.public_keys());
    assert_eq!(restored_store.public_bundle(), store.public_bundle());
}

#[test]
fn replayed_message_is_refused() {
    let alice = IdentityKeyPair::generate();
    let bob = IdentityKeyPair::generate();
    let mut bob_store = LocalPrekeyStore::generate(&bob, 1, 1, 1);
    let alice_session = initiate_session(&alice, &bob_store.public_bundle()).unwrap();
    let bob_session = accept_session(&bob, &mut bob_store, &alice_session.handshake).unwrap();
    let mut alice_ratchet = DoubleRatchet::from_seed(alice_session.seed);
    let mut bob_ratchet = DoubleRatchet::from_seed(bob_session.seed);
    let m = alice_ratchet.encrypt(b"once", b"ad").unwrap();
    assert_eq!(bob_ratchet.decrypt(&m, b"ad").unwrap(), b"once");
    assert_eq!(bob_ratchet.decrypt(&m, b"ad"), Err(CryptoError::ReplayOrDuplicateMessage(0)));
    let mut wrong_version = alice_ratchet.encrypt(b"v", b"ad").unwrap();
    wrong_version.version = 9;
    assert_eq!(bob_ratchet.decrypt(&wrong_version, b"ad"), Err(CryptoError::InvalidHeaderVersion(9)));
    let mut far = alice_ratchet.encrypt(b"far", b"ad").unwrap();
    far.header.message_number = 500;
    assert_eq!(
        bob_ratchet.decrypt(&far, b"ad"),
        Err(CryptoError::MessageNumberTooFarAhead { current: 1, requested: 500, max_skip: 64 })
    );
    let tampered = alice_ratchet.encrypt(b"t", b"ad").unwrap();
    assert_eq!(bob_ratchet.decrypt(&tampered, b"other-ad"), Err(CryptoError::DecryptionFailed));
}

#[test]
fn one_time_prekeys_are_used_once() {
    let alice = IdentityKeyPair::generate();
    let bob = IdentityKeyPair::generate();
    let mut bob_store = LocalPrekeyStore::generate(&bob, 5, 1, 10);
    let bundle = bob_store.public_bundle();
    assert_eq!(bundle.first_one_time_prekey().unwrap().id, 10);
    let session = initiate_session(&alice, &bundle).unwrap();
    accept_session(&bob, &mut bob_store, &session.handshake).unwrap();
    assert!(bob_store.public_bundle().one_time_prekeys.is_empty());
    assert_eq!(
        accept_session(&bob, &mut bob_store, &session.handshake).err(),
        Some(CryptoError::MissingOneTimePrekey(10))
    );
    assert!(matches!(bob_store.take_one_time_prekey(10), Err(CryptoError::MissingOneTimePrekey(10))));
    let mut other = session.handshake.clone();
    other.responder_signed_prekey_id = 6;
    assert_eq!(
        accept_session(&bob, &mut bob_store, &other).err(),
        Some(CryptoError::MissingSignedPrekey(6))
    );
}
