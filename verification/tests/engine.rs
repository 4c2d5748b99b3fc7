use localmessenger::crypto::identity::IdentityKeyPair;
use localmessenger::device::Device;
use localmessenger::ids::{DeviceId, MemberId};
use localmessenger::messaging::engine::{IncomingAction, MessagingEngine};
use localmessenger::messaging::envelope::{MessageKind, WireAck};

fn device(member: &str, id: &str) -> Device {
    Device::from_identity_keypair(
        DeviceId::new(id).expect("device id"),
        MemberId::new(member).expect("member id"),
        "Device",
        &IdentityKeyPair::generate(),
    )
    .expect("device")
}

#[test]
fn engine_orders_out_of_order_delivery_and_processes_acks() {
    let alice = device("alice", "alice-phone");
    let bob = device("bob", "bob-phone");
    let mut alice_engine = MessagingEngine::new(alice.duplicate(), bob.duplicate());
    let mut bob_engine = MessagingEngine::new(bob.duplicate(), alice.duplicate());

    alice_engine.queue_message("msg-1", "chat-main", MessageKind::Text, 1_000, b"first".to_vec()).expect("queue");
    alice_engine.queue_message("msg-2", "chat-main", MessageKind::Text, 2_000, b"second".to_vec()).expect("queue");
    let second = alice_engine.begin_send("msg-2").expect("send second");
    let first = alice_engine.begin_send("msg-1").expect("send first");

    assert_eq!(bob_engine.classify_incoming(&second.to_wire()), Ok(IncomingAction::AcknowledgeAndAccept));
    let early = bob_engine.accept_incoming(second.to_wire());
    assert!(early.is_idle());
    assert_eq!(bob_engine.classify_incoming(&second.to_wire()), Ok(IncomingAction::AcknowledgeDuplicate));

    assert_eq!(bob_engine.classify_incoming(&first.to_wire()), Ok(IncomingAction::AcknowledgeAndAccept));
    let released = bob_engine.accept_incoming(first.to_wire());
    assert_eq!(released.delivered_messages().len(), 2);
    assert_eq!(released.delivered_messages()[0].message_id(), "msg-1");
    assert_eq!(released.delivered_messages()[1].message_id(), "msg-2");
    assert_eq!(released.delivered_messages()[0].body(), b"first");
    assert_eq!(released.delivered_messages()[1].body(), b"second");
    assert_eq!(bob_engine.next_expected_incoming_order(), 2);

    let ack_one = alice_engine.handle_ack(WireAck { message_id: "msg-1".to_string(), delivery_order: 0 });
    let ack_two = alice_engine.handle_ack(WireAck { message_id: "msg-2".to_string(), delivery_order: 1 });
    assert_eq!(ack_one.acknowledged_message_ids(), ["msg-1".to_string()]);
    assert_eq!(ack_two.acknowledged_message_ids(), ["msg-2".to_string()]);
    assert_eq!(alice_engine.pending_count(), 0);
    assert!(!alice_engine.is_pending("msg-1") && !alice_engine.is_pending("msg-2"));
}

#[test]
fn engine_retry_is_duplicate_safe() {
    let alice = device("alice", "alice-phone");
    let bob = device("bob", "bob-phone");
    let mut alice_engine = MessagingEngine::new(alice.duplicate(), bob.duplicate());
    let mut bob_engine = MessagingEngine::new(bob.duplicate(), alice.duplicate());

    alice_engine.queue_message("dup-1", "chat-main", MessageKind::Text, 1_000, b"hello".to_vec()).expect("queue");
    let first_attempt = alice_engine.begin_send("dup-1").expect("send");
    let retry = alice_engine.begin_send("dup-1").expect("retry");
    assert_eq!(first_attempt.attempt_count(), 1);
    assert_eq!(retry.attempt_count(), 2);

    let delivered = bob_engine.accept_incoming(first_attempt.to_wire());
    assert_eq!(delivered.delivered_messages().len(), 1);
    assert_eq!(bob_engine.classify_incoming(&retry.to_wire()), Ok(IncomingAction::AcknowledgeDuplicate));
    assert_eq!(bob_engine.next_expected_incoming_order(), 1);

    let acked = alice_engine.handle_ack(WireAck { message_id: "dup-1".to_string(), delivery_order: 0 });
    assert_eq!(acked.acknowledged_message_ids(), ["dup-1".to_string()]);
    assert_eq!(alice_engine.pending_count(), 0);
}
