use localmessenger::client::peer_list::peer_views;
use localmessenger::client::views::PeerStateCode;
use localmessenger::discovery::address::socket_address_string;
use localmessenger::discovery::peer::PeerCapability;
use localmessenger::client::labels::check_peer_chat;
use localmessenger::discovery::peer::{DiscoveredPeer, IpAddress, SocketAddress};
use localmessenger::client::chats::ChatBook;
use localmessenger::client::media::{DirectTransferReceipt, MediaRoute};
use localmessenger::client::relay::TransportRoute;
use localmessenger::client::runtime::{RuntimeInboundMessage, RuntimeSendOutcome};
use localmessenger::client::sending::{check_round_trip, direct_status_label, relay_status_label};
use localmessenger::client::trust::{find_remote_device, presence_state_for_device, security_label_for_device};
use localmessenger::client::verification::{verification_workspace, verify_contact_device};
use localmessenger::client::views::VerificationAction;
use localmessenger::device::{VerificationMethod, VerificationStatus};
use localmessenger::client::views::{
    ChatKindView, ChatThreadView, DeliveryStateView, MessageDirectionView, MessageView, PresenceStateView,
};
use localmessenger::crypto::identity::IdentityKeyPair;
use localmessenger::device::Device;
use localmessenger::ids::{DeviceId, MemberId};
use localmessenger::member::MemberProfile;

fn message(id: &str, body: &str) -> MessageView {
    MessageView {
        id: id.to_string(),
        author: "Bob".to_string(),
        body: body.to_string(),
        timestamp_label: "now".to_string(),
        direction: MessageDirectionView::Inbound,
        delivery_state: DeliveryStateView::Delivered,
        forwarded_from: None,
        reply_preview: None,
        reactions: Vec::new(),
        attachments: Vec::new(),
    }
}

fn thread(id: &str, title: &str, kind: ChatKindView, unread: u32) -> ChatThreadView {
    ChatThreadView {
        id: id.to_string(),
        title: title.to_string(),
        summary: String::new(),
        presence_label: String::new(),
        presence_state: PresenceStateView::Offline,
        unread_count: unread,
        security_label: String::new(),
        kind,
        participants: Vec::new(),
        messages: vec![message("m-1", "I am back on the local runtime. QUIC path is stable now.")],
    }
}

fn book() -> ChatBook {
    ChatBook {
        chats: vec![
            thread("chat-bob", "Bob", ChatKindView::Direct, 1),
            thread("chat-group", "LAN Crew", ChatKindView::Group, 0),
        ],
        message_counter: 100,
        local_display_name: "Rimus".to_string(),
        last_notification: "No new notifications".to_string(),
        tray_status: "Tray idle".to_string(),
    }
}

#[test]
fn send_checks_come_in_order() {
    let book = book();
    assert_eq!(
        book.prepare_send("chat-bob", "   ", None, Some("bob-phone")).unwrap_err(),
        "message body cannot be empty"
    );
    assert_eq!(
        book.prepare_send("chat-bob", "hi", Some("m-9"), Some("bob-phone")).unwrap_err(),
        "message 'm-9' was not found"
    );
    assert_eq!(book.prepare_send("chat-x", "hi", None, None).unwrap_err(), "chat 'chat-x' not found");
    assert_eq!(
        book.prepare_send("chat-group", "hi", None, None).unwrap_err(),
        "group messaging is still staged in the desktop client"
    );
    assert_eq!(
        book.prepare_send("chat-bob", "hi", None, None).unwrap_err(),
        "chat 'chat-bob' is not bound to a runtime session"
    );
    let (body, reply) = book.prepare_send("chat-bob", "  Reply path works ", Some("m-1"), Some("bob-phone")).expect("ok");
    assert_eq!(body, "Reply path works");
    assert_eq!(reply, Some("I am back on the local runtime. QUIC path is stable now.".to_string()));
}

#[test]
fn recorded_send_shows_replies_as_unread() {
    let mut book = book();
    let id = book.next_message_id();
    assert_eq!(id, "local-101");
    let outcome = RuntimeSendOutcome {
        outbound_acknowledged: true,
        inbound_messages: vec![RuntimeInboundMessage {
            message_id: "bob-1".to_string(),
            body: "QUIC lane is clear on my side.".to_string(),
            sent_at_unix_ms: 5,
        }],
        forward_secrecy_active: true,
    };
    book.record_sent(
        "chat-bob",
        id,
        "UI smoke message".to_string(),
        None,
        1,
        outcome,
        "Bob",
        TransportRoute::DirectLan,
        "Verified device pair · Forward secrecy active".to_string(),
    )
    .expect("recorded");
    let chat = &book.chats[0];
    assert_eq!(chat.messages.len(), 3);
    assert_eq!(chat.messages[1].body, "UI smoke message");
    assert_eq!(chat.messages[1].delivery_state, DeliveryStateView::Seen);
    assert_eq!(chat.messages[2].author, "Bob");
    assert_eq!(chat.messages[2].reply_preview, Some("UI smoke message".to_string()));
    assert_eq!(chat.unread_count, 2);
    assert_eq!(chat.summary, "QUIC lane is clear on my side.");
    assert_eq!(chat.presence_label, "secure session active · direct LAN");
    assert_eq!(book.last_notification, "Bob replied in Bob");
    assert_eq!(book.tray_status, "2 unread");

    let quiet = RuntimeSendOutcome { outbound_acknowledged: false, inbound_messages: Vec::new(), forward_secrecy_active: false };
    book.record_sent("chat-bob", "local-102".to_string(), "ping".to_string(), None, 2, quiet, "Bob", TransportRoute::ServerRelay, "x".to_string())
        .expect("recorded");
    let chat = &book.chats[0];
    assert_eq!(chat.messages.last().unwrap().delivery_state, DeliveryStateView::Sent);
    assert_eq!(chat.unread_count, 0);
    assert_eq!(chat.presence_label, "relay preferred, direct LAN fallback active for this demo chat");
    assert_eq!(book.last_notification, "Bob replied in Bob");
}

#[test]
fn media_checks_and_recording() {
    let mut book = book();
    assert_eq!(book.prepare_media("chat-bob", " ", "image/png", "aGk=", None, true).unwrap_err(), "file name cannot be empty");
    assert_eq!(book.prepare_media("chat-bob", "a.png", " ", "aGk=", None, true).unwrap_err(), "mime type cannot be empty");
    assert!(book.prepare_media("chat-bob", "a.png", "image/png", "!!", None, true).unwrap_err().starts_with("invalid base64 payload: "));
    assert_eq!(book.prepare_media("chat-bob", "a.png", "image/png", "", None, true).unwrap_err(), "media payload cannot be empty");
    assert_eq!(
        book.prepare_media("chat-group", "a.png", "image/png", "aGk=", None, true).unwrap_err(),
        "group media transfer is still staged in the desktop client"
    );
    let direct = book.prepare_media("chat-bob", "a.png", "image/png", "aGk=", None, false).expect("media");
    assert_eq!(direct.route, MediaRoute::DirectQuic);
    let media = book.prepare_media("chat-bob", " photo.png ", "image/png", "aGk=", None, true).expect("media");
    assert_eq!(media.route, MediaRoute::RelayBlobStore);
    assert_eq!(media.plaintext, b"hi".to_vec());
    assert_eq!(media.file_name, "photo.png");

    book.record_media("chat-bob", media, "2 B".to_string(), relay_status_label("blob-1"), Some("blob-1".to_string()), 7)
        .expect("recorded");
    let chat = &book.chats[0];
    let sent = chat.messages.last().unwrap();
    assert_eq!(sent.id, "local-101");
    assert_eq!(sent.body, "Shared photo: photo.png");
    assert_eq!(sent.attachments[0].id, "att-101");
    assert_eq!(sent.attachments[0].transfer_route, "server_blob_store");
    assert_eq!(sent.attachments[0].status_label, "encrypted relay blob ready · blob-1");
    assert_eq!(sent.attachments[0].preview_data_url, Some("data:image/png;base64,aGk=".to_string()));
    assert_eq!(chat.unread_count, 0);
    assert_eq!(chat.presence_label, "relay blob storage active for small media");
    assert_eq!(book.last_notification, "Shared media in Bob");
    assert_eq!(book.tray_status, "Tray idle");

    let receipt = DirectTransferReceipt {
        transfer_id: "xfer-1".to_string(),
        transferred_bytes: 180_000,
        sha256_hex: "0123456789abcdef".repeat(4),
    };
    assert_eq!(direct_status_label(&receipt), "direct QUIC handoff complete · xfer-1 · 180000 bytes · 0123456789ab");
    assert_eq!(check_round_trip(b"abc", b"abc"), Ok(()));
    assert_eq!(check_round_trip(b"abc", b"abd").unwrap_err(), "relay blob round-trip integrity check failed");
}

#[test]
fn trust_labels_follow_verification() {
    let bob_id = MemberId::new("bob").expect("member");
    let mut bob = MemberProfile::new(bob_id.clone(), "Bob").expect("profile");
    let phone = Device::from_identity_keypair(
        DeviceId::new("bob-phone").expect("device"),
        bob_id.clone(),
        "Bob Phone",
        &IdentityKeyPair::generate(),
    )
    .expect("device");
    bob.add_device(phone).expect("add");
    let contacts = vec![bob];
    assert_eq!(security_label_for_device(&contacts, "bob-phone", true), "Verification required before elevated trust");
    assert_eq!(security_label_for_device(&contacts, "eve-phone", true), "Unknown trust state");
    assert_eq!(presence_state_for_device(&contacts, "bob-phone", true), PresenceStateView::Reconnecting);
    assert_eq!(presence_state_for_device(&contacts, "bob-phone", false), PresenceStateView::Offline);
    let found = find_remote_device(&contacts, "bob-phone").expect("found");
    assert_eq!(found.0, 0);
    assert_eq!(found.1.as_str(), "bob-phone");
    assert!(find_remote_device(&contacts, "nobody").is_none());

    let mut contacts = contacts;
    let local = Device::from_identity_keypair(
        DeviceId::new("rimus-laptop").expect("device"),
        MemberId::new("rimus").expect("member"),
        "Rimus Laptop",
        &IdentityKeyPair::generate(),
    )
    .expect("local");
    assert_eq!(
        verify_contact_device(&mut contacts, None, "bob-phone", VerificationAction::Qr).unwrap_err(),
        "local active device is missing"
    );
    assert_eq!(
        verify_contact_device(&mut contacts, Some(&local), "nobody", VerificationAction::Qr).unwrap_err(),
        "device 'nobody' not found"
    );
    let before = verification_workspace(&contacts, Some(&local));
    assert_eq!(before.devices.len(), 1);
    assert_eq!(before.trusted_device_count, 0);
    assert_eq!(before.pending_device_count, 1);
    assert_eq!(before.devices[0].device_id, "bob-phone");
    assert_eq!(before.devices[0].safety_number.len(), 59);
    assert_eq!(verification_workspace(&contacts, None).devices[0].safety_number, "unavailable");
    verify_contact_device(&mut contacts, Some(&local), "bob-phone", VerificationAction::Qr).expect("verified");
    let after = verification_workspace(&contacts, Some(&local));
    assert_eq!(after.trusted_device_count, 1);
    assert_eq!(after.pending_device_count, 0);
    assert_eq!(after.devices[0].safety_number, before.devices[0].safety_number);
    let phone_id = DeviceId::new("bob-phone").expect("device");
    assert_eq!(
        contacts[0].device(&phone_id).expect("device").verification_status(),
        &VerificationStatus::Verified { method: VerificationMethod::QrCode }
    );
    assert_eq!(security_label_for_device(&contacts, "bob-phone", false), "Verified device pair");
    assert_eq!(
        security_label_for_device(&contacts, "bob-phone", true),
        "Verified device pair · Forward secrecy active"
    );
    assert_eq!(presence_state_for_device(&contacts, "bob-phone", true), PresenceStateView::Online);
    verify_contact_device(&mut contacts, Some(&local), "bob-phone", VerificationAction::Safety).expect("verified");
    assert_eq!(
        contacts[0].device(&phone_id).expect("device").verification_status(),
        &VerificationStatus::Verified { method: VerificationMethod::SafetyNumber }
    );
}

#[test]
fn chat_lines_follow_devices_and_new_peer_chats_open() {
    let bob_id = MemberId::new("bob").expect("member");
    let mut bob = MemberProfile::new(bob_id.clone(), "Bob").expect("profile");
    bob.add_device(
        Device::from_identity_keypair(
            DeviceId::new("bob-phone").expect("device"),
            bob_id,
            "Bob Phone",
            &IdentityKeyPair::generate(),
        )
        .expect("device"),
    )
    .expect("add");
    let contacts = vec![bob];
    let mut book = book();
    let bindings = vec![("chat-bob".to_string(), "bob-phone".to_string()), ("chat-x".to_string(), "x".to_string())];
    book.sync_chat_labels(&bindings, &contacts, &vec!["bob-phone".to_string()]);
    assert_eq!(book.chats[0].presence_state, PresenceStateView::Reconnecting);
    assert_eq!(book.chats[0].presence_label, "runtime reachable, verification pending");
    assert_eq!(book.chats[0].security_label, "Verification required before elevated trust");
    assert_eq!(book.chats[1].presence_label, "");
    book.sync_chat_labels(&bindings, &contacts, &Vec::new());
    assert_eq!(book.chats[0].presence_state, PresenceStateView::Offline);
    assert_eq!(book.chats[0].presence_label, "offline");

    let peer = DiscoveredPeer {
        service_instance: "carol".to_string(),
        member_id: MemberId::new("carol").expect("member"),
        device_id: DeviceId::new("carol-laptop").expect("device"),
        device_name: "Carol Laptop".to_string(),
        port: 7070,
        socket_address: None,
        hostname: None,
        capabilities: Vec::new(),
    };
    let bound = vec!["bob-phone".to_string()];
    assert_eq!(check_peer_chat(&bound, "bob-phone", Some(&peer)).unwrap_err(), "Chat with this device already exists");
    assert_eq!(
        check_peer_chat(&bound, "carol-laptop", None).unwrap_err(),
        "Device 'carol-laptop' not found in discovered peers. Refresh peers first."
    );
    assert_eq!(
        check_peer_chat(&bound, "carol-laptop", Some(&peer)).unwrap_err(),
        "Discovered peer 'Carol Laptop' has no network address"
    );
    let mut reachable = peer.clone();
    reachable.socket_address = Some(SocketAddress { ip: IpAddress::V4([10, 0, 0, 2]), port: 7070 });
    assert!(check_peer_chat(&bound, "carol-laptop", Some(&reachable)).is_ok());

    let id = book.open_peer_chat("carol-laptop", "Carol Laptop");
    assert_eq!(id, "chat-carol-laptop");
    let chat = book.chats.last().expect("chat");
    assert_eq!(chat.summary, "Secure session with Carol Laptop");
    assert_eq!(chat.participants, vec!["Rimus".to_string(), "Carol Laptop".to_string()]);
    assert_eq!(book.message_counter, 101);
    assert_eq!(book.last_notification, "Started chat with peer carol-laptop");
    assert_eq!(book.tray_status, "1 unread");
}

#[test]
fn status_lines_read_as_the_client_shows_them() {
    use_status_lines();
}

fn use_status_lines() {
    assert_eq!(localmessenger::client::status::discovery_mode_label(true, 3), "mDNS discovery active (3 peer(s) found)");
    assert_eq!(localmessenger::client::status::discovery_mode_label(false, 3), "mDNS discovery disabled");
    assert!(localmessenger::client::status::updater_status_label(Some("https://u")).starts_with("Signed updater feed configured at https://u,"));
    assert_eq!(
        localmessenger::client::status::updater_status_label(None),
        "No updater feed configured. Release bundles can still produce signed updater artifacts."
    );
    assert_eq!(localmessenger::client::status::invite_ready_status("Kitchen relay", "127.0.0.1:7443"), "Invite ready for Kitchen relay at 127.0.0.1:7443.");
    let join = localmessenger::server_protocol::messages::JoinAccepted {
        version: 1,
        invite_id: "inv-1".to_string(),
        member_id: "rimus".to_string(),
        device_id: "rimus-laptop".to_string(),
        server_addr: "127.0.0.1:7443".to_string(),
        server_name: "relay.local".to_string(),
        server_certificate_der_base64: String::new(),
    };
    assert_eq!(localmessenger::client::status::joined_relay_status(&join), "Joined relay 127.0.0.1:7443 as rimus-laptop.");
    let preview = localmessenger::client::status::joined_invite_preview(&join);
    assert_eq!(preview.label, "Joined relay");
    assert_eq!(preview.expires_at_label, "active");
    let mut book = book();
    book.tray_status = String::new();
    book.refresh_tray();
    assert_eq!(book.tray_status, "1 unread");
}

#[test]
fn addresses_read_as_the_standard_library_prints_them() {
    let v4 = SocketAddress { ip: IpAddress::V4([192, 168, 1, 50]), port: 7070 };
    assert_eq!(socket_address_string(&v4), "192.168.1.50:7070");
    let cases: [([u8; 16], &str); 6] = [
        ([0; 16], "[::]:80"),
        ([0, 0, 0, 0, 0, 0, 0, 0, 0, 0, 0, 0, 0, 0, 0, 1], "[::1]:80"),
        ([0x20, 0x01, 0x0d, 0xb8, 0, 0, 0, 0, 0, 0, 0, 0, 0, 0, 0, 1], "[2001:db8::1]:80"),
        ([0, 0, 0, 0, 0, 0, 0, 0, 0, 0, 0xff, 0xff, 10, 0, 0, 1], "[::ffff:10.0.0.1]:80"),
        ([0, 1, 0, 0, 0, 0, 0, 2, 0, 0, 0, 0, 0, 0, 0, 3], "[1:0:0:2::3]:80"),
        ([0, 1, 0, 0, 0, 0, 0, 2, 0, 0, 0, 0, 0, 3, 0, 4], "[1::2:0:0:3:4]:80"),
    ];
    for (octets, text) in cases {
        let address = SocketAddress { ip: IpAddress::V6(octets), port: 80 };
        assert_eq!(socket_address_string(&address), text);
    }
}

#[test]
fn peer_list_shows_contacts_then_new_peers() {
    let bob_id = MemberId::new("bob").expect("member");
    let mut bob = MemberProfile::new(bob_id.clone(), "Bob").expect("profile");
    for name in ["bob-laptop", "bob-phone"] {
        bob.add_device(
            Device::from_identity_keypair(DeviceId::new(name).expect("device"), bob_id.clone(), "Bob Device", &IdentityKeyPair::generate())
                .expect("device"),
        )
        .expect("add");
    }
    let contacts = vec![bob];
    let peer = |id: &str, address: Option<SocketAddress>| DiscoveredPeer {
        service_instance: id.to_string(),
        member_id: MemberId::new("someone").expect("member"),
        device_id: DeviceId::new(id).expect("device"),
        device_name: format!("{id} name"),
        port: 7070,
        socket_address: address,
        hostname: Some(format!("{id}.local")),
        capabilities: vec![PeerCapability::MessagingV1, PeerCapability::PresenceV1],
    };
    let runtimes = vec![(
        "bob-phone".to_string(),
        peer("bob-phone", Some(SocketAddress { ip: IpAddress::V4([127, 0, 0, 1]), port: 41 })),
    )];
    let discovered = vec![peer("bob-phone", None), peer("zed-tablet", None)];
    let views = peer_views(&contacts, &runtimes, &discovered);
    assert_eq!(views.len(), 3);
    assert_eq!(views[0].device_id, "bob-laptop");
    assert_eq!(views[0].state, PeerStateCode::Dormant);
    assert_eq!(views[0].endpoint, "unknown endpoint");
    assert_eq!(views[0].last_seen_label, "no active runtime");
    assert_eq!(views[1].device_id, "bob-phone");
    assert_eq!(views[1].state, PeerStateCode::Reconnecting);
    assert_eq!(views[1].endpoint, "127.0.0.1:41");
    assert_eq!(views[1].capabilities, vec!["messaging-v1".to_string(), "presence-v1".to_string()]);
    assert_eq!(views[1].trust_label, "pending");
    assert_eq!(views[2].device_id, "zed-tablet");
    assert_eq!(views[2].endpoint, "discovering...");
    assert_eq!(views[2].trust_label, "new peer");
    assert_eq!(views[2].last_seen_label, "discovered via mDNS");
}
