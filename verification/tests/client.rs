use localmessenger::client::relay::parse_transport_order;
use localmessenger::client::runtime::next_reply_body;
use localmessenger::client::views::{DeliveryStateView, MessageDirectionView, MessageView};
use localmessenger::client::chats::ChatBook;
use localmessenger::client::views::ChatKindView;
use localmessenger::client::media::{
    data_url, decrypt_blob, encrypt_blob, encrypt_blob_with, media_kind_for_mime, sha256_hex,
    MediaRoute,
};
use localmessenger::client::relay::{
    decode_join_accepted_certificate, peer_unavailable_reason_label, resolve_active_route,
    unsigned_invite_payload, RelayAuthStatus, RelayServerStatus, TransportRoute,
};
use localmessenger::client::views::{
    attachment_body, invite_preview_view, presence_label, preview, verification_method_code,
    verification_state_code, PresenceStateView, VerificationAction, VerificationMethodCode,
    VerificationStateCode,
};
use localmessenger::device::{VerificationMethod, VerificationStatus};
use localmessenger::server_protocol::invites::encode_invite_payload_link;
use localmessenger::server_protocol::messages::{
    invite_preview_from_claims, InviteClaims, MediaKind, PeerUnavailableReason,
    SERVER_PROTOCOL_VERSION,
};

#[test]
fn route_selection_prefers_healthy_server_relay_and_falls_back_to_direct() {
    assert_eq!(
        resolve_active_route(&[TransportRoute::ServerRelay, TransportRoute::DirectLan], true),
        TransportRoute::ServerRelay
    );
    assert_eq!(
        resolve_active_route(&[TransportRoute::ServerRelay, TransportRoute::DirectLan], false),
        TransportRoute::DirectLan
    );
}

#[test]
fn route_selection_edge_cases() {
    assert_eq!(resolve_active_route(&[], true), TransportRoute::DirectLan);
    assert_eq!(resolve_active_route(&[TransportRoute::ServerRelay], false), TransportRoute::DirectLan);
    assert_eq!(
        resolve_active_route(&[TransportRoute::DirectLan, TransportRoute::ServerRelay], true),
        TransportRoute::DirectLan
    );
    assert_eq!(TransportRoute::ServerRelay.label(), "server_relay");
    assert_eq!(RelayServerStatus::Failed.label(), "failed");
    assert_eq!(RelayAuthStatus::Authenticated.label(), "authenticated");
    assert_eq!(peer_unavailable_reason_label(PeerUnavailableReason::RateLimited), "rate_limited");
}

#[test]
fn invite_preview_extracts_server_details_from_link() {
    let claims = InviteClaims {
        version: SERVER_PROTOCOL_VERSION,
        invite_id: "inv-42".to_string(),
        label: "Home relay".to_string(),
        server_addr: "127.0.0.1:7443".to_string(),
        server_name: "relay.local".to_string(),
        server_certificate_der_base64: "AQEBAQ".to_string(),
        issued_at_unix_ms: 10,
        expires_at_unix_ms: 20,
        max_uses: 2,
    };
    let payload = br#"{"invite_id":"inv-42"}"#;
    let link = encode_invite_payload_link(b"secret", &claims, payload).expect("link");
    assert_eq!(unsigned_invite_payload(&link).expect("payload"), payload.to_vec());
    let preview = invite_preview_from_claims(&claims);
    assert_eq!(preview.server_name, "relay.local");
    assert_eq!(preview.invite_id, "inv-42");
    let shown = invite_preview_view(&preview);
    assert_eq!(shown.expires_at_label, "now");
    assert_eq!(decode_join_accepted_certificate("AQEBAQ").unwrap(), vec![1u8; 4]);
    assert!(decode_join_accepted_certificate("*").is_err());
    assert_eq!(
        unsigned_invite_payload("localmessenger://join?token=abc"),
        Err("invite token must contain payload and signature".to_string())
    );
}

#[test]
fn blob_round_trip_encrypts_and_decrypts() {
    let encrypted = encrypt_blob(b"hello photo").expect("encrypt");
    let decrypted = decrypt_blob(&encrypted).expect("decrypt");
    assert_eq!(decrypted, b"hello photo");
    assert_eq!(encrypted.sha256_hex.len(), 64);
}

#[test]
fn tampered_blob_fails_and_digest_is_of_ciphertext() {
    let mut blob = encrypt_blob_with(b"abc", [3; 32], [4; 12]).unwrap();
    assert_eq!(blob.ciphertext.len(), 3 + 16);
    assert_eq!(blob.sha256_hex, sha256_hex(&blob.ciphertext));
    assert_ne!(blob.ciphertext[..3], b"abc"[..]);
    blob.ciphertext[0] ^= 1;
    assert_eq!(decrypt_blob(&blob), Err("blob decryption failed".to_string()));
    assert_eq!(
        sha256_hex(b""),
        "e3b0c44298fc1c149afbf4c8996fb92427ae41e4649b934ca495991b7852b855"
    );
}

#[test]
fn media_helpers() {
    assert_eq!(media_kind_for_mime("image/png"), MediaKind::Photo);
    assert_eq!(media_kind_for_mime("video/mp4"), MediaKind::File);
    assert_eq!(data_url("text/plain", b"hi"), "data:text/plain;base64,aGk=");
    assert_eq!(MediaRoute::DirectQuic.label(), "p2p_quic_direct");
}

#[test]
fn view_helpers() {
    assert_eq!(VerificationAction::parse("qr"), Ok(VerificationAction::Qr));
    assert_eq!(VerificationAction::parse("safety"), Ok(VerificationAction::Safety));
    assert_eq!(
        VerificationAction::parse("x"),
        Err("unsupported verification action 'x'".to_string())
    );
    let long = "a".repeat(80);
    assert_eq!(preview(&long), format!("{}...", "a".repeat(69)));
    assert_eq!(preview("short"), "short");
    assert_eq!(preview(&"b".repeat(72)), "b".repeat(72));
    assert_eq!(attachment_body("a.png", "image/png"), "Shared photo: a.png");
    assert_eq!(attachment_body("a.pdf", "application/pdf"), "Shared document: a.pdf");
    assert_eq!(attachment_body("a.bin", "application/zip"), "Shared file: a.bin");
    assert_eq!(verification_state_code(&VerificationStatus::Pending), VerificationStateCode::Pending);
    assert_eq!(
        verification_method_code(&VerificationStatus::Verified { method: VerificationMethod::QrCode }),
        Some(VerificationMethodCode::QrCode)
    );
    assert_eq!(presence_label(PresenceStateView::Offline), "offline");
}

#[test]
fn transport_order_parses_known_routes_and_keeps_direct_lan() {
    assert_eq!(
        parse_transport_order(" server_relay , bogus,direct_lan"),
        vec![TransportRoute::ServerRelay, TransportRoute::DirectLan]
    );
    assert_eq!(parse_transport_order("server_relay"), vec![TransportRoute::ServerRelay, TransportRoute::DirectLan]);
    assert_eq!(parse_transport_order(""), vec![TransportRoute::DirectLan]);
    assert_eq!(
        parse_transport_order("direct_lan,server_relay,direct_lan"),
        vec![TransportRoute::DirectLan, TransportRoute::ServerRelay, TransportRoute::DirectLan]
    );
}

#[test]
fn scripted_replies_cycle_and_saturate() {
    let script = vec!["one".to_string(), "two".to_string()];
    assert_eq!(next_reply_body(&script, 0), (Some("one".to_string()), 1));
    assert_eq!(next_reply_body(&script, 3), (Some("two".to_string()), 4));
    assert_eq!(next_reply_body(&script, u64::MAX).1, u64::MAX);
    assert_eq!(next_reply_body(&Vec::new(), 5), (None, 5));
}

fn chat_message(id: &str, body: &str) -> localmessenger::client::views::MessageView {
    MessageView {
        id: id.to_string(),
        author: "Bob".to_string(),
        body: body.to_string(),
        timestamp_label: "now".to_string(),
        direction: MessageDirectionView::Inbound,
        delivery_state: DeliveryStateView::Delivered,
        forwarded_from: None,
        reply_preview: None,
        reactions: Vec::new(),
        attachments: Vec::new(),
    }
}

fn chat_thread(id: &str, title: &str, kind: localmessenger::client::views::ChatKindView, unread: u32) -> localmessenger::client::views::ChatThreadView {
    localmessenger::client::views::ChatThreadView {
        id: id.to_string(),
        title: title.to_string(),
        summary: String::new(),
        presence_label: String::new(),
        presence_state: PresenceStateView::Offline,
        unread_count: unread,
        security_label: String::new(),
        kind,
        participants: Vec::new(),
        messages: vec![chat_message("m-1", "hello there")],
    }
}

#[test]
fn chat_book_toggles_reactions_and_forwards() {
    let mut book = ChatBook {
        chats: vec![
            chat_thread("chat-bob", "Bob", ChatKindView::Direct, 2),
            chat_thread("chat-carol", "Carol", ChatKindView::Direct, 3),
            chat_thread("chat-group", "Friends", ChatKindView::Group, 0),
        ],
        message_counter: 4,
        local_display_name: "Rimus".to_string(),
        last_notification: String::new(),
        tray_status: String::new(),
    };
    assert_eq!(book.total_unread_count(), 5);

    book.toggle_reaction("chat-bob", "m-1", "  +1 ").expect("reaction should toggle");
    assert_eq!(book.chats[0].messages[0].reactions, vec!["+1".to_string()]);
    assert_eq!(book.last_notification, "Reaction updated in Bob");
    assert_eq!(book.tray_status, "5 unread");
    book.toggle_reaction("chat-bob", "m-1", "+1").expect("reaction should toggle back");
    assert!(book.chats[0].messages[0].reactions.is_empty());
    assert_eq!(book.toggle_reaction("chat-bob", "m-1", "   "), Err("reaction cannot be empty".to_string()));
    assert_eq!(book.toggle_reaction("chat-x", "m-1", "+1"), Err("chat 'chat-x' not found".to_string()));
    assert_eq!(book.toggle_reaction("chat-bob", "m-9", "+1"), Err("message 'm-9' was not found".to_string()));

    book.forward_message("chat-bob", "chat-carol", "m-1", 0).expect("forward should succeed");
    let target = &book.chats[1];
    let forwarded = target.messages.last().expect("forwarded message");
    assert_eq!(forwarded.id, "local-5");
    assert_eq!(forwarded.author, "Rimus");
    assert_eq!(forwarded.body, "hello there");
    assert_eq!(forwarded.forwarded_from, Some("Bob".to_string()));
    assert_eq!(forwarded.direction, MessageDirectionView::Outbound);
    assert_eq!(forwarded.delivery_state, DeliveryStateView::Delivered);
    assert_eq!(target.unread_count, 0);
    assert_eq!(target.summary, "hello there");
    assert_eq!(book.last_notification, "Forwarded message to Carol");
    assert_eq!(book.tray_status, "2 unread");
    assert_eq!(
        book.forward_message("chat-bob", "chat-group", "m-1", 0),
        Err("group forwarding is still staged in the desktop client".to_string())
    );

    assert_eq!(book.reply_preview_for("chat-bob", None), Ok(None));
    assert_eq!(book.reply_preview_for("chat-bob", Some("m-1")), Ok(Some("hello there".to_string())));
    assert_eq!(book.reply_preview_for("chat-bob", Some("m-7")), Err("message 'm-7' was not found".to_string()));
}
