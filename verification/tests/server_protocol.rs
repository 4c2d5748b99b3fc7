use localmessenger::client::peers::{
    direct_reply_message_id, direct_send_acknowledged, group_fanout_id, group_reply_id, remote_device_from_invite,
    reply_fanout_id,
};
use base64::Engine;
use localmessenger::crypto::identity::IdentityKeyPair;
use localmessenger::crypto::prekey::LocalPrekeyStore;
use localmessenger::server_protocol::contacts::{
    contact_invite_preview, encode_contact_invite_link, parse_contact_invite_link, sign_contact_invite,
    verify_contact_invite, DeviceContactInvite, CONTACT_INVITE_LINK_PREFIX,
};
use localmessenger::ids::{DeviceId, MemberId};
use localmessenger::server_protocol::invites::{
    checked_invite_claims, encode_invite_link, parse_invite_link, sign_invite_payload, sign_invite_token,
    verify_invite_link, verify_invite_token, verify_invite_token_payload, INVITE_LINK_PREFIX,
};
use localmessenger::server_protocol::messages::{
    auth_challenge_payload, invite_preview_from_claims, BlobUploadStart, DeviceRegistrationBundle,
    InviteClaims, MediaKind, MAX_RELAY_BLOB_BYTES, SERVER_PROTOCOL_VERSION,
};

#[test]
fn registration_bundle_validates_ids() {
    let bundle = DeviceRegistrationBundle::new(
        &MemberId::new("alice").expect("member id"),
        &DeviceId::new("alice-phone").expect("device id"),
        "Alice Phone",
        [7_u8; 32],
    );

    assert!(bundle.validate().is_ok());
    assert!(!auth_challenge_payload("alice", "alice-phone", &[1_u8; 32]).is_empty());
}

#[test]
fn blob_upload_start_enforces_limits() {
    let valid = BlobUploadStart {
        request_id: 7,
        file_name: "photo.jpg".to_string(),
        mime_type: "image/jpeg".to_string(),
        media_kind: MediaKind::Photo,
        plaintext_bytes: 1024,
        ciphertext_bytes: 2048,
        sha256_hex: "a".repeat(64),
    };
    assert!(valid.validate().is_ok());

    let mut too_large = valid.clone();
    too_large.ciphertext_bytes = MAX_RELAY_BLOB_BYTES + 1;
    assert!(too_large.validate().is_err());
}

fn claims() -> InviteClaims {
    InviteClaims {
        version: SERVER_PROTOCOL_VERSION,
        invite_id: "inv-1".to_string(),
        label: "Home relay".to_string(),
        server_addr: "203.0.113.10:7443".to_string(),
        server_name: "relay.local".to_string(),
        server_certificate_der_base64: "BwcHBwcHBwc".to_string(),
        issued_at_unix_ms: 100,
        expires_at_unix_ms: 200,
        max_uses: 3,
    }
}

fn claims_json(c: &InviteClaims) -> Vec<u8> {
    format!(
        "{{\"version\":{},\"invite_id\":\"{}\",\"label\":\"{}\",\"server_addr\":\"{}\",\"server_name\":\"{}\",\"server_certificate_der_base64\":\"{}\",\"issued_at_unix_ms\":{},\"expires_at_unix_ms\":{},\"max_uses\":{}}}",
        c.version,
        c.invite_id,
        c.label,
        c.server_addr,
        c.server_name,
        c.server_certificate_der_base64,
        c.issued_at_unix_ms,
        c.expires_at_unix_ms,
        c.max_uses
    )
    .into_bytes()
}

fn parse_claims(bytes: Vec<u8>) -> Result<InviteClaims, String> {
    let v: serde_json::Value = serde_json::from_slice(&bytes).map_err(|e| e.to_string())?;
    let text = |k: &str| v[k].as_str().map(|s| s.to_string()).ok_or_else(|| format!("missing field `{k}`"));
    let number = |k: &str| v[k].as_i64().ok_or_else(|| format!("missing field `{k}`"));
    Ok(InviteClaims {
        version: number("version")? as u8,
        invite_id: text("invite_id")?,
        label: text("label")?,
        server_addr: text("server_addr")?,
        server_name: text("server_name")?,
        server_certificate_der_base64: text("server_certificate_der_base64")?,
        issued_at_unix_ms: number("issued_at_unix_ms")?,
        expires_at_unix_ms: number("expires_at_unix_ms")?,
        max_uses: number("max_uses")? as u32,
    })
}

#[test]
fn signed_invite_link_round_trip_verifies() {
    let mut claims = claims();
    claims.server_certificate_der_base64 = base64::engine::general_purpose::URL_SAFE_NO_PAD.encode([7_u8; 8]);
    let link = encode_invite_link(b"secret", &claims, |c| Ok(claims_json(c))).expect("link");
    assert!(link.starts_with(INVITE_LINK_PREFIX));

    let verified = verify_invite_link(b"secret", &link, parse_claims).expect("verify");
    assert_eq!(verified.invite_id, "inv-1");
    assert_eq!(invite_preview_from_claims(&verified).label, "Home relay");
    assert!(verify_invite_link(b"wrong", &link, parse_claims).is_err());
}

#[test]
fn signed_payload_with_invalid_claims_is_refused() {
    let claims = claims();
    let mut unusable = claims.clone();
    unusable.max_uses = 0;
    let token = sign_invite_token(b"secret", &claims, |_| Ok(claims_json(&unusable))).expect("token");
    assert_eq!(
        verify_invite_token(b"secret", &token, parse_claims).map(|c| c.invite_id),
        Err("invite must allow at least one use".to_string())
    );
    assert_eq!(
        checked_invite_claims(parse_claims(claims_json(&unusable)).expect("json")).map(|c| c.invite_id),
        Err("invite must allow at least one use".to_string())
    );
    let unreadable = sign_invite_token(b"secret", &claims, |_| Ok(b"{}".to_vec())).expect("token");
    assert_eq!(
        verify_invite_token(b"secret", &unreadable, parse_claims).map(|c| c.invite_id),
        Err("missing field `version`".to_string())
    );
    assert_eq!(
        sign_invite_token(b"secret", &claims, |_| Err("cannot serialize".to_string())),
        Err("cannot serialize".to_string())
    );
}

#[test]
fn invite_token_errors() {
    assert_eq!(
        verify_invite_token(b"s", "no-dot-here", parse_claims).map(|c| c.invite_id),
        Err("invite token must contain payload and signature".to_string())
    );
    assert!(verify_invite_token_payload(b"s", "abc.!!").is_err());
    assert_eq!(
        parse_invite_link("https://example.com"),
        Err("invite link must start with localmessenger://join?token=".to_string())
    );
    assert_eq!(parse_invite_link("localmessenger://join?token=a.b"), Ok("a.b"));
    let token = sign_invite_payload(b"k", &claims(), b"{}").unwrap();
    assert_eq!(verify_invite_token_payload(b"k", &token), Ok(b"{}".to_vec()));
}

#[test]
fn claims_validation_messages() {
    let mut c = claims();
    assert_eq!(c.validate(), Ok(()));
    c.version = 2;
    assert_eq!(c.validate(), Err("unsupported invite version 2".to_string()));
    let mut c = claims();
    c.label = " ".to_string();
    assert_eq!(c.validate(), Err("invite label cannot be empty".to_string()));
    let mut c = claims();
    c.expires_at_unix_ms = 100;
    assert_eq!(c.validate(), Err("invite expiry must be after issue time".to_string()));
    let mut c = claims();
    c.max_uses = 0;
    assert_eq!(c.validate(), Err("invite must allow at least one use".to_string()));
    let mut c = claims();
    c.server_certificate_der_base64 = "***".to_string();
    assert!(c.validate().is_err());
    assert!(sign_invite_token(b"k", &c, |_| Ok(b"{}".to_vec())).is_err());
}

#[test]
fn registration_and_blob_messages() {
    let mut b = DeviceRegistrationBundle {
        member_id: "".to_string(),
        device_id: "d".to_string(),
        device_name: "n".to_string(),
        auth_public_key: [0; 32],
    };
    assert_eq!(b.validate(), Err("member_id cannot be empty".to_string()));
    b.member_id = "m".to_string();
    b.device_id = "d d".to_string();
    assert_eq!(
        b.validate(),
        Err("device_id 'd d' must contain only ASCII letters, digits, '-' or '_'".to_string())
    );
    b.device_id = "d".to_string();
    b.device_name = " ".to_string();
    assert_eq!(b.validate(), Err("device name cannot be empty".to_string()));

    let mut u = BlobUploadStart {
        request_id: 1,
        file_name: "f".to_string(),
        mime_type: "m".to_string(),
        media_kind: MediaKind::File,
        plaintext_bytes: 1,
        ciphertext_bytes: 0,
        sha256_hex: "0".repeat(64),
    };
    assert_eq!(u.validate(), Err("ciphertext bytes must be greater than zero".to_string()));
    u.ciphertext_bytes = MAX_RELAY_BLOB_BYTES + 1;
    assert_eq!(u.validate(), Err("ciphertext exceeds relay blob limit of 5242880 bytes".to_string()));
    u.ciphertext_bytes = MAX_RELAY_BLOB_BYTES;
    assert_eq!(u.validate(), Ok(()));
    u.sha256_hex = "g".repeat(64);
    assert_eq!(u.validate(), Err("sha256 hex digest must be 64 hex characters".to_string()));
}

#[test]
fn auth_payload_layout() {
    let p = auth_challenge_payload("a", "b", &[9; 32]);
    let context = b"localmessenger/server-auth/v1";
    assert_eq!(&p[..context.len()], context);
    assert_eq!(p[context.len()], 0);
    assert_eq!(p[context.len() + 1], b'a');
    assert_eq!(p[context.len() + 2], 0xff);
    assert_eq!(p[context.len() + 3], b'b');
    assert_eq!(&p[context.len() + 4..], &[9u8; 32]);
}

fn contact_invite_json(
    invite: &localmessenger::server_protocol::contacts::DeviceContactInvite,
    with_signature: bool,
) -> serde_json::Value {
    let mut fields = serde_json::Map::new();
    fields.insert("version".to_string(), serde_json::Value::from(invite.version));
    fields.insert("member_id".to_string(), serde_json::Value::from(invite.member_id.clone()));
    fields.insert("device_id".to_string(), serde_json::Value::from(invite.device_id.clone()));
    fields.insert("display_name".to_string(), serde_json::Value::from(invite.display_name.clone()));
    fields.insert("server_addr".to_string(), serde_json::Value::from(invite.server_addr.clone()));
    fields.insert("server_name".to_string(), serde_json::Value::from(invite.server_name.clone()));
    fields.insert(
        "server_certificate_der_base64".to_string(),
        serde_json::Value::from(invite.server_certificate_der_base64.clone()),
    );
    fields.insert(
        "device_transport_certificate_der_base64".to_string(),
        serde_json::Value::from(invite.device_transport_certificate_der_base64.clone()),
    );
    fields.insert(
        "identity_keys".to_string(),
        serde_json::Value::from(invite.identity_keys.signing_public_key.to_vec()),
    );
    fields.insert("issued_at_unix_ms".to_string(), serde_json::Value::from(invite.issued_at_unix_ms));
    fields.insert("expires_at_unix_ms".to_string(), serde_json::Value::from(invite.expires_at_unix_ms));
    if with_signature {
        fields.insert("signature".to_string(), serde_json::Value::from(invite.signature.clone()));
    }
    serde_json::Value::Object(fields)
}

#[test]
fn signed_contact_invite_round_trip_verifies() {
    let engine = base64::engine::general_purpose::URL_SAFE_NO_PAD;
    let identity = IdentityKeyPair::generate();
    let prekeys = LocalPrekeyStore::generate(&identity, 7, 0, 0);
    let mut invite = DeviceContactInvite {
        version: SERVER_PROTOCOL_VERSION,
        member_id: "alice".to_string(),
        device_id: "alice-phone".to_string(),
        display_name: "Alice".to_string(),
        server_addr: "203.0.113.10:7443".to_string(),
        server_name: "relay.local".to_string(),
        server_certificate_der_base64: engine.encode([1_u8; 8]),
        device_transport_certificate_der_base64: engine.encode([2_u8; 8]),
        identity_keys: identity.public_keys(),
        prekey_bundle: prekeys.public_bundle(),
        issued_at_unix_ms: 100,
        expires_at_unix_ms: 200,
        signature: Vec::new(),
    };
    let unsigned_json = serde_json::to_vec(&contact_invite_json(&invite, false)).expect("unsigned json");
    sign_contact_invite(&identity, &mut invite, &unsigned_json).expect("sign");
    let invite_json = serde_json::to_vec(&contact_invite_json(&invite, true)).expect("invite json");

    let link = encode_contact_invite_link(&invite, &unsigned_json, &invite_json).expect("link");
    assert!(link.starts_with(CONTACT_INVITE_LINK_PREFIX));

    let parsed_json = parse_contact_invite_link(&link).expect("parse");
    let parsed: serde_json::Value = serde_json::from_slice(&parsed_json).expect("parsed json");
    let mut parsed_invite = invite.clone();
    parsed_invite.device_id = parsed["device_id"].as_str().expect("device id").to_string();
    parsed_invite.signature = parsed["signature"]
        .as_array()
        .expect("signature")
        .iter()
        .map(|byte| byte.as_u64().expect("byte") as u8)
        .collect();
    assert!(parsed_invite.validate(&unsigned_json).is_ok());
    let preview = contact_invite_preview(&parsed_invite);
    assert_eq!(preview.device_id, "alice-phone");
    assert_eq!(parsed_invite.signature, invite.signature);
}

#[test]
fn contact_invite_checks_fields_and_signature() {
    let engine = base64::engine::general_purpose::URL_SAFE_NO_PAD;
    let identity = IdentityKeyPair::generate();
    let prekeys = LocalPrekeyStore::generate(&identity, 3, 1, 10);
    let mut invite = DeviceContactInvite {
        version: SERVER_PROTOCOL_VERSION,
        member_id: "bob".to_string(),
        device_id: "bob-laptop".to_string(),
        display_name: "Bob".to_string(),
        server_addr: "relay:7443".to_string(),
        server_name: "relay.local".to_string(),
        server_certificate_der_base64: engine.encode([3_u8; 4]),
        device_transport_certificate_der_base64: engine.encode([4_u8; 4]),
        identity_keys: identity.public_keys(),
        prekey_bundle: prekeys.public_bundle(),
        issued_at_unix_ms: 10,
        expires_at_unix_ms: 20,
        signature: Vec::new(),
    };
    sign_contact_invite(&identity, &mut invite, b"unsigned").expect("sign");
    assert!(verify_contact_invite(&invite, b"unsigned").is_ok());
    assert_eq!(verify_contact_invite(&invite, b"changed"), Err("invalid prekey signature".to_string()));

    let mut expired = invite.clone();
    expired.expires_at_unix_ms = 10;
    assert_eq!(expired.validate(b"unsigned"), Err("contact invite expiry must be after issue time".to_string()));
    let mut bad_member = invite.clone();
    bad_member.member_id = "bob!".to_string();
    assert_eq!(
        bad_member.validate(b"unsigned"),
        Err("member_id 'bob!' must contain only ASCII letters, digits, '-' or '_'".to_string())
    );
    let mut old_version = invite.clone();
    old_version.version = 9;
    assert_eq!(old_version.validate(b"unsigned"), Err("unsupported contact invite version 9".to_string()));
    assert_eq!(
        parse_contact_invite_link("localmessenger://join?token=abc"),
        Err("contact invite link must start with localmessenger://contact?token=".to_string())
    );
}

#[test]
fn contact_invite_describes_a_pending_device() {
    let identity = IdentityKeyPair::generate();
    let prekeys = LocalPrekeyStore::generate(&identity, 7, 0, 0);
    let mut invite = DeviceContactInvite {
        version: SERVER_PROTOCOL_VERSION,
        member_id: "bob".to_string(),
        device_id: "bob-laptop".to_string(),
        display_name: "Bob".to_string(),
        server_addr: "relay:7443".to_string(),
        server_name: "relay.local".to_string(),
        server_certificate_der_base64: String::new(),
        device_transport_certificate_der_base64: String::new(),
        identity_keys: identity.public_keys(),
        prekey_bundle: prekeys.public_bundle(),
        issued_at_unix_ms: 10,
        expires_at_unix_ms: 20,
        signature: Vec::new(),
    };
    let device = remote_device_from_invite(&invite).expect("device");
    assert_eq!(device.device_id().as_str(), "bob-laptop");
    assert!(!device.is_verified());
    invite.display_name = "  ".to_string();
    assert_eq!(remote_device_from_invite(&invite).unwrap_err(), "display name cannot be empty");
    invite.member_id = "bad id".to_string();
    assert_eq!(
        remote_device_from_invite(&invite).unwrap_err(),
        "member_id 'bad id' must contain only ASCII letters, digits, '-' or '_'"
    );
    invite.device_id = String::new();
    assert_eq!(remote_device_from_invite(&invite).unwrap_err(), "device_id cannot be empty");

    assert_eq!(direct_reply_message_id("chat-bob", "bob-phone", 2), "chat-bob-bob-phone-reply-2");
    assert_eq!(group_fanout_id("g-1", "carol-phone"), "g-1-to-carol-phone");
    assert_eq!(group_reply_id("carol-phone", 3), "grp-reply-carol-phone-3");
    assert_eq!(reply_fanout_id("grp-reply-carol-phone-3"), "grp-reply-carol-phone-3-to-local");
    assert!(direct_send_acknowledged(1, 0));
    assert!(!direct_send_acknowledged(1, 1));
    assert!(!direct_send_acknowledged(0, 0));
}
