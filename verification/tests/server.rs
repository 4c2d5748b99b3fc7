use localmessenger::server_protocol::messages::MediaKind;
use localmessenger::server::cli::{media_kind_code, parse_flag, parse_media_kind, parse_optional_flag};
use localmessenger::client::auth::{client_auth_hello, client_auth_response};
use localmessenger::device::Device;
use localmessenger::crypto::identity::IdentityKeyPair;
use localmessenger::ids::{DeviceId, MemberId};
use localmessenger::server::auth::{Authenticator, RegisteredDevice};
use localmessenger::server::invites::{check_stored_invite, invite_claims, join_accepted, StoredInvite};
use localmessenger::server::rate_limit::{RateLimitBucket, RateLimitProfile, RateLimiter};
use localmessenger::server::relay::{
    peer_unavailable, queued_notice, route_action, route_outcome, RecipientLookup, RouteAction,
    RoutePeerFrameOutcome,
};
use localmessenger::server_protocol::messages::{
    auth_challenge_payload, AuthHello, AuthResponse, DeviceRegistrationBundle, PeerRelayFrame,
    PeerUnavailableReason, ServerEnvelope, SERVER_PROTOCOL_VERSION,
};

fn sample_bundle(identity: &IdentityKeyPair) -> DeviceRegistrationBundle {
    DeviceRegistrationBundle::new(
        &MemberId::new("alice").expect("member"),
        &DeviceId::new("alice-phone").expect("device"),
        "Alice Phone",
        identity.signing_public(),
    )
}

fn signed_response(identity: &IdentityKeyPair, bundle: &DeviceRegistrationBundle, nonce: [u8; 32]) -> AuthResponse {
    AuthResponse {
        version: SERVER_PROTOCOL_VERSION,
        member_id: bundle.member_id.clone(),
        device_id: bundle.device_id.clone(),
        nonce,
        signature: identity
            .sign_message(&auth_challenge_payload(&bundle.member_id, &bundle.device_id, &nonce))
            .to_vec(),
    }
}

fn hello_for(bundle: &DeviceRegistrationBundle) -> AuthHello {
    AuthHello {
        version: SERVER_PROTOCOL_VERSION,
        member_id: bundle.member_id.clone(),
        device_id: bundle.device_id.clone(),
    }
}

#[test]
fn auth_accepts_valid_signature() {
    let authenticator = Authenticator::new(30_000);
    let identity = IdentityKeyPair::generate();
    let bundle = sample_bundle(&identity);
    let record = RegisteredDevice::from_bundle(&bundle);
    let hello = hello_for(&bundle);
    let mut challenge = authenticator.issue_challenge(1_000);
    let response = signed_response(&identity, &bundle, challenge.challenge.nonce);

    let ok = authenticator
        .verify_response(&hello, &response, &record, &mut challenge, 2_000)
        .expect("auth should verify");
    assert_eq!(ok.device_name, "Alice Phone");
}

#[test]
fn auth_rejects_wrong_key_reuse_expiry_and_disabled_device() {
    let authenticator = Authenticator::new(1_000);
    let identity = IdentityKeyPair::generate();
    let wrong_identity = IdentityKeyPair::generate();
    let bundle = sample_bundle(&identity);
    let hello = hello_for(&bundle);
    let record = RegisteredDevice::from_bundle(&bundle);

    let mut wrong_key_challenge = authenticator.issue_challenge(10);
    let wrong_response = signed_response(&wrong_identity, &bundle, wrong_key_challenge.challenge.nonce);
    assert_eq!(
        authenticator.verify_response(&hello, &wrong_response, &record, &mut wrong_key_challenge, 20).unwrap_err(),
        "invalid auth signature"
    );

    let mut reused_challenge = authenticator.issue_challenge(10);
    let valid_response = signed_response(&identity, &bundle, reused_challenge.challenge.nonce);
    authenticator
        .verify_response(&hello, &valid_response, &record, &mut reused_challenge, 20)
        .expect("first use should work");
    assert_eq!(
        authenticator.verify_response(&hello, &valid_response, &record, &mut reused_challenge, 20).unwrap_err(),
        "challenge already consumed"
    );

    let mut expired_challenge = authenticator.issue_challenge(10);
    let expired_response = signed_response(&identity, &bundle, expired_challenge.challenge.nonce);
    assert_eq!(
        authenticator.verify_response(&hello, &expired_response, &record, &mut expired_challenge, 2_500).unwrap_err(),
        "auth challenge expired"
    );

    let mut disabled_record = RegisteredDevice::from_bundle(&bundle);
    disabled_record.disabled = true;
    let mut disabled_challenge = authenticator.issue_challenge(10);
    let disabled_response = signed_response(&identity, &bundle, disabled_challenge.challenge.nonce);
    assert_eq!(
        authenticator
            .verify_response(&hello, &disabled_response, &disabled_record, &mut disabled_challenge, 20)
            .unwrap_err(),
        "device is disabled"
    );
    assert!(!disabled_challenge.is_consumed());
}

#[test]
fn rate_limiter_blocks_when_bucket_is_exceeded() {
    let mut limiter = RateLimiter::new(RateLimitProfile::new(1_000, 2, 1, 128, 1).expect("profile"));
    assert!(limiter.allow("alice-phone", RateLimitBucket::PeerFrame, 1, 100));
    assert!(limiter.allow("alice-phone", RateLimitBucket::PeerFrame, 1, 200));
    assert!(!limiter.allow("alice-phone", RateLimitBucket::PeerFrame, 1, 300));
}

#[test]
fn rate_limiter_tracks_devices_and_buckets_independently() {
    let mut limiter = RateLimiter::new(RateLimitProfile::new(1_000, 1, 1, 64, 1).expect("profile"));
    assert!(limiter.allow("alice-phone", RateLimitBucket::BlobRequest, 1, 100));
    assert!(limiter.allow("bob-phone", RateLimitBucket::BlobRequest, 1, 100));
    assert!(limiter.allow("alice-phone", RateLimitBucket::BlobChunkBytes, 32, 100));
    assert!(limiter.allow("alice-phone", RateLimitBucket::BlobChunkBytes, 32, 150));
    assert!(!limiter.allow("alice-phone", RateLimitBucket::BlobChunkBytes, 1, 200));
}

#[test]
fn rate_limiter_resets_after_window_rollover() {
    let mut limiter = RateLimiter::new(RateLimitProfile::new(500, 1, 1, 32, 1).expect("profile"));
    assert!(limiter.allow("alice-phone", RateLimitBucket::HealthCheck, 1, 100));
    assert!(!limiter.allow("alice-phone", RateLimitBucket::HealthCheck, 1, 200));
    assert!(limiter.allow("alice-phone", RateLimitBucket::HealthCheck, 1, 700));
}

#[test]
fn rate_limit_profile_validation() {
    assert_eq!(RateLimitProfile::new(0, 1, 1, 1, 1).unwrap_err(), "rate limit window must be greater than zero");
    assert_eq!(RateLimitProfile::new(1, 1, 1, 0, 1).unwrap_err(), "blob chunk byte rate limit must be greater than zero");
    let mut limiter = RateLimiter::new(RateLimitProfile::new(10, 5, 1, 1, 1).unwrap());
    assert!(!limiter.allow("d", RateLimitBucket::PeerFrame, 6, 1));
}

#[test]
fn routing_decisions() {
    assert_eq!(route_action(RecipientLookup::Unknown), RouteAction::Refuse(PeerUnavailableReason::UnknownRecipient));
    assert_eq!(
        route_action(RecipientLookup::Found { disabled: true, online: true }),
        RouteAction::Refuse(PeerUnavailableReason::Disabled)
    );
    assert_eq!(route_action(RecipientLookup::Found { disabled: false, online: true }), RouteAction::Deliver);
    assert_eq!(route_action(RecipientLookup::Found { disabled: false, online: false }), RouteAction::Queue);
    assert_eq!(route_outcome(RouteAction::Queue, true), Ok(RoutePeerFrameOutcome::Queued));
    assert_eq!(route_outcome(RouteAction::Deliver, false), Err(PeerUnavailableReason::Offline));
    let frame = PeerRelayFrame { request_id: 3, recipient_device_id: "bob".to_string(), payload: vec![1] };
    assert_eq!(peer_unavailable(&frame, PeerUnavailableReason::Offline).request_id, 3);
    assert!(matches!(queued_notice(&frame, 9), ServerEnvelope::PeerQueued(q) if q.queued_at_unix_ms == 9));
}

#[test]
fn stored_invite_rules() {
    let mut invite = StoredInvite {
        invite_id: "i".to_string(),
        label: "l".to_string(),
        expires_at_unix_ms: 100,
        max_uses: 1,
        used_count: 0,
        status: "active".to_string(),
    };
    assert_eq!(check_stored_invite(&invite, 100), Ok(()));
    assert_eq!(check_stored_invite(&invite, 101), Err("invite expired".to_string()));
    invite.used_count = 1;
    assert_eq!(check_stored_invite(&invite, 50), Err("invite usage limit reached".to_string()));
    invite.status = "revoked".to_string();
    assert_eq!(check_stored_invite(&invite, 50), Err("invite is not active".to_string()));
    let claims = invite_claims("inv-1", "Home", "127.0.0.1:7443", "relay.local", &[1, 2, 3], 10, 100, 1);
    assert_eq!(claims.server_certificate_der_base64, "AQID");
    assert!(claims.validate().is_ok());
    let identity = IdentityKeyPair::generate();
    let accepted = join_accepted(&claims, &sample_bundle(&identity));
    assert_eq!(accepted.device_id, "alice-phone");
    assert_eq!(accepted.server_name, "relay.local");
}

#[test]
fn client_answer_is_accepted_by_relay() {
    let authenticator = Authenticator::new(30_000);
    let identity = IdentityKeyPair::generate();
    let device = Device::from_identity_keypair(
        DeviceId::new("alice-phone").expect("device"),
        MemberId::new("alice").expect("member"),
        "Alice Phone",
        &identity,
    )
    .expect("device");
    let record = RegisteredDevice::from_bundle(&sample_bundle(&identity));
    let hello = client_auth_hello(&device);
    assert_eq!(hello.device_id, "alice-phone");
    let mut challenge = authenticator.issue_challenge(1_000);
    let response = client_auth_response(&device, &identity, &challenge.challenge);
    assert_eq!(response.signature.len(), 64);
    let ok = authenticator
        .verify_response(&hello, &response, &record, &mut challenge, 2_000)
        .expect("client answer should verify");
    assert_eq!(ok.member_id, "alice");
    assert!(challenge.is_consumed());
}

#[test]
fn flags_and_media_kinds_are_read_from_text() {
    let args: Vec<String> = ["--db", "server.db", "--label", "Home", "--max-uses"].iter().map(|s| s.to_string()).collect();
    assert_eq!(parse_flag(&args, "--db"), Ok("server.db".to_string()));
    assert_eq!(parse_flag(&args, "--cert"), Err("missing required flag --cert".to_string()));
    assert_eq!(parse_flag(&args, "--max-uses"), Err("missing value for --max-uses".to_string()));
    assert_eq!(parse_optional_flag(&args, "--label"), Some("Home".to_string()));
    assert_eq!(parse_optional_flag(&args, "--max-uses"), None);
    assert_eq!(parse_optional_flag(&args, "--ttl-seconds"), None);
    assert_eq!(media_kind_code(MediaKind::Photo), "photo");
    assert_eq!(parse_media_kind("file"), Ok(MediaKind::File));
    assert_eq!(parse_media_kind("video"), Err("unsupported media kind 'video'".to_string()));
}
