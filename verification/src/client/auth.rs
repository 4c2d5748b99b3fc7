//! The client's side of authenticating with the relay: the hello it opens
//! with and the signed answer it gives to the relay's challenge.

use vstd::prelude::*;
use crate::crypto::identity::IdentityKeyPair;
use crate::device::Device;
use crate::outside::{ed25519_accepts, ed25519_key_valid, ed25519_public};
use crate::server::auth::{saturating_sub_i64, verify_response_spec, RegisteredDevice};
use crate::server_protocol::messages::{
    auth_challenge_payload, auth_challenge_payload_spec, AuthChallenge, AuthHello, AuthResponse,
    SERVER_PROTOCOL_VERSION,
};
use crate::text::owned;

verus! {

/// The hello a device authenticates with.
pub fn client_auth_hello(device: &Device) -> (r: AuthHello)
    ensures
        r.version == SERVER_PROTOCOL_VERSION,
        r.member_id@ == device@.owner_member_id,
        r.device_id@ == device@.device_id,
{
    AuthHello {
        version: SERVER_PROTOCOL_VERSION,
        member_id: owned(device.owner_member_id().as_str()),
        device_id: owned(device.device_id().as_str()),
    }
}

/// The device's answer to a challenge: its identities, the challenge's
/// nonce, and its signature over the challenge payload, which the device's
/// verifying key accepts.
pub fn client_auth_response(device: &Device, identity: &IdentityKeyPair, challenge: &AuthChallenge) -> (r: AuthResponse)
    ensures
        r.version == SERVER_PROTOCOL_VERSION,
        r.member_id@ == device@.owner_member_id,
        r.device_id@ == device@.device_id,
        r.nonce == challenge.nonce,
        r.signature@.len() == 64,
        ed25519_accepts(
            ed25519_public(identity.signing_seed_spec()),
            auth_challenge_payload_spec(device@.owner_member_id, device@.device_id, challenge.nonce@),
            r.signature@,
        ),
{
    let payload = auth_challenge_payload(device.owner_member_id().as_str(), device.device_id().as_str(), &challenge.nonce);
    let signature = identity.sign_message(payload.as_slice());
    let mut bytes: Vec<u8> = Vec::new();
    let mut i: usize = 0;
    while i < 64
        invariant
            i <= 64,
            bytes@ == signature@.subrange(0, i as int),
        decreases 64 - i,
    {
        bytes.push(signature[i]);
        i = i + 1;
        assert(bytes@ =~= signature@.subrange(0, i as int));
    }
    assert(bytes@ =~= signature@);
    AuthResponse {
        version: SERVER_PROTOCOL_VERSION,
        member_id: owned(device.owner_member_id().as_str()),
        device_id: owned(device.device_id().as_str()),
        nonce: challenge.nonce,
        signature: bytes,
    }
}

/// The relay accepts the answer a registered, enabled device signs to an
/// unanswered challenge within its time to live: when the device's hello
/// and answer carry its registered identities, the answer carries the
/// challenge's nonce and the registered key is a valid key that accepts the
/// answer's signature over the challenge payload.
pub proof fn lemma_signed_answer_accepted(
    ttl: i64,
    hello: AuthHello,
    response: AuthResponse,
    record: RegisteredDevice,
    challenge: AuthChallenge,
    now: i64,
)
    requires
        hello.member_id@ == record.member_id@,
        hello.device_id@ == record.device_id@,
        response.version == SERVER_PROTOCOL_VERSION,
        response.member_id@ == hello.member_id@,
        response.device_id@ == hello.device_id@,
        response.nonce == challenge.nonce,
        response.signature@.len() == 64,
        saturating_sub_i64(now, challenge.issued_at_unix_ms) <= ttl,
        !record.disabled,
        ed25519_key_valid(record.auth_public_key@),
        ed25519_accepts(
            record.auth_public_key@,
            auth_challenge_payload_spec(hello.member_id@, hello.device_id@, response.nonce@),
            response.signature@,
        ),
    ensures
        verify_response_spec(ttl, hello, response, record, false, challenge, now) == Ok::<(), Seq<char>>(()),
{
}

} // verus!
