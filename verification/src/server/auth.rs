//! Challenge-response authentication of registered devices.

use vstd::prelude::*;
use vstd::utf8::encode_utf8;
use crate::bytes::{array64_at, bytes_eq};
use crate::outside::{ed25519_accepts, ed25519_key_decodes, ed25519_key_valid, ed25519_verify, random_bytes_32};
use crate::server_protocol::messages::{
    auth_challenge_payload, auth_challenge_payload_spec, AuthChallenge, AuthHello, AuthOk,
    AuthResponse, DeviceRegistrationBundle, SERVER_PROTOCOL_VERSION,
};
use crate::text::{copy_string, decimal_spec, owned, push_decimal, str_eq};

verus! {

/// A device the relay knows, with the key it authenticates with.
#[derive(Debug, Clone)]
pub struct RegisteredDevice {
    pub member_id: String,
    pub device_id: String,
    pub device_name: String,
    pub auth_public_key: [u8; 32],
    pub disabled: bool,
}

impl RegisteredDevice {
    /// The enabled device a registration describes.
    pub fn from_bundle(bundle: &DeviceRegistrationBundle) -> (r: RegisteredDevice)
        ensures
            r.member_id@ == bundle.member_id@,
            r.device_id@ == bundle.device_id@,
            r.device_name@ == bundle.device_name@,
            r.auth_public_key == bundle.auth_public_key,
            !r.disabled,
    {
        RegisteredDevice {
            member_id: copy_string(&bundle.member_id),
            device_id: copy_string(&bundle.device_id),
            device_name: copy_string(&bundle.device_name),
            auth_public_key: bundle.auth_public_key,
            disabled: false,
        }
    }
}

/// A challenge the relay issued, and whether it has been answered.
#[derive(Debug, Clone)]
pub struct AuthChallengeState {
    pub challenge: AuthChallenge,
    consumed: bool,
}

impl AuthChallengeState {
    pub closed spec fn consumed_spec(&self) -> bool {
        self.consumed
    }

    pub closed spec fn challenge_spec(&self) -> AuthChallenge {
        self.challenge
    }

    /// Whether the challenge has been answered.
    pub fn is_consumed(&self) -> (r: bool)
        ensures
            r == self.consumed_spec(),
    {
        self.consumed
    }
}

/// Checks devices' answers to challenges that expire after a time to live.
#[derive(Debug, Clone)]
pub struct Authenticator {
    challenge_ttl_ms: i64,
}

/// `a - b`, clamped to the range of `i64`.
pub open spec fn saturating_sub_i64(a: i64, b: i64) -> int {
    if a - b > i64::MAX {
        i64::MAX as int
    } else if a - b < i64::MIN {
        i64::MIN as int
    } else {
        a - b
    }
}

fn saturating_sub(a: i64, b: i64) -> (r: i64)
    ensures
        r == saturating_sub_i64(a, b),
{
    let d: i128 = (a as i128) - (b as i128);
    if d > i64::MAX as i128 {
        i64::MAX
    } else if d < i64::MIN as i128 {
        i64::MIN
    } else {
        d as i64
    }
}

/// What answering a challenge gives: the error text, or success.
pub open spec fn verify_response_spec(
    ttl: i64,
    hello: AuthHello,
    response: AuthResponse,
    record: RegisteredDevice,
    consumed: bool,
    challenge: AuthChallenge,
    now: i64,
) -> Result<(), Seq<char>> {
    if consumed {
        Err("challenge already consumed"@)
    } else if response.version != SERVER_PROTOCOL_VERSION {
        Err("unsupported auth response version "@ + decimal_spec(response.version as nat))
    } else if response.member_id@ != hello.member_id@ || response.device_id@ != hello.device_id@ {
        Err("auth response identity does not match hello"@)
    } else if hello.member_id@ != record.member_id@ || hello.device_id@ != record.device_id@ {
        Err("registered device does not match hello"@)
    } else if challenge.nonce@ != response.nonce@ {
        Err("auth nonce mismatch"@)
    } else if saturating_sub_i64(now, challenge.issued_at_unix_ms) > ttl {
        Err("auth challenge expired"@)
    } else if record.disabled {
        Err("device is disabled"@)
    } else if !ed25519_key_valid(record.auth_public_key@) {
        Err("invalid registered public key"@)
    } else if response.signature@.len() != 64 {
        Err("invalid auth signature length"@)
    } else if !ed25519_accepts(
        record.auth_public_key@,
        auth_challenge_payload_spec(hello.member_id@, hello.device_id@, response.nonce@),
        response.signature@,
    ) {
        Err("invalid auth signature"@)
    } else {
        Ok(())
    }
}

impl Authenticator {
    pub fn new(challenge_ttl_ms: i64) -> (r: Authenticator)
        ensures
            r.ttl() == challenge_ttl_ms,
    {
        Authenticator { challenge_ttl_ms }
    }

    pub closed spec fn ttl(&self) -> i64 {
        self.challenge_ttl_ms
    }

    /// A fresh, unanswered challenge with the given nonce.
    pub fn issue_challenge_with(&self, nonce: [u8; 32], now_unix_ms: i64) -> (r: AuthChallengeState)
        ensures
            r.challenge_spec().version == SERVER_PROTOCOL_VERSION,
            r.challenge_spec().nonce == nonce,
            r.challenge_spec().issued_at_unix_ms == now_unix_ms,
            !r.consumed_spec(),
    {
        AuthChallengeState {
            challenge: AuthChallenge { version: SERVER_PROTOCOL_VERSION, nonce, issued_at_unix_ms: now_unix_ms },
            consumed: false,
        }
    }

    /// A fresh, unanswered challenge with a random nonce.
    pub fn issue_challenge(&self, now_unix_ms: i64) -> (r: AuthChallengeState)
        ensures
            r.challenge_spec().version == SERVER_PROTOCOL_VERSION,
            r.challenge_spec().issued_at_unix_ms == now_unix_ms,
            !r.consumed_spec(),
    {
        let nonce = random_bytes_32();
        self.issue_challenge_with(nonce, now_unix_ms)
    }

    /// Checks a device's answer: the challenge is unused and unexpired, the
    /// identities agree, the device is enabled, and its key signed the
    /// challenge payload. A challenge answered successfully cannot be used again.
    pub fn verify_response(
        &self,
        hello: &AuthHello,
        response: &AuthResponse,
        record: &RegisteredDevice,
        challenge: &mut AuthChallengeState,
        now_unix_ms: i64,
    ) -> (r: Result<AuthOk, String>)
        ensures
            match verify_response_spec(
                self.ttl(),
                *hello,
                *response,
                *record,
                old(challenge).consumed_spec(),
                old(challenge).challenge_spec(),
                now_unix_ms,
            ) {
                Err(e) => r matches Err(m) && m@ == e,
                Ok(()) => r matches Ok(ok) && ok.version == SERVER_PROTOCOL_VERSION && ok.member_id@
                    == hello.member_id@ && ok.device_id@ == hello.device_id@ && ok.device_name@
                    == record.device_name@ && ok.server_time_unix_ms == now_unix_ms,
            },
            final(challenge).challenge_spec() == old(challenge).challenge_spec(),
            final(challenge).consumed_spec() == (old(challenge).consumed_spec() || r is Ok),
    {
        if challenge.consumed {
            return Err(owned("challenge already consumed"));
        }
        if response.version != SERVER_PROTOCOL_VERSION {
            let mut e = owned("unsupported auth response version ");
            push_decimal(&mut e, response.version as u64);
            return Err(e);
        }
        if !str_eq(response.member_id.as_str(), hello.member_id.as_str())
            || !str_eq(response.device_id.as_str(), hello.device_id.as_str()) {
            return Err(owned("auth response identity does not match hello"));
        }
        if !str_eq(hello.member_id.as_str(), record.member_id.as_str())
            || !str_eq(hello.device_id.as_str(), record.device_id.as_str()) {
            return Err(owned("registered device does not match hello"));
        }
        if !bytes_eq(&challenge.challenge.nonce, &response.nonce) {
            return Err(owned("auth nonce mismatch"));
        }
        if saturating_sub(now_unix_ms, challenge.challenge.issued_at_unix_ms) > self.challenge_ttl_ms {
            return Err(owned("auth challenge expired"));
        }
        if record.disabled {
            return Err(owned("device is disabled"));
        }
        if !ed25519_key_decodes(&record.auth_public_key) {
            return Err(owned("invalid registered public key"));
        }
        let payload = auth_challenge_payload(hello.member_id.as_str(), hello.device_id.as_str(), &response.nonce);
        if response.signature.len() != 64 {
            return Err(owned("invalid auth signature length"));
        }
        let signature = array64_at(response.signature.as_slice(), 0);
        assert(response.signature@.subrange(0, 64) =~= response.signature@);
        if !ed25519_verify(&record.auth_public_key, payload.as_slice(), &signature) {
            return Err(owned("invalid auth signature"));
        }
        challenge.consumed = true;
        Ok(AuthOk {
            version: SERVER_PROTOCOL_VERSION,
            member_id: copy_string(&hello.member_id),
            device_id: copy_string(&hello.device_id),
            device_name: copy_string(&record.device_name),
            server_time_unix_ms: now_unix_ms,
        })
    }
}

} // verus!
