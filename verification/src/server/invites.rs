//! The relay's side of invites: what is stored of them and when one may be used.

use vstd::prelude::*;
use crate::outside::{base64_url_encode, base64_url_encode_bytes};
use crate::server_protocol::messages::{
    DeviceRegistrationBundle, InviteClaims, JoinAccepted, StoredBlob, SERVER_PROTOCOL_VERSION,
};
use crate::text::{copy_string, owned, str_eq};

verus! {

/// A registered device as listed by the administrator.
#[derive(Debug, Clone)]
pub struct ListedDevice {
    pub member_id: String,
    pub device_id: String,
    pub device_name: String,
    pub status: String,
    pub created_at_unix_ms: i64,
    pub last_seen_at_unix_ms: Option<i64>,
}

/// An invite as listed by the administrator.
#[derive(Debug, Clone)]
pub struct ListedInvite {
    pub invite_id: String,
    pub label: String,
    pub expires_at_unix_ms: i64,
    pub max_uses: u32,
    pub used_count: u32,
    pub status: String,
}

/// An invite as the registry keeps it.
#[derive(Debug, Clone)]
pub struct StoredInvite {
    pub invite_id: String,
    pub label: String,
    pub expires_at_unix_ms: i64,
    pub max_uses: u32,
    pub used_count: u32,
    pub status: String,
}

/// A stored blob and its ciphertext.
#[derive(Debug, Clone)]
pub struct StoredBlobRecord {
    pub metadata: StoredBlob,
    pub ciphertext: Vec<u8>,
}

/// The claims of a new invite; the certificate is carried as URL-safe Base64.
pub fn invite_claims(
    invite_id: &str,
    label: &str,
    server_addr: &str,
    server_name: &str,
    server_certificate_der: &[u8],
    issued_at_unix_ms: i64,
    expires_at_unix_ms: i64,
    max_uses: u32,
) -> (r: InviteClaims)
    ensures
        r.version == SERVER_PROTOCOL_VERSION,
        r.invite_id@ == invite_id@,
        r.label@ == label@,
        r.server_addr@ == server_addr@,
        r.server_name@ == server_name@,
        r.server_certificate_der_base64@ == base64_url_encode(server_certificate_der@),
        r.issued_at_unix_ms == issued_at_unix_ms,
        r.expires_at_unix_ms == expires_at_unix_ms,
        r.max_uses == max_uses,
{
    InviteClaims {
        version: SERVER_PROTOCOL_VERSION,
        invite_id: owned(invite_id),
        label: owned(label),
        server_addr: owned(server_addr),
        server_name: owned(server_name),
        server_certificate_der_base64: base64_url_encode_bytes(server_certificate_der),
        issued_at_unix_ms,
        expires_at_unix_ms,
        max_uses,
    }
}

/// Whether a stored invite may be used at `now`: it must be active, unexpired
/// and have uses left.
pub open spec fn stored_invite_check_spec(invite: StoredInvite, now: i64) -> Result<(), Seq<char>> {
    if invite.status@ != "active"@ {
        Err("invite is not active"@)
    } else if now > invite.expires_at_unix_ms {
        Err("invite expired"@)
    } else if invite.used_count >= invite.max_uses {
        Err("invite usage limit reached"@)
    } else {
        Ok(())
    }
}

pub fn check_stored_invite(invite: &StoredInvite, now_unix_ms: i64) -> (r: Result<(), String>)
    ensures
        match stored_invite_check_spec(*invite, now_unix_ms) {
            Ok(()) => r is Ok,
            Err(e) => r matches Err(m) && m@ == e,
        },
{
    if !str_eq(invite.status.as_str(), "active") {
        return Err(owned("invite is not active"));
    }
    if now_unix_ms > invite.expires_at_unix_ms {
        return Err(owned("invite expired"));
    }
    if invite.used_count >= invite.max_uses {
        return Err(owned("invite usage limit reached"));
    }
    Ok(())
}

/// The acceptance sent to a device that joined through an invite.
pub fn join_accepted(claims: &InviteClaims, registration: &DeviceRegistrationBundle) -> (r: JoinAccepted)
    ensures
        r.version == SERVER_PROTOCOL_VERSION,
        r.invite_id@ == claims.invite_id@,
        r.member_id@ == registration.member_id@,
        r.device_id@ == registration.device_id@,
        r.server_addr@ == claims.server_addr@,
        r.server_name@ == claims.server_name@,
        r.server_certificate_der_base64@ == claims.server_certificate_der_base64@,
{
    JoinAccepted {
        version: SERVER_PROTOCOL_VERSION,
        invite_id: copy_string(&claims.invite_id),
        member_id: copy_string(&registration.member_id),
        device_id: copy_string(&registration.device_id),
        server_addr: copy_string(&claims.server_addr),
        server_name: copy_string(&claims.server_name),
        server_certificate_der_base64: copy_string(&claims.server_certificate_der_base64),
    }
}

} // verus!
