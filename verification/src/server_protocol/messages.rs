//! Messages between clients and the relay server, and the checks the server
//! applies to them.

use vstd::prelude::*;
use vstd::utf8::encode_utf8;
use crate::bytes::extend_bytes;
use crate::contexts::{auth_context, auth_context_spec};
use crate::ids::{check_identifier_text, identifier_text_check_spec, DeviceId, MemberId};
use crate::outside::{base64_url_decode, base64_url_decode_error, base64_url_decode_text};
use crate::text::{
    all_hex_chars, all_hex_chars_spec, copy_string, decimal_spec, is_blank,
    is_blank_spec, owned, push_decimal, push_str,
};

verus! {

/// Version of the relay protocol spoken by this library.
pub const SERVER_PROTOCOL_VERSION: u8 = 1;

/// Largest encrypted blob the relay stores: 5 MiB.
pub const MAX_RELAY_BLOB_BYTES: u64 = 5242880;

/// Largest chunk of a blob upload or download: 64 KiB.
pub const MAX_BLOB_CHUNK_BYTES: usize = 65536;

/// A `Result<(), String>` with its error taken as text.
pub open spec fn unit_result_view(r: Result<(), String>) -> Result<(), Seq<char>> {
    match r {
        Ok(()) => Ok(()),
        Err(e) => Err(e@),
    }
}

/// A `Result<Vec<u8>, String>` with both sides taken by their views.
pub open spec fn bytes_result_view(r: Result<Vec<u8>, String>) -> Result<Seq<u8>, Seq<char>> {
    match r {
        Ok(b) => Ok(b@),
        Err(e) => Err(e@),
    }
}

/// A `Result<String, String>` with both sides taken as text.
pub open spec fn text_result_view(r: Result<String, String>) -> Result<Seq<char>, Seq<char>> {
    match r {
        Ok(t) => Ok(t@),
        Err(e) => Err(e@),
    }
}

/// What a device registers with the relay: who it is and the key it signs
/// challenges with.
#[derive(Debug, Clone, PartialEq, Eq)]
pub struct DeviceRegistrationBundle {
    pub member_id: String,
    pub device_id: String,
    pub device_name: String,
    pub auth_public_key: [u8; 32],
}

pub open spec fn registration_check_spec(b: DeviceRegistrationBundle) -> Result<(), Seq<char>> {
    if identifier_text_check_spec("member_id"@, b.member_id@) is Err {
        identifier_text_check_spec("member_id"@, b.member_id@)
    } else if identifier_text_check_spec("device_id"@, b.device_id@) is Err {
        identifier_text_check_spec("device_id"@, b.device_id@)
    } else if is_blank_spec(b.device_name@) {
        Err("device name cannot be empty"@)
    } else {
        Ok(())
    }
}

impl DeviceRegistrationBundle {
    pub fn new(member_id: &MemberId, device_id: &DeviceId, device_name: &str, auth_public_key: [u8; 32]) -> (r: DeviceRegistrationBundle)
        ensures
            r.member_id@ == member_id@,
            r.device_id@ == device_id@,
            r.device_name@ == device_name@,
            r.auth_public_key == auth_public_key,
    {
        DeviceRegistrationBundle {
            member_id: member_id.to_string(),
            device_id: device_id.to_string(),
            device_name: owned(device_name),
            auth_public_key,
        }
    }

    /// Checks the member id, the device id, then the device name.
    pub fn validate(&self) -> (r: Result<(), String>)
        ensures
            unit_result_view(r) == registration_check_spec(*self),
    {
        match check_identifier_text("member_id", self.member_id.as_str()) {
            Err(e) => return Err(e),
            Ok(()) => {},
        }
        match check_identifier_text("device_id", self.device_id.as_str()) {
            Err(e) => return Err(e),
            Ok(()) => {},
        }
        if is_blank(self.device_name.as_str()) {
            return Err(owned("device name cannot be empty"));
        }
        Ok(())
    }
}

/// What an invite link grants: a relay server to join, until when and how often.
#[derive(Debug, Clone, PartialEq, Eq)]
pub struct InviteClaims {
    pub version: u8,
    pub invite_id: String,
    pub label: String,
    pub server_addr: String,
    pub server_name: String,
    pub server_certificate_der_base64: String,
    pub issued_at_unix_ms: i64,
    pub expires_at_unix_ms: i64,
    pub max_uses: u32,
}

pub open spec fn claims_check_spec(c: InviteClaims) -> Result<(), Seq<char>> {
    if c.version != SERVER_PROTOCOL_VERSION {
        Err("unsupported invite version "@ + decimal_spec(c.version as nat))
    } else if is_blank_spec(c.invite_id@) {
        Err("invite id cannot be empty"@)
    } else if is_blank_spec(c.label@) {
        Err("invite label cannot be empty"@)
    } else if is_blank_spec(c.server_addr@) {
        Err("server addr cannot be empty"@)
    } else if is_blank_spec(c.server_name@) {
        Err("server name cannot be empty"@)
    } else if c.expires_at_unix_ms <= c.issued_at_unix_ms {
        Err("invite expiry must be after issue time"@)
    } else if c.max_uses == 0 {
        Err("invite must allow at least one use"@)
    } else if base64_url_decode(c.server_certificate_der_base64@) is None {
        Err(base64_url_decode_error(c.server_certificate_der_base64@))
    } else {
        Ok(())
    }
}

/// The relay's certificate carried by the claims, decoded from URL-safe Base64.
pub fn decode_invite_certificate(claims: &InviteClaims) -> (r: Result<Vec<u8>, String>)
    ensures
        bytes_result_view(r) == match base64_url_decode(claims.server_certificate_der_base64@) {
            Some(b) => Ok::<Seq<u8>, Seq<char>>(b),
            None => Err(base64_url_decode_error(claims.server_certificate_der_base64@)),
        },
{
    base64_url_decode_text(claims.server_certificate_der_base64.as_str())
}

impl InviteClaims {
    /// Checks, in order: the version, the invite id, label, server address and
    /// name, that expiry follows issue, at least one use, and the certificate.
    pub fn validate(&self) -> (r: Result<(), String>)
        ensures
            unit_result_view(r) == claims_check_spec(*self),
    {
        if self.version != SERVER_PROTOCOL_VERSION {
            let mut e = owned("unsupported invite version ");
            push_decimal(&mut e, self.version as u64);
            return Err(e);
        }
        if is_blank(self.invite_id.as_str()) {
            return Err(owned("invite id cannot be empty"));
        }
        if is_blank(self.label.as_str()) {
            return Err(owned("invite label cannot be empty"));
        }
        if is_blank(self.server_addr.as_str()) {
            return Err(owned("server addr cannot be empty"));
        }
        if is_blank(self.server_name.as_str()) {
            return Err(owned("server name cannot be empty"));
        }
        if self.expires_at_unix_ms <= self.issued_at_unix_ms {
            return Err(owned("invite expiry must be after issue time"));
        }
        if self.max_uses == 0 {
            return Err(owned("invite must allow at least one use"));
        }
        match decode_invite_certificate(self) {
            Err(e) => Err(e),
            Ok(_) => Ok(()),
        }
    }
}

/// What a client shows of an invite before joining.
#[derive(Debug, Clone, PartialEq, Eq)]
pub struct InvitePreview {
    pub invite_id: String,
    pub label: String,
    pub server_addr: String,
    pub server_name: String,
    pub expires_at_unix_ms: i64,
    pub max_uses: u32,
}

/// The preview of an invite: its id, label, server, expiry and uses.
pub fn invite_preview_from_claims(claims: &InviteClaims) -> (r: InvitePreview)
    ensures
        r.invite_id@ == claims.invite_id@,
        r.label@ == claims.label@,
        r.server_addr@ == claims.server_addr@,
        r.server_name@ == claims.server_name@,
        r.expires_at_unix_ms == claims.expires_at_unix_ms,
        r.max_uses == claims.max_uses,
{
    InvitePreview {
        invite_id: copy_string(&claims.invite_id),
        label: copy_string(&claims.label),
        server_addr: copy_string(&claims.server_addr),
        server_name: copy_string(&claims.server_name),
        expires_at_unix_ms: claims.expires_at_unix_ms,
        max_uses: claims.max_uses,
    }
}

/// What a client shows of a device contact invite.
#[derive(Debug, Clone, PartialEq, Eq)]
pub struct ContactInvitePreview {
    pub member_id: String,
    pub device_id: String,
    pub display_name: String,
    pub server_addr: String,
    pub server_name: String,
    pub expires_at_unix_ms: i64,
}

/// The bytes a device signs to answer the relay's challenge: the context,
/// a zero byte, the member id, a `0xff` byte, the device id and the nonce.
pub open spec fn auth_challenge_payload_spec(member_id: Seq<char>, device_id: Seq<char>, nonce: Seq<u8>) -> Seq<u8> {
    auth_context_spec() + seq![0u8] + encode_utf8(member_id) + seq![0xffu8] + encode_utf8(device_id)
        + nonce
}

pub fn auth_challenge_payload(member_id: &str, device_id: &str, nonce: &[u8; 32]) -> (r: Vec<u8>)
    ensures
        r@ == auth_challenge_payload_spec(member_id@, device_id@, nonce@),
{
    let mut payload = auth_context();
    payload.push(0);
    extend_bytes(&mut payload, member_id.as_bytes());
    payload.push(0xff);
    extend_bytes(&mut payload, device_id.as_bytes());
    extend_bytes(&mut payload, nonce);
    assert(payload@ =~= auth_challenge_payload_spec(member_id@, device_id@, nonce@));
    payload
}

} // verus!

verus! {

/// A device introduces itself to the relay.
#[derive(Debug, Clone, PartialEq, Eq)]
pub struct AuthHello {
    pub version: u8,
    pub member_id: String,
    pub device_id: String,
}

/// The relay's nonce for a device to sign.
#[derive(Debug, Clone, PartialEq, Eq)]
pub struct AuthChallenge {
    pub version: u8,
    pub nonce: [u8; 32],
    pub issued_at_unix_ms: i64,
}

/// A device's signature over the challenge payload.
#[derive(Debug, Clone, PartialEq, Eq)]
pub struct AuthResponse {
    pub version: u8,
    pub member_id: String,
    pub device_id: String,
    pub nonce: [u8; 32],
    pub signature: Vec<u8>,
}

/// The relay accepted the device.
#[derive(Debug, Clone, PartialEq, Eq)]
pub struct AuthOk {
    pub version: u8,
    pub member_id: String,
    pub device_id: String,
    pub device_name: String,
    pub server_time_unix_ms: i64,
}

/// A device joins the relay through an invite link.
#[derive(Debug, Clone, PartialEq, Eq)]
pub struct JoinWithInvite {
    pub invite_link: String,
    pub registration: DeviceRegistrationBundle,
}

/// The relay registered the joining device.
#[derive(Debug, Clone, PartialEq, Eq)]
pub struct JoinAccepted {
    pub version: u8,
    pub invite_id: String,
    pub member_id: String,
    pub device_id: String,
    pub server_addr: String,
    pub server_name: String,
    pub server_certificate_der_base64: String,
}

/// A frame a device asks the relay to pass to another device.
#[derive(Debug, Clone, PartialEq, Eq)]
pub struct PeerRelayFrame {
    pub request_id: u64,
    pub recipient_device_id: String,
    pub payload: Vec<u8>,
}

/// A frame the relay hands to its recipient.
#[derive(Debug, Clone, PartialEq, Eq)]
pub struct PeerFrame {
    pub sender_device_id: String,
    pub payload: Vec<u8>,
}

/// The relay queued a frame for an offline recipient.
#[derive(Debug, Clone, PartialEq, Eq)]
pub struct PeerQueued {
    pub request_id: u64,
    pub recipient_device_id: String,
    pub queued_at_unix_ms: i64,
}

/// The kind of media a blob holds.
#[derive(Debug, Clone, Copy, PartialEq, Eq, Structural)]
pub enum MediaKind {
    Photo,
    File,
}

/// A device starts uploading an encrypted blob.
#[derive(Debug, Clone, PartialEq, Eq)]
pub struct BlobUploadStart {
    pub request_id: u64,
    pub file_name: String,
    pub mime_type: String,
    pub media_kind: MediaKind,
    pub plaintext_bytes: u64,
    pub ciphertext_bytes: u64,
    pub sha256_hex: String,
}

/// The relay is ready for the chunks of an upload.
#[derive(Debug, Clone, PartialEq, Eq)]
pub struct BlobUploadReady {
    pub request_id: u64,
    pub blob_id: String,
    pub max_chunk_bytes: u32,
}

/// One chunk of an upload, at its byte offset.
#[derive(Debug, Clone, PartialEq, Eq)]
pub struct BlobUploadChunk {
    pub request_id: u64,
    pub blob_id: String,
    pub offset: u64,
    pub bytes: Vec<u8>,
}

/// The relay has received this many bytes of an upload.
#[derive(Debug, Clone, PartialEq, Eq)]
pub struct BlobChunkAck {
    pub request_id: u64,
    pub blob_id: String,
    pub received_bytes: u64,
}

/// The device has sent every chunk.
#[derive(Debug, Clone, PartialEq, Eq)]
pub struct BlobUploadFinish {
    pub request_id: u64,
    pub blob_id: String,
    pub ciphertext_bytes: u64,
}

/// A blob the relay keeps.
#[derive(Debug, Clone, PartialEq, Eq)]
pub struct StoredBlob {
    pub blob_id: String,
    pub uploaded_by_device_id: String,
    pub file_name: String,
    pub mime_type: String,
    pub media_kind: MediaKind,
    pub plaintext_bytes: u64,
    pub ciphertext_bytes: u64,
    pub sha256_hex: String,
    pub created_at_unix_ms: i64,
}

/// The relay stored an uploaded blob.
#[derive(Debug, Clone, PartialEq, Eq)]
pub struct BlobStored {
    pub request_id: u64,
    pub blob: StoredBlob,
}

/// A device asks for a stored blob.
#[derive(Debug, Clone, PartialEq, Eq)]
pub struct BlobDownloadRequest {
    pub request_id: u64,
    pub blob_id: String,
}

/// The relay is about to send a blob in chunks.
#[derive(Debug, Clone, PartialEq, Eq)]
pub struct BlobDownloadReady {
    pub request_id: u64,
    pub blob: StoredBlob,
    pub max_chunk_bytes: u32,
}

/// One chunk of a download.
#[derive(Debug, Clone, PartialEq, Eq)]
pub struct BlobDownloadChunk {
    pub request_id: u64,
    pub blob_id: String,
    pub offset: u64,
    pub bytes: Vec<u8>,
    pub is_last: bool,
}

/// The relay refused a blob request.
#[derive(Debug, Clone, PartialEq, Eq)]
pub struct BlobRejected {
    pub request_id: u64,
    pub reason: String,
}

/// Why the relay could not pass a frame on.
#[derive(Debug, Clone, Copy, PartialEq, Eq, Structural)]
pub enum PeerUnavailableReason {
    Offline,
    UnknownRecipient,
    Disabled,
    Unauthorized,
    RateLimited,
}

/// The relay could not pass a frame on.
#[derive(Debug, Clone, PartialEq, Eq)]
pub struct PeerUnavailable {
    pub request_id: u64,
    pub recipient_device_id: String,
    pub reason: PeerUnavailableReason,
}

/// Either side closes the connection.
#[derive(Debug, Clone, PartialEq, Eq)]
pub struct Disconnect {
    pub reason: String,
}

/// The relay's health report.
#[derive(Debug, Clone, PartialEq, Eq)]
pub struct Health {
    pub version: u8,
    pub server_time_unix_ms: i64,
    pub online_devices: u32,
}

/// Every message a client sends to the relay.
#[derive(Debug, Clone, PartialEq, Eq)]
pub enum ClientEnvelope {
    JoinWithInvite(JoinWithInvite),
    AuthHello(AuthHello),
    AuthResponse(AuthResponse),
    PeerRelayFrame(PeerRelayFrame),
    BlobUploadStart(BlobUploadStart),
    BlobUploadChunk(BlobUploadChunk),
    BlobUploadFinish(BlobUploadFinish),
    BlobDownloadRequest(BlobDownloadRequest),
    HealthCheck,
    Disconnect(Disconnect),
}

/// Every message the relay sends to a client.
#[derive(Debug, Clone, PartialEq, Eq)]
pub enum ServerEnvelope {
    JoinAccepted(JoinAccepted),
    AuthChallenge(AuthChallenge),
    AuthOk(AuthOk),
    PeerFrame(PeerFrame),
    PeerQueued(PeerQueued),
    PeerUnavailable(PeerUnavailable),
    BlobUploadReady(BlobUploadReady),
    BlobChunkAck(BlobChunkAck),
    BlobStored(BlobStored),
    BlobDownloadReady(BlobDownloadReady),
    BlobDownloadChunk(BlobDownloadChunk),
    BlobRejected(BlobRejected),
    Health(Health),
    Disconnect(Disconnect),
}

pub open spec fn upload_check_spec(b: BlobUploadStart) -> Result<(), Seq<char>> {
    if is_blank_spec(b.file_name@) {
        Err("file name cannot be empty"@)
    } else if is_blank_spec(b.mime_type@) {
        Err("mime type cannot be empty"@)
    } else if b.ciphertext_bytes == 0 {
        Err("ciphertext bytes must be greater than zero"@)
    } else if b.ciphertext_bytes > MAX_RELAY_BLOB_BYTES {
        Err("ciphertext exceeds relay blob limit of 5242880 bytes"@)
    } else if b.sha256_hex@.len() != 64 || !all_hex_chars_spec(b.sha256_hex@) {
        Err("sha256 hex digest must be 64 hex characters"@)
    } else {
        Ok(())
    }
}

impl BlobUploadStart {
    /// Checks the names, that the ciphertext is neither empty nor over
    /// `MAX_RELAY_BLOB_BYTES`, and that the digest is 64 hex characters.
    pub fn validate(&self) -> (r: Result<(), String>)
        ensures
            unit_result_view(r) == upload_check_spec(*self),
    {
        if is_blank(self.file_name.as_str()) {
            return Err(owned("file name cannot be empty"));
        }
        if is_blank(self.mime_type.as_str()) {
            return Err(owned("mime type cannot be empty"));
        }
        if self.ciphertext_bytes == 0 {
            return Err(owned("ciphertext bytes must be greater than zero"));
        }
        if self.ciphertext_bytes > MAX_RELAY_BLOB_BYTES {
            return Err(owned("ciphertext exceeds relay blob limit of 5242880 bytes"));
        }
        if self.sha256_hex.unicode_len() != 64 || !all_hex_chars(self.sha256_hex.as_str()) {
            return Err(owned("sha256 hex digest must be 64 hex characters"));
        }
        Ok(())
    }
}

} // verus!
