//! Signed contact invites: a device's public identity, prekeys and relay,
//! signed with its identity key and carried in a link.  The invite's JSON
//! text is produced by the caller; this module signs, checks and frames it.

use vstd::prelude::*;
use vstd::utf8::encode_utf8;
use crate::bytes::{extend_bytes, to_vec};
use crate::contexts::{contact_invite_context, contact_invite_context_spec};
use crate::crypto::identity::{signed_prekey_payload_spec, IdentityKeyPair, IdentityPublicKeys};
use crate::crypto::prekey::PublicPrekeyBundle;
use crate::ids::{check_identifier_text, identifier_text_check_spec};
use crate::outside::{
    base64_url_decode, base64_url_decode_error, base64_url_decode_text, base64_url_encode, base64_url_encode_bytes,
    ed25519_accepts, ed25519_public, ed25519_signature,
};
use crate::server_protocol::messages::{bytes_result_view, text_result_view, SERVER_PROTOCOL_VERSION};
use crate::text::{decimal_spec, is_blank, is_blank_spec, owned, push_decimal, push_str, starts_with, starts_with_spec};

verus! {

/// Every contact invite link starts with this.
pub const CONTACT_INVITE_LINK_PREFIX: &'static str = "localmessenger://contact?token=";

/// A device's invitation to be contacted through a relay.
#[derive(Debug, Clone, PartialEq, Eq)]
pub struct DeviceContactInvite {
    pub version: u8,
    pub member_id: String,
    pub device_id: String,
    pub display_name: String,
    pub server_addr: String,
    pub server_name: String,
    pub server_certificate_der_base64: String,
    pub device_transport_certificate_der_base64: String,
    pub identity_keys: IdentityPublicKeys,
    pub prekey_bundle: PublicPrekeyBundle,
    pub issued_at_unix_ms: i64,
    pub expires_at_unix_ms: i64,
    pub signature: Vec<u8>,
}

/// What an invite shows before it is accepted.
#[derive(Debug, Clone, PartialEq, Eq)]
pub struct ContactInvitePreview {
    pub member_id: String,
    pub device_id: String,
    pub display_name: String,
    pub server_addr: String,
    pub server_name: String,
    pub expires_at_unix_ms: i64,
}

/// What the identity key signs: a context, then the invite's JSON text
/// without the signature.
pub open spec fn contact_payload_spec(unsigned_json: Seq<u8>) -> Seq<u8> {
    contact_invite_context_spec() + unsigned_json
}

fn contact_invite_signature_payload(unsigned_json: &[u8]) -> (r: Vec<u8>)
    ensures
        r@ == contact_payload_spec(unsigned_json@),
{
    let mut payload = contact_invite_context();
    extend_bytes(&mut payload, unsigned_json);
    payload
}

/// Whether the invite's signature verifies under its identity key over the
/// unsigned JSON text.
pub open spec fn contact_signature_ok(invite: DeviceContactInvite, unsigned_json: Seq<u8>) -> bool {
    invite.signature@.len() == 64 && ed25519_accepts(
        invite.identity_keys.signing_public_key@,
        contact_payload_spec(unsigned_json),
        invite.signature@,
    )
}

/// Signs the invite's unsigned JSON text with the identity's signing key.
pub fn sign_contact_invite(identity: &IdentityKeyPair, invite: &mut DeviceContactInvite, unsigned_json: &[u8]) -> (r: Result<(), String>)
    ensures
        r is Ok,
        final(invite).signature@ == ed25519_signature(identity.signing_seed_spec(), contact_payload_spec(unsigned_json@)),
        ed25519_accepts(ed25519_public(identity.signing_seed_spec()), contact_payload_spec(unsigned_json@), final(invite).signature@),
        final(invite).version == old(invite).version,
        final(invite).member_id == old(invite).member_id,
        final(invite).device_id == old(invite).device_id,
        final(invite).display_name == old(invite).display_name,
        final(invite).server_addr == old(invite).server_addr,
        final(invite).server_name == old(invite).server_name,
        final(invite).server_certificate_der_base64 == old(invite).server_certificate_der_base64,
        final(invite).device_transport_certificate_der_base64 == old(invite).device_transport_certificate_der_base64,
        final(invite).identity_keys == old(invite).identity_keys,
        final(invite).prekey_bundle == old(invite).prekey_bundle,
        final(invite).issued_at_unix_ms == old(invite).issued_at_unix_ms,
        final(invite).expires_at_unix_ms == old(invite).expires_at_unix_ms,
{
    let payload = contact_invite_signature_payload(unsigned_json);
    let signature = identity.sign_message(&payload);
    invite.signature = to_vec(&signature);
    Ok(())
}

/// Checks the invite's signature over its unsigned JSON text.
pub fn verify_contact_invite(invite: &DeviceContactInvite, unsigned_json: &[u8]) -> (r: Result<(), String>)
    ensures
        r is Ok <==> contact_signature_ok(*invite, unsigned_json@),
        r matches Err(e) ==> e@ == "invalid prekey signature"@,
{
    let payload = contact_invite_signature_payload(unsigned_json);
    match invite.identity_keys.verify_message(&payload, invite.signature.as_slice()) {
        Ok(()) => Ok(()),
        Err(e) => {
            proof {
                reveal_strlit("invalid prekey signature");
            }
            Err(e.message())
        },
    }
}

/// The relay's certificate, decoded from URL-safe Base64.
pub fn decode_contact_invite_server_certificate(invite: &DeviceContactInvite) -> (r: Result<Vec<u8>, String>)
    ensures
        bytes_result_view(r) == match base64_url_decode(invite.server_certificate_der_base64@) {
            Some(b) => Ok::<Seq<u8>, Seq<char>>(b),
            None => Err(base64_url_decode_error(invite.server_certificate_der_base64@)),
        },
{
    base64_url_decode_text(invite.server_certificate_der_base64.as_str())
}

/// The device's transport certificate, decoded from URL-safe Base64.
pub fn decode_contact_invite_device_transport_certificate(invite: &DeviceContactInvite) -> (r: Result<Vec<u8>, String>)
    ensures
        bytes_result_view(r) == match base64_url_decode(invite.device_transport_certificate_der_base64@) {
            Some(b) => Ok::<Seq<u8>, Seq<char>>(b),
            None => Err(base64_url_decode_error(invite.device_transport_certificate_der_base64@)),
        },
{
    base64_url_decode_text(invite.device_transport_certificate_der_base64.as_str())
}

/// The checks an invite passes, in order, with the text of the first failure.
pub open spec fn contact_check_spec(c: DeviceContactInvite, unsigned_json: Seq<u8>) -> Result<(), Seq<char>> {
    if c.version != SERVER_PROTOCOL_VERSION {
        Err("unsupported contact invite version "@ + decimal_spec(c.version as nat))
    } else if identifier_text_check_spec("member_id"@, c.member_id@) is Err {
        identifier_text_check_spec("member_id"@, c.member_id@)
    } else if identifier_text_check_spec("device_id"@, c.device_id@) is Err {
        identifier_text_check_spec("device_id"@, c.device_id@)
    } else if is_blank_spec(c.display_name@) {
        Err("contact display name cannot be empty"@)
    } else if is_blank_spec(c.server_addr@) {
        Err("contact server addr cannot be empty"@)
    } else if is_blank_spec(c.server_name@) {
        Err("contact server name cannot be empty"@)
    } else if c.expires_at_unix_ms <= c.issued_at_unix_ms {
        Err("contact invite expiry must be after issue time"@)
    } else if base64_url_decode(c.server_certificate_der_base64@) is None {
        Err(base64_url_decode_error(c.server_certificate_der_base64@))
    } else if base64_url_decode(c.device_transport_certificate_der_base64@) is None {
        Err(base64_url_decode_error(c.device_transport_certificate_der_base64@))
    } else if !(c.prekey_bundle.signed_prekey.signature@.len() == 64 && ed25519_accepts(
        c.prekey_bundle.identity.signing_public_key@,
        signed_prekey_payload_spec(c.prekey_bundle.signed_prekey.id, c.prekey_bundle.signed_prekey.public_key@),
        c.prekey_bundle.signed_prekey.signature@,
    )) {
        Err("invalid prekey signature"@)
    } else if !c.prekey_bundle.identity.same_keys(&c.identity_keys) {
        Err("contact invite prekey bundle identity mismatch"@)
    } else if !contact_signature_ok(c, unsigned_json) {
        Err("invalid prekey signature"@)
    } else {
        Ok(())
    }
}

impl DeviceContactInvite {
    /// Checks, in order: the version, member and device ids, display name,
    /// relay address and name, that expiry follows issue, both certificates,
    /// the prekey bundle's signature and identity, and the invite's signature
    /// over its unsigned JSON text.
    pub fn validate(&self, unsigned_json: &[u8]) -> (r: Result<(), String>)
        ensures
            match r {
                Ok(()) => contact_check_spec(*self, unsigned_json@) is Ok,
                Err(e) => contact_check_spec(*self, unsigned_json@) == Err::<(), Seq<char>>(e@),
            },
    {
        proof {
            reveal_strlit("member_id");
            reveal_strlit("device_id");
            reveal_strlit("invalid prekey signature");
        }
        if self.version != SERVER_PROTOCOL_VERSION {
            let mut e = owned("unsupported contact invite version ");
            push_decimal(&mut e, self.version as u64);
            return Err(e);
        }
        match check_identifier_text("member_id", self.member_id.as_str()) {
            Ok(()) => {},
            Err(e) => return Err(e),
        }
        match check_identifier_text("device_id", self.device_id.as_str()) {
            Ok(()) => {},
            Err(e) => return Err(e),
        }
        if is_blank(self.display_name.as_str()) {
            return Err(owned("contact display name cannot be empty"));
        }
        if is_blank(self.server_addr.as_str()) {
            return Err(owned("contact server addr cannot be empty"));
        }
        if is_blank(self.server_name.as_str()) {
            return Err(owned("contact server name cannot be empty"));
        }
        if self.expires_at_unix_ms <= self.issued_at_unix_ms {
            return Err(owned("contact invite expiry must be after issue time"));
        }
        match decode_contact_invite_server_certificate(self) {
            Ok(_) => {},
            Err(e) => return Err(e),
        }
        match decode_contact_invite_device_transport_certificate(self) {
            Ok(_) => {},
            Err(e) => return Err(e),
        }
        match self.prekey_bundle.verify() {
            Ok(()) => {},
            Err(e) => return Err(e.message()),
        }
        if !self.prekey_bundle.identity.same_as(&self.identity_keys) {
            return Err(owned("contact invite prekey bundle identity mismatch"));
        }
        verify_contact_invite(self, unsigned_json)
    }
}

/// The link of an invite's JSON text.
pub open spec fn contact_link_spec(invite_json: Seq<u8>) -> Seq<char> {
    CONTACT_INVITE_LINK_PREFIX@ + base64_url_encode(invite_json)
}

/// The JSON text a contact link carries, or the error text.
pub open spec fn parse_contact_link_spec(link: Seq<char>) -> Result<Seq<u8>, Seq<char>> {
    if !starts_with_spec(link, CONTACT_INVITE_LINK_PREFIX@) {
        Err("contact invite link must start with localmessenger://contact?token="@)
    } else {
        let token = link.subrange(CONTACT_INVITE_LINK_PREFIX@.len() as int, link.len() as int);
        match base64_url_decode(token) {
            Some(b) => Ok(b),
            None => Err(base64_url_decode_error(token)),
        }
    }
}

/// Checks the invite, then builds its link from its JSON text; reading the
/// link back gives the JSON text.
pub fn encode_contact_invite_link(invite: &DeviceContactInvite, unsigned_json: &[u8], invite_json: &[u8]) -> (r: Result<String, String>)
    ensures
        contact_check_spec(*invite, unsigned_json@) matches Err(e) ==> text_result_view(r) == Err::<Seq<char>, Seq<char>>(e),
        contact_check_spec(*invite, unsigned_json@) is Ok ==> text_result_view(r) == Ok::<Seq<char>, Seq<char>>(
            contact_link_spec(invite_json@),
        ),
        r matches Ok(link) ==> parse_contact_link_spec(link@) == Ok::<Seq<u8>, Seq<char>>(invite_json@),
{
    match invite.validate(unsigned_json) {
        Ok(()) => {},
        Err(e) => return Err(e),
    }
    let token = base64_url_encode_bytes(invite_json);
    let mut link = owned(CONTACT_INVITE_LINK_PREFIX);
    push_str(&mut link, token.as_str());
    proof {
        let p = CONTACT_INVITE_LINK_PREFIX@;
        assert(link@.subrange(0, p.len() as int) =~= p);
        assert(link@.subrange(p.len() as int, link@.len() as int) =~= token@);
    }
    Ok(link)
}

/// The JSON text of a contact link; the caller reads the invite from it and
/// checks it with `validate`.
pub fn parse_contact_invite_link(link: &str) -> (r: Result<Vec<u8>, String>)
    ensures
        bytes_result_view(r) == parse_contact_link_spec(link@),
{
    if !starts_with(link, CONTACT_INVITE_LINK_PREFIX) {
        return Err(owned("contact invite link must start with localmessenger://contact?token="));
    }
    let m = CONTACT_INVITE_LINK_PREFIX.unicode_len();
    let n = link.unicode_len();
    base64_url_decode_text(link.substring_char(m, n))
}

/// The preview of an invite.
pub fn contact_invite_preview(invite: &DeviceContactInvite) -> (r: ContactInvitePreview)
    ensures
        r.member_id@ == invite.member_id@,
        r.device_id@ == invite.device_id@,
        r.display_name@ == invite.display_name@,
        r.server_addr@ == invite.server_addr@,
        r.server_name@ == invite.server_name@,
        r.expires_at_unix_ms == invite.expires_at_unix_ms,
{
    ContactInvitePreview {
        member_id: invite.member_id.clone(),
        device_id: invite.device_id.clone(),
        display_name: invite.display_name.clone(),
        server_addr: invite.server_addr.clone(),
        server_name: invite.server_name.clone(),
        expires_at_unix_ms: invite.expires_at_unix_ms,
    }
}

} // verus!
