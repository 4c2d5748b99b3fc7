//! Errors of the messaging layer.

use vstd::prelude::*;
use crate::crypto::error::CryptoError;
use crate::ids::CoreError;
use crate::crypto::error::crypto_error_text_spec;
use crate::ids::core_error_text_spec;
use crate::text::{
    all_scoped_identifier_chars, all_scoped_identifier_chars_spec, decimal_spec, is_blank, is_blank_spec,
    owned, push_decimal, push_str,
};

verus! {

#[derive(Debug, Clone, PartialEq, Eq)]
pub enum MessagingError {
    Core(CoreError),
    Crypto(CryptoError),
    Transport(String),
    Serialization(String),
    InvalidHandshakeVersion(u8),
    InvalidEnvelopeVersion(u8),
    InvalidSenderKeyDistributionVersion(u8),
    InvalidGroupMessageVersion(u8),
    UnexpectedFrame(&'static str),
    LocalDeviceIdentityMismatch,
    RemoteOfferMismatch(&'static str),
    RemoteBindingMismatch(&'static str),
    TransportBindingMismatch,
    SessionPeerMismatch,
    InvalidIdentifier { field: &'static str, value: String },
    DuplicateOutgoingMessageId(String),
    DuplicateGroupMessageId(String),
    MissingPendingMessage(String),
    MessageOrderConflict(u64),
    MessageIdConflict(String),
    GroupMessageNumberConflict(u32),
    IncomingOrderTooFarAhead { expected: u64, received: u64, max_gap: u64 },
    EmptyGroupMembership,
    GroupMembershipLimitExceeded(usize),
    DuplicateGroupParticipant(String),
    MissingGroupParticipant(String),
    GroupParticipantMismatch(&'static str),
    LocalDeviceMissingFromGroup,
    GroupIdMismatch { expected: String, received: String },
    GroupEpochMismatch { expected: u64, received: u64 },
    GroupEpochOverflow,
    UnknownSenderKey(String),
    SenderKeyDistributionConflict { device_id: String, epoch: u64 },
    InvalidGroupSignature,
    InvalidGroupKeyMaterial(&'static str),
}

/// The messaging identifier rule: not blank, and only ASCII letters, digits,
/// `-`, `_` and `:`.
pub open spec fn is_messaging_identifier(s: Seq<char>) -> bool {
    !is_blank_spec(s) && all_scoped_identifier_chars_spec(s)
}

/// `Ok` exactly for messaging identifiers; the error carries the field name
/// and the rejected value.
pub fn validate_identifier(field: &'static str, value: &str) -> (r: Result<(), MessagingError>)
    ensures
        is_messaging_identifier(value@) ==> r is Ok,
        !is_messaging_identifier(value@) ==> (r matches Err(MessagingError::InvalidIdentifier { field: f, value: v })
            && f == field && v@ == value@),
{
    if is_blank(value) || !all_scoped_identifier_chars(value) {
        return Err(MessagingError::InvalidIdentifier { field, value: owned(value) });
    }
    Ok(())
}


/// The text each error prints.
pub open spec fn messaging_error_text_spec(e: MessagingError) -> Seq<char> {
    match e {
        MessagingError::Core(e) => "core error: "@ + core_error_text_spec(e),
        MessagingError::Crypto(e) => "crypto error: "@ + crypto_error_text_spec(e),
        MessagingError::Transport(e) => "transport error: "@ + e@,
        MessagingError::Serialization(e) => "serialization error: "@ + e@,
        MessagingError::InvalidHandshakeVersion(v) => "unsupported secure-session handshake version "@ + decimal_spec(v as nat),
        MessagingError::InvalidEnvelopeVersion(v) => "unsupported messaging envelope version "@ + decimal_spec(v as nat),
        MessagingError::InvalidSenderKeyDistributionVersion(v) => "unsupported sender-key distribution version "@ + decimal_spec(v as nat),
        MessagingError::InvalidGroupMessageVersion(v) => "unsupported group message version "@ + decimal_spec(v as nat),
        MessagingError::UnexpectedFrame(l) => "unexpected transport frame: "@ + l@,
        MessagingError::LocalDeviceIdentityMismatch => "local device identity keys do not match the configured private identity"@,
        MessagingError::RemoteOfferMismatch(l) => "remote session offer mismatch: "@ + l@,
        MessagingError::RemoteBindingMismatch(l) => "remote session binding mismatch: "@ + l@,
        MessagingError::TransportBindingMismatch => "transport certificate binding did not match the secure-session metadata"@,
        MessagingError::SessionPeerMismatch => "messaging engine was used with a different secure session"@,
        MessagingError::InvalidIdentifier { field, value } => field@ + " '"@ + value@ + "' contains unsupported characters"@,
        MessagingError::DuplicateOutgoingMessageId(m) => "outgoing message '"@ + m@ + "' already exists"@,
        MessagingError::DuplicateGroupMessageId(m) => "group message '"@ + m@ + "' already exists in this epoch"@,
        MessagingError::MissingPendingMessage(m) => "pending message '"@ + m@ + "' was not found"@,
        MessagingError::MessageOrderConflict(o) => "conflicting messages were received for delivery order "@ + decimal_spec(o as nat),
        MessagingError::MessageIdConflict(m) => "message id '"@ + m@ + "' was reused with different metadata"@,
        MessagingError::GroupMessageNumberConflict(n) => "group message number "@ + decimal_spec(n as nat) + " was reused with different metadata"@,
        MessagingError::IncomingOrderTooFarAhead { expected, received, max_gap } => "incoming delivery order advanced too far: expected="@ + decimal_spec(expected as nat) + ", received="@ + decimal_spec(received as nat) + ", max_gap="@ + decimal_spec(max_gap as nat),
        MessagingError::EmptyGroupMembership => "group membership cannot be empty"@,
        MessagingError::GroupMembershipLimitExceeded(c) => "group membership exceeds the supported limit of 8 participants: "@ + decimal_spec(c as nat),
        MessagingError::DuplicateGroupParticipant(d) => "group participant '"@ + d@ + "' already exists"@,
        MessagingError::MissingGroupParticipant(d) => "group participant '"@ + d@ + "' was not found"@,
        MessagingError::GroupParticipantMismatch(l) => "group participant mismatch: "@ + l@,
        MessagingError::LocalDeviceMissingFromGroup => "local device must be present in the group membership"@,
        MessagingError::GroupIdMismatch { expected, received } => "group id mismatch: expected '"@ + expected@ + "', got '"@ + received@ + "'"@,
        MessagingError::GroupEpochMismatch { expected, received } => "group epoch mismatch: expected "@ + decimal_spec(expected as nat) + ", got "@ + decimal_spec(received as nat),
        MessagingError::GroupEpochOverflow => "group epoch counter overflowed"@,
        MessagingError::UnknownSenderKey(d) => "sender key for device '"@ + d@ + "' is not available"@,
        MessagingError::SenderKeyDistributionConflict { device_id, epoch } => "sender-key distribution conflict for device '"@ + device_id@ + "' in epoch "@ + decimal_spec(epoch as nat),
        MessagingError::InvalidGroupSignature => "group message signature verification failed"@,
        MessagingError::InvalidGroupKeyMaterial(l) => "invalid group key material for "@ + l@,
    }
}

impl MessagingError {
    /// The text of the error.
    pub fn message(&self) -> (r: String)
        ensures
            r@ == messaging_error_text_spec(*self),
    {
        let mut out = String::new();
        match self {
            MessagingError::Core(e) => {
                push_str(&mut out, "core error: ");
                push_str(&mut out, e.message().as_str());
            },
            MessagingError::Crypto(e) => {
                push_str(&mut out, "crypto error: ");
                push_str(&mut out, e.message().as_str());
            },
            MessagingError::Transport(e) => {
                push_str(&mut out, "transport error: ");
                push_str(&mut out, e.as_str());
            },
            MessagingError::Serialization(e) => {
                push_str(&mut out, "serialization error: ");
                push_str(&mut out, e.as_str());
            },
            MessagingError::InvalidHandshakeVersion(v) => {
                push_str(&mut out, "unsupported secure-session handshake version ");
                push_decimal(&mut out, *v as u64);
            },
            MessagingError::InvalidEnvelopeVersion(v) => {
                push_str(&mut out, "unsupported messaging envelope version ");
                push_decimal(&mut out, *v as u64);
            },
            MessagingError::InvalidSenderKeyDistributionVersion(v) => {
                push_str(&mut out, "unsupported sender-key distribution version ");
                push_decimal(&mut out, *v as u64);
            },
            MessagingError::InvalidGroupMessageVersion(v) => {
                push_str(&mut out, "unsupported group message version ");
                push_decimal(&mut out, *v as u64);
            },
            MessagingError::UnexpectedFrame(l) => {
                push_str(&mut out, "unexpected transport frame: ");
                push_str(&mut out, l);
            },
            MessagingError::LocalDeviceIdentityMismatch => {
                push_str(&mut out, "local device identity keys do not match the configured private identity");
            },
            MessagingError::RemoteOfferMismatch(l) => {
                push_str(&mut out, "remote session offer mismatch: ");
                push_str(&mut out, l);
            },
            MessagingError::RemoteBindingMismatch(l) => {
                push_str(&mut out, "remote session binding mismatch: ");
                push_str(&mut out, l);
            },
            MessagingError::TransportBindingMismatch => {
                push_str(&mut out, "transport certificate binding did not match the secure-session metadata");
            },
            MessagingError::SessionPeerMismatch => {
                push_str(&mut out, "messaging engine was used with a different secure session");
            },
            MessagingError::InvalidIdentifier { field, value } => {
                push_str(&mut out, field);
                push_str(&mut out, " '");
                push_str(&mut out, value.as_str());
                push_str(&mut out, "' contains unsupported characters");
            },
            MessagingError::DuplicateOutgoingMessageId(m) => {
                push_str(&mut out, "outgoing message '");
                push_str(&mut out, m.as_str());
                push_str(&mut out, "' already exists");
            },
            MessagingError::DuplicateGroupMessageId(m) => {
                push_str(&mut out, "group message '");
                push_str(&mut out, m.as_str());
                push_str(&mut out, "' already exists in this epoch");
            },
            MessagingError::MissingPendingMessage(m) => {
                push_str(&mut out, "pending message '");
                push_str(&mut out, m.as_str());
                push_str(&mut out, "' was not found");
            },
            MessagingError::MessageOrderConflict(o) => {
                push_str(&mut out, "conflicting messages were received for delivery order ");
                push_decimal(&mut out, *o);
            },
            MessagingError::MessageIdConflict(m) => {
                push_str(&mut out, "message id '");
                push_str(&mut out, m.as_str());
                push_str(&mut out, "' was reused with different metadata");
            },
            MessagingError::GroupMessageNumberConflict(n) => {
                push_str(&mut out, "group message number ");
                push_decimal(&mut out, *n as u64);
                push_str(&mut out, " was reused with different metadata");
            },
            MessagingError::IncomingOrderTooFarAhead { expected, received, max_gap } => {
                push_str(&mut out, "incoming delivery order advanced too far: expected=");
                push_decimal(&mut out, *expected);
                push_str(&mut out, ", received=");
                push_decimal(&mut out, *received);
                push_str(&mut out, ", max_gap=");
                push_decimal(&mut out, *max_gap);
            },
            MessagingError::EmptyGroupMembership => {
                push_str(&mut out, "group membership cannot be empty");
            },
            MessagingError::GroupMembershipLimitExceeded(c) => {
                push_str(&mut out, "group membership exceeds the supported limit of 8 participants: ");
                push_decimal(&mut out, *c as u64);
            },
            MessagingError::DuplicateGroupParticipant(d) => {
                push_str(&mut out, "group participant '");
                push_str(&mut out, d.as_str());
                push_str(&mut out, "' already exists");
            },
            MessagingError::MissingGroupParticipant(d) => {
                push_str(&mut out, "group participant '");
                push_str(&mut out, d.as_str());
                push_str(&mut out, "' was not found");
            },
            MessagingError::GroupParticipantMismatch(l) => {
                push_str(&mut out, "group participant mismatch: ");
                push_str(&mut out, l);
            },
            MessagingError::LocalDeviceMissingFromGroup => {
                push_str(&mut out, "local device must be present in the group membership");
            },
            MessagingError::GroupIdMismatch { expected, received } => {
                push_str(&mut out, "group id mismatch: expected '");
                push_str(&mut out, expected.as_str());
                push_str(&mut out, "', got '");
                push_str(&mut out, received.as_str());
                push_str(&mut out, "'");
            },
            MessagingError::GroupEpochMismatch { expected, received } => {
                push_str(&mut out, "group epoch mismatch: expected ");
                push_decimal(&mut out, *expected);
                push_str(&mut out, ", got ");
                push_decimal(&mut out, *received);
            },
            MessagingError::GroupEpochOverflow => {
                push_str(&mut out, "group epoch counter overflowed");
            },
            MessagingError::UnknownSenderKey(d) => {
                push_str(&mut out, "sender key for device '");
                push_str(&mut out, d.as_str());
                push_str(&mut out, "' is not available");
            },
            MessagingError::SenderKeyDistributionConflict { device_id, epoch } => {
                push_str(&mut out, "sender-key distribution conflict for device '");
                push_str(&mut out, device_id.as_str());
                push_str(&mut out, "' in epoch ");
                push_decimal(&mut out, *epoch);
            },
            MessagingError::InvalidGroupSignature => {
                push_str(&mut out, "group message signature verification failed");
            },
            MessagingError::InvalidGroupKeyMaterial(l) => {
                push_str(&mut out, "invalid group key material for ");
                push_str(&mut out, l);
            },
        }
        assert(out@ =~= messaging_error_text_spec(*self));
        out
    }
}

} // verus!
