//! Group messages under sender keys: their header and binary layout, the
//! sender's and the receivers' chains, and the group session that checks
//! membership, epochs, signatures and replays.

use vstd::prelude::*;
use crate::bytes::{array32_at, array12_at, extend_bytes, to_vec, u32_be, u32_be_spec, u32_le_spec};
use crate::contexts::{
    chain_step_input, chain_step_input_spec, group_aad_prefix, group_aad_prefix_spec, group_chain_info,
    group_chain_info_spec, group_signature_prefix, group_signature_prefix_spec,
};
use crate::crypto::error::CryptoError;
use crate::crypto::kdf::{MessageKeyMaterial, MessageKeyView};
use crate::ids::{is_valid_identifier_spec, DeviceId, MemberId};
use crate::messaging::envelope::MessageKind;
use crate::messaging::error::MessagingError;
use crate::maps::{OrderMap, StrMap};
use crate::device::{Device, DeviceView};
use crate::messaging::error::{is_messaging_identifier, validate_identifier};
use crate::messaging::group::{
    parse_identifier, participant_map, DistributionView, GroupMembership, GroupParticipant, GroupSenderKeyDistribution, ParticipantView, MAX_GROUP_PARTICIPANTS,
    GROUP_MESSAGE_VERSION, GROUP_SENDER_KEY_VERSION, MAX_GROUP_SKIP,
};
use crate::outside::{ed25519_key_decodes, ed25519_key_valid, ed25519_public, ed25519_verifying_key, random_bytes_32, random_u32, aes256gcm_decrypt, aes256gcm_encrypt, aes256gcm_open, aes256gcm_seal, hkdf_expand, hkdf_sha256};
use crate::wire::{
    bytes_frame, lemma_parse_bytes, lemma_parse_i64, lemma_parse_text, lemma_parse_u32, lemma_parse_u64, lemma_parse_u8,
    parse_bytes, parse_i64, parse_text, parse_u32, parse_u64, parse_u8, read_bytes, read_i64, read_text, read_u32,
    read_u64, read_u8, text_frame, u64_le_spec, write_bytes, write_text, write_u32, write_u64,
};
use vstd::utf8::encode_utf8;

verus! {

/// The header of a group message: what its AAD and signature cover.
pub struct GroupHeaderView {
    pub version: u8,
    pub group_id: Seq<char>,
    pub epoch: u64,
    pub sender_member_id: Seq<char>,
    pub sender_device_id: Seq<char>,
    pub distribution_id: u32,
    pub message_id: Seq<char>,
    pub message_number: u32,
    pub sent_at_unix_ms: i64,
    pub kind: MessageKind,
}

#[derive(Debug, PartialEq, Eq)]
struct GroupMessageHeader {
    version: u8,
    group_id: String,
    epoch: u64,
    sender_member_id: MemberId,
    sender_device_id: DeviceId,
    distribution_id: u32,
    message_id: String,
    message_number: u32,
    sent_at_unix_ms: i64,
    kind: MessageKind,
}

impl View for GroupMessageHeader {
    type V = GroupHeaderView;

    closed spec fn view(&self) -> GroupHeaderView {
        GroupHeaderView {
            version: self.version,
            group_id: self.group_id@,
            epoch: self.epoch,
            sender_member_id: self.sender_member_id@,
            sender_device_id: self.sender_device_id@,
            distribution_id: self.distribution_id,
            message_id: self.message_id@,
            message_number: self.message_number,
            sent_at_unix_ms: self.sent_at_unix_ms,
            kind: self.kind,
        }
    }
}

impl GroupMessageHeader {
    fn duplicate(&self) -> (r: GroupMessageHeader)
        ensures
            r@ == self@,
    {
        GroupMessageHeader {
            version: self.version,
            group_id: self.group_id.clone(),
            epoch: self.epoch,
            sender_member_id: self.sender_member_id.duplicate(),
            sender_device_id: self.sender_device_id.duplicate(),
            distribution_id: self.distribution_id,
            message_id: self.message_id.clone(),
            message_number: self.message_number,
            sent_at_unix_ms: self.sent_at_unix_ms,
            kind: self.kind,
        }
    }
}

/// The index by which a message kind travels.
pub open spec fn kind_index(k: MessageKind) -> u32 {
    match k {
        MessageKind::Text => 0,
        MessageKind::Attachment => 1,
        MessageKind::VoiceNote => 2,
        MessageKind::System => 3,
    }
}

fn kind_to_index(k: MessageKind) -> (r: u32)
    ensures
        r == kind_index(k),
{
    match k {
        MessageKind::Text => 0,
        MessageKind::Attachment => 1,
        MessageKind::VoiceNote => 2,
        MessageKind::System => 3,
    }
}

/// The header's fields in order, followed by `rest`.
pub open spec fn header_frame(h: GroupHeaderView, rest: Seq<u8>) -> Seq<u8> {
    seq![h.version] + (text_frame(h.group_id) + (u64_le_spec(h.epoch) + (text_frame(h.sender_member_id) + (text_frame(
        h.sender_device_id,
    ) + (u32_le_spec(h.distribution_id) + (text_frame(h.message_id) + (u32_le_spec(h.message_number) + (u64_le_spec(
        h.sent_at_unix_ms as u64,
    ) + (u32_le_spec(kind_index(h.kind)) + rest)))))))))
}

/// The bytes of a header.
pub open spec fn header_bytes(h: GroupHeaderView) -> Seq<u8> {
    header_frame(h, Seq::empty())
}

/// The associated data a group message is sealed under.
pub open spec fn group_aad_spec(h: GroupHeaderView) -> Seq<u8> {
    group_aad_prefix_spec() + header_bytes(h)
}

/// What the sender signs: a context, the AAD's length (big-endian), the AAD
/// and the ciphertext.
pub open spec fn signature_payload_spec(aad: Seq<u8>, ciphertext: Seq<u8>) -> Seq<u8> {
    group_signature_prefix_spec() + (u32_be_spec(aad.len() as u32) + (aad + ciphertext))
}

/// A message kind by its index.
pub open spec fn parse_kind(b: Seq<u8>) -> Option<(MessageKind, Seq<u8>)> {
    match parse_u32(b) {
        Some((i, rest)) => if i == 0 {
            Some((MessageKind::Text, rest))
        } else if i == 1 {
            Some((MessageKind::Attachment, rest))
        } else if i == 2 {
            Some((MessageKind::VoiceNote, rest))
        } else if i == 3 {
            Some((MessageKind::System, rest))
        } else {
            None
        },
        None => None,
    }
}

/// The header a byte string starts with, and the bytes after it.
pub open spec fn parse_header(b: Seq<u8>) -> Option<(GroupHeaderView, Seq<u8>)> {
    match parse_u8(b) {
        None => None,
        Some((version, b1)) => match parse_text(b1) {
            None => None,
            Some((group_id, b2)) => match parse_u64(b2) {
                None => None,
                Some((epoch, b3)) => match parse_identifier(b3) {
                    None => None,
                    Some((member, b4)) => match parse_identifier(b4) {
                        None => None,
                        Some((device, b5)) => match parse_u32(b5) {
                            None => None,
                            Some((distribution_id, b6)) => match parse_text(b6) {
                                None => None,
                                Some((message_id, b7)) => match parse_u32(b7) {
                                    None => None,
                                    Some((message_number, b8)) => match parse_i64(b8) {
                                        None => None,
                                        Some((sent_at, b9)) => match parse_kind(b9) {
                                            None => None,
                                            Some((kind, b10)) => Some(
                                                (
                                                    GroupHeaderView {
                                                        version,
                                                        group_id,
                                                        epoch,
                                                        sender_member_id: member,
                                                        sender_device_id: device,
                                                        distribution_id,
                                                        message_id,
                                                        message_number,
                                                        sent_at_unix_ms: sent_at,
                                                        kind,
                                                    },
                                                    b10,
                                                ),
                                            ),
                                        },
                                    },
                                },
                            },
                        },
                    },
                },
            },
        },
    }
}

/// A header whose ids pass the identifier rule and whose strings fit a length.
pub open spec fn header_wf(h: GroupHeaderView) -> bool {
    &&& is_valid_identifier_spec(h.sender_member_id)
    &&& is_valid_identifier_spec(h.sender_device_id)
    &&& encode_utf8(h.group_id).len() <= u64::MAX
    &&& encode_utf8(h.sender_member_id).len() <= u64::MAX
    &&& encode_utf8(h.sender_device_id).len() <= u64::MAX
    &&& encode_utf8(h.message_id).len() <= u64::MAX
}

proof fn lemma_header_round_trip(h: GroupHeaderView, rest: Seq<u8>)
    requires
        header_wf(h),
    ensures
        parse_header(header_frame(h, rest)) == Some((h, rest)),
{
    let f10 = u32_le_spec(kind_index(h.kind)) + rest;
    let f9 = u64_le_spec(h.sent_at_unix_ms as u64) + f10;
    let f8 = u32_le_spec(h.message_number) + f9;
    let f7 = text_frame(h.message_id) + f8;
    let f6 = u32_le_spec(h.distribution_id) + f7;
    let f5 = text_frame(h.sender_device_id) + f6;
    let f4 = text_frame(h.sender_member_id) + f5;
    let f3 = u64_le_spec(h.epoch) + f4;
    let f2 = text_frame(h.group_id) + f3;
    lemma_parse_u8(h.version, f2);
    lemma_parse_text(h.group_id, f3);
    lemma_parse_u64(h.epoch, f4);
    assert(parse_identifier(f4) == Some((h.sender_member_id, f5))) by {
        reveal(parse_identifier);
        lemma_parse_text(h.sender_member_id, f5);
    }
    assert(parse_identifier(f5) == Some((h.sender_device_id, f6))) by {
        reveal(parse_identifier);
        lemma_parse_text(h.sender_device_id, f6);
    }
    lemma_parse_u32(h.distribution_id, f7);
    lemma_parse_text(h.message_id, f8);
    lemma_parse_u32(h.message_number, f9);
    lemma_parse_i64(h.sent_at_unix_ms, f10);
    lemma_parse_u32(kind_index(h.kind), rest);
}

proof fn lemma_header_frame_append(h: GroupHeaderView, a: Seq<u8>, b: Seq<u8>)
    ensures
        header_frame(h, a) + b == header_frame(h, a + b),
{
    assert(header_frame(h, a) + b =~= header_frame(h, a + b));
}

/// Appends the bytes of a header.
fn write_header(out: &mut Vec<u8>, h: &GroupMessageHeader)
    ensures
        final(out)@ == old(out)@ + header_bytes(h@),
        header_wf(h@),
{
    let ghost start = out@;
    out.push(h.version);
    write_text(out, h.group_id.as_str());
    write_u64(out, h.epoch);
    write_text(out, h.sender_member_id.as_str());
    write_text(out, h.sender_device_id.as_str());
    write_u32(out, h.distribution_id);
    write_text(out, h.message_id.as_str());
    write_u32(out, h.message_number);
    write_u64(out, h.sent_at_unix_ms as u64);
    write_u32(out, kind_to_index(h.kind));
    assert(out@ =~= start + header_bytes(h@));
}

fn read_kind(b: &[u8], p: usize) -> (r: Option<(MessageKind, usize)>)
    requires
        p <= b@.len(),
    ensures
        match r {
            Some((v, q)) => q <= b@.len() && parse_kind(b@.skip(p as int)) == Some((v, b@.skip(q as int))),
            None => parse_kind(b@.skip(p as int)) is None,
        },
{
    match read_u32(b, p) {
        Some((i, q)) => if i == 0 {
            Some((MessageKind::Text, q))
        } else if i == 1 {
            Some((MessageKind::Attachment, q))
        } else if i == 2 {
            Some((MessageKind::VoiceNote, q))
        } else if i == 3 {
            Some((MessageKind::System, q))
        } else {
            None
        },
        None => None,
    }
}

fn read_group_identifier(b: &[u8], p: usize) -> (r: Option<(String, usize)>)
    requires
        p <= b@.len(),
    ensures
        match r {
            Some((v, q)) => q <= b@.len() && parse_identifier(b@.skip(p as int)) == Some((v@, b@.skip(q as int)))
                && is_valid_identifier_spec(v@),
            None => parse_identifier(b@.skip(p as int)) is None,
        },
{
    reveal(parse_identifier);
    match read_text(b, p) {
        Some((s, q)) => if crate::ids::validate_identifier("identifier", s.as_str()).is_ok() {
            Some((s, q))
        } else {
            None
        },
        None => None,
    }
}

fn read_header(b: &[u8], p: usize) -> (r: Option<(GroupMessageHeader, usize)>)
    requires
        p <= b@.len(),
    ensures
        match r {
            Some((h, q)) => q <= b@.len() && parse_header(b@.skip(p as int)) == Some((h@, b@.skip(q as int))),
            None => parse_header(b@.skip(p as int)) is None,
        },
{
    let (version, p) = match read_u8(b, p) {
        Some(x) => x,
        None => return None,
    };
    let (group_id, p) = match read_text(b, p) {
        Some(x) => x,
        None => return None,
    };
    let (epoch, p) = match read_u64(b, p) {
        Some(x) => x,
        None => return None,
    };
    let (member, p) = match read_group_identifier(b, p) {
        Some(x) => x,
        None => return None,
    };
    let (device, p) = match read_group_identifier(b, p) {
        Some(x) => x,
        None => return None,
    };
    let (distribution_id, p) = match read_u32(b, p) {
        Some(x) => x,
        None => return None,
    };
    let (message_id, p) = match read_text(b, p) {
        Some(x) => x,
        None => return None,
    };
    let (message_number, p) = match read_u32(b, p) {
        Some(x) => x,
        None => return None,
    };
    let (sent_at_unix_ms, p) = match read_i64(b, p) {
        Some(x) => x,
        None => return None,
    };
    let (kind, p) = match read_kind(b, p) {
        Some(x) => x,
        None => return None,
    };
    let sender_member_id = match MemberId::new(member.as_str()) {
        Ok(id) => id,
        Err(_) => return None,
    };
    let sender_device_id = match DeviceId::new(device.as_str()) {
        Ok(id) => id,
        Err(_) => return None,
    };
    Some((
        GroupMessageHeader {
            version,
            group_id,
            epoch,
            sender_member_id,
            sender_device_id,
            distribution_id,
            message_id,
            message_number,
            sent_at_unix_ms,
            kind,
        },
        p,
    ))
}

/// The associated data of a header.
fn build_group_message_aad(h: &GroupMessageHeader) -> (r: Vec<u8>)
    ensures
        r@ == group_aad_spec(h@),
        header_wf(h@),
{
    let mut aad = group_aad_prefix();
    write_header(&mut aad, h);
    aad
}

/// The signed payload, or `None` where the AAD is longer than a `u32` counts.
fn signature_payload(aad: &[u8], ciphertext: &[u8]) -> (r: Option<Vec<u8>>)
    ensures
        aad@.len() <= u32::MAX ==> (r matches Some(p) && p@ == signature_payload_spec(aad@, ciphertext@)),
        aad@.len() > u32::MAX ==> r is None,
{
    if aad.len() > 0xFFFF_FFFF {
        return None;
    }
    let mut payload = group_signature_prefix();
    let len = u32_be(aad.len() as u32);
    extend_bytes(&mut payload, &len);
    extend_bytes(&mut payload, aad);
    extend_bytes(&mut payload, ciphertext);
    assert(payload@ =~= signature_payload_spec(aad@, ciphertext@));
    Some(payload)
}

/// One step of a sender chain: 76 bytes of HKDF salted with the chain key.
pub open spec fn group_step_spec(key: Seq<u8>) -> Seq<u8> {
    hkdf_sha256(Some(key), chain_step_input_spec(), group_chain_info_spec(), 76)
}

/// The chain key after one step.
pub open spec fn group_next_key(key: Seq<u8>) -> Seq<u8> {
    group_step_spec(key).subrange(0, 32)
}

/// The message key of one step.
pub open spec fn group_message_key(key: Seq<u8>) -> MessageKeyView {
    MessageKeyView { cipher_key: group_step_spec(key).subrange(32, 64), nonce: group_step_spec(key).subrange(64, 76) }
}

fn group_chain_kdf(key: &[u8; 32]) -> (r: ([u8; 32], MessageKeyMaterial))
    ensures
        r.0@ == group_next_key(key@),
        r.1@ == group_message_key(key@),
{
    let info = group_chain_info();
    let step = chain_step_input();
    let out = hkdf_expand(Some(key.as_slice()), &step, &info, 76);
    (array32_at(&out, 0), MessageKeyMaterial { cipher_key: array32_at(&out, 32), nonce: array12_at(&out, 64) })
}

/// A group message as its header, ciphertext and signature.
pub struct GroupMessageView {
    pub header: GroupHeaderView,
    pub ciphertext: Seq<u8>,
    pub signature: Seq<u8>,
}

/// A sealed, signed group message.
#[derive(Debug, PartialEq, Eq)]
pub struct GroupEncryptedMessage {
    header: GroupMessageHeader,
    ciphertext: Vec<u8>,
    signature: Vec<u8>,
}

impl View for GroupEncryptedMessage {
    type V = GroupMessageView;

    closed spec fn view(&self) -> GroupMessageView {
        GroupMessageView { header: self.header@, ciphertext: self.ciphertext@, signature: self.signature@ }
    }
}

/// The bytes of a group message: header, then ciphertext and signature each
/// behind its length.
pub open spec fn group_message_bytes(m: GroupMessageView) -> Seq<u8> {
    header_bytes(m.header) + (bytes_frame(m.ciphertext) + bytes_frame(m.signature))
}

/// The group message a byte string starts with, if any.
pub open spec fn parse_group_message(b: Seq<u8>) -> Option<GroupMessageView> {
    match parse_header(b) {
        None => None,
        Some((header, b1)) => match parse_bytes(b1) {
            None => None,
            Some((ciphertext, b2)) => match parse_bytes(b2) {
                None => None,
                Some((signature, _)) => Some(GroupMessageView { header, ciphertext, signature }),
            },
        },
    }
}

/// Decoding the bytes of a group message gives the message back.
pub proof fn lemma_group_message_round_trip(m: GroupMessageView)
    requires
        header_wf(m.header),
        m.ciphertext.len() <= u64::MAX,
        m.signature.len() <= u64::MAX,
    ensures
        parse_group_message(group_message_bytes(m)) == Some(m),
{
    let tail = bytes_frame(m.ciphertext) + bytes_frame(m.signature);
    lemma_header_frame_append(m.header, Seq::empty(), tail);
    assert(Seq::<u8>::empty() + tail =~= tail);
    lemma_header_round_trip(m.header, tail);
    lemma_parse_bytes(m.ciphertext, bytes_frame(m.signature));
    assert(bytes_frame(m.signature) + Seq::<u8>::empty() =~= bytes_frame(m.signature));
    lemma_parse_bytes(m.signature, Seq::<u8>::empty());
}

impl GroupEncryptedMessage {
    /// The bytes of the message.
    pub fn encode(&self) -> (r: Vec<u8>)
        ensures
            r@ == group_message_bytes(self@),
            header_wf(self@.header),
            self@.ciphertext.len() <= u64::MAX,
            self@.signature.len() <= u64::MAX,
    {
        let ct_len = self.ciphertext.len();
        let sig_len = self.signature.len();
        assert(ct_len == self@.ciphertext.len() && sig_len == self@.signature.len());
        let mut out: Vec<u8> = Vec::new();
        write_header(&mut out, &self.header);
        write_bytes(&mut out, self.ciphertext.as_slice());
        write_bytes(&mut out, self.signature.as_slice());
        assert(out@ =~= group_message_bytes(self@));
        out
    }

    /// The message a byte string starts with; bytes after it are ignored.
    /// Malformed bytes are a serialization error and another format version
    /// is refused.
    pub fn decode(bytes: &[u8]) -> (r: Result<GroupEncryptedMessage, MessagingError>)
        ensures
            match parse_group_message(bytes@) {
                None => r matches Err(MessagingError::Serialization(_)),
                Some(m) => if m.header.version != GROUP_MESSAGE_VERSION {
                    r == Err::<GroupEncryptedMessage, MessagingError>(
                        MessagingError::InvalidGroupMessageVersion(m.header.version),
                    )
                } else {
                    r matches Ok(x) && x@ == m
                },
            },
    {
        assert(bytes@.skip(0) =~= bytes@);
        let parsed = match read_header(bytes, 0) {
            None => None,
            Some((header, p)) => match read_bytes(bytes, p) {
                None => None,
                Some((ciphertext, p)) => match read_bytes(bytes, p) {
                    None => None,
                    Some((signature, _)) => Some(GroupEncryptedMessage { header, ciphertext, signature }),
                },
            },
        };
        match parsed {
            None => Err(MessagingError::Serialization(crate::text::owned("malformed group message"))),
            Some(m) => if m.header.version != GROUP_MESSAGE_VERSION {
                Err(MessagingError::InvalidGroupMessageVersion(m.header.version))
            } else {
                Ok(m)
            },
        }
    }

    pub fn group_id(&self) -> (r: &str)
        ensures
            r@ == self@.header.group_id,
    {
        self.header.group_id.as_str()
    }

    pub fn epoch(&self) -> (r: u64)
        ensures
            r == self@.header.epoch,
    {
        self.header.epoch
    }

    pub fn sender_member_id(&self) -> (r: &MemberId)
        ensures
            r@ == self@.header.sender_member_id,
    {
        &self.header.sender_member_id
    }

    pub fn sender_device_id(&self) -> (r: &DeviceId)
        ensures
            r@ == self@.header.sender_device_id,
    {
        &self.header.sender_device_id
    }

    pub fn message_id(&self) -> (r: &str)
        ensures
            r@ == self@.header.message_id,
    {
        self.header.message_id.as_str()
    }

    pub fn message_number(&self) -> (r: u32)
        ensures
            r == self@.header.message_number,
    {
        self.header.message_number
    }

    pub fn kind(&self) -> (r: MessageKind)
        ensures
            r == self@.header.kind,
    {
        self.header.kind
    }

    pub fn sent_at_unix_ms(&self) -> (r: i64)
        ensures
            r == self@.header.sent_at_unix_ms,
    {
        self.header.sent_at_unix_ms
    }

    pub fn duplicate(&self) -> (r: GroupEncryptedMessage)
        ensures
            r@ == self@,
    {
        GroupEncryptedMessage {
            header: self.header.duplicate(),
            ciphertext: to_vec(self.ciphertext.as_slice()),
            signature: to_vec(self.signature.as_slice()),
        }
    }
}

/// A decrypted group message.
pub struct GroupDecryptedView {
    pub group_id: Seq<char>,
    pub epoch: u64,
    pub sender_member_id: Seq<char>,
    pub sender_device_id: Seq<char>,
    pub message_id: Seq<char>,
    pub message_number: u32,
    pub sent_at_unix_ms: i64,
    pub kind: MessageKind,
    pub body: Seq<u8>,
}

/// The decrypted message of a header and a body.
pub open spec fn decrypted_view(h: GroupHeaderView, body: Seq<u8>) -> GroupDecryptedView {
    GroupDecryptedView {
        group_id: h.group_id,
        epoch: h.epoch,
        sender_member_id: h.sender_member_id,
        sender_device_id: h.sender_device_id,
        message_id: h.message_id,
        message_number: h.message_number,
        sent_at_unix_ms: h.sent_at_unix_ms,
        kind: h.kind,
        body,
    }
}

#[derive(Debug, PartialEq, Eq)]
pub struct GroupDecryptedMessage {
    group_id: String,
    epoch: u64,
    sender_member_id: MemberId,
    sender_device_id: DeviceId,
    message_id: String,
    message_number: u32,
    sent_at_unix_ms: i64,
    kind: MessageKind,
    body: Vec<u8>,
}

impl View for GroupDecryptedMessage {
    type V = GroupDecryptedView;

    closed spec fn view(&self) -> GroupDecryptedView {
        GroupDecryptedView {
            group_id: self.group_id@,
            epoch: self.epoch,
            sender_member_id: self.sender_member_id@,
            sender_device_id: self.sender_device_id@,
            message_id: self.message_id@,
            message_number: self.message_number,
            sent_at_unix_ms: self.sent_at_unix_ms,
            kind: self.kind,
            body: self.body@,
        }
    }
}

impl GroupDecryptedMessage {
    fn from_header(h: &GroupMessageHeader, body: Vec<u8>) -> (r: GroupDecryptedMessage)
        ensures
            r@ == decrypted_view(h@, body@),
    {
        GroupDecryptedMessage {
            group_id: h.group_id.clone(),
            epoch: h.epoch,
            sender_member_id: h.sender_member_id.duplicate(),
            sender_device_id: h.sender_device_id.duplicate(),
            message_id: h.message_id.clone(),
            message_number: h.message_number,
            sent_at_unix_ms: h.sent_at_unix_ms,
            kind: h.kind,
            body,
        }
    }

    pub fn group_id(&self) -> (r: &str)
        ensures
            r@ == self@.group_id,
    {
        self.group_id.as_str()
    }

    pub fn epoch(&self) -> (r: u64)
        ensures
            r == self@.epoch,
    {
        self.epoch
    }

    pub fn sender_member_id(&self) -> (r: &MemberId)
        ensures
            r@ == self@.sender_member_id,
    {
        &self.sender_member_id
    }

    pub fn sender_device_id(&self) -> (r: &DeviceId)
        ensures
            r@ == self@.sender_device_id,
    {
        &self.sender_device_id
    }

    pub fn message_id(&self) -> (r: &str)
        ensures
            r@ == self@.message_id,
    {
        self.message_id.as_str()
    }

    pub fn message_number(&self) -> (r: u32)
        ensures
            r == self@.message_number,
    {
        self.message_number
    }

    pub fn sent_at_unix_ms(&self) -> (r: i64)
        ensures
            r == self@.sent_at_unix_ms,
    {
        self.sent_at_unix_ms
    }

    pub fn kind(&self) -> (r: MessageKind)
        ensures
            r == self@.kind,
    {
        self.kind
    }

    pub fn body(&self) -> (r: &[u8])
        ensures
            r@ == self@.body,
    {
        self.body.as_slice()
    }
}

/// Why a group moved to a new epoch.
#[derive(Debug, PartialEq, Eq)]
pub enum GroupRotationReason {
    MemberAdded { device_id: DeviceId },
    MemberRemoved { device_id: DeviceId },
    DeviceCompromised { device_id: DeviceId },
    ManualForwardSecrecyRefresh,
}

pub enum RotationReasonView {
    MemberAdded(Seq<char>),
    MemberRemoved(Seq<char>),
    DeviceCompromised(Seq<char>),
    ManualForwardSecrecyRefresh,
}

impl View for GroupRotationReason {
    type V = RotationReasonView;

    closed spec fn view(&self) -> RotationReasonView {
        match self {
            GroupRotationReason::MemberAdded { device_id } => RotationReasonView::MemberAdded(device_id@),
            GroupRotationReason::MemberRemoved { device_id } => RotationReasonView::MemberRemoved(device_id@),
            GroupRotationReason::DeviceCompromised { device_id } => RotationReasonView::DeviceCompromised(device_id@),
            GroupRotationReason::ManualForwardSecrecyRefresh => RotationReasonView::ManualForwardSecrecyRefresh,
        }
    }
}

/// Why a group operation was refused; each maps to one `MessagingError`.
pub enum GroupRejection {
    KeyVersion(u8),
    MessageVersion(u8),
    BadIdentifier(&'static str, Seq<char>),
    GroupMismatch(Seq<char>, Seq<char>),
    EpochMismatch(u64, u64),
    MissingParticipant(Seq<char>),
    ParticipantMismatch(&'static str),
    KeyConflict(Seq<char>, u64),
    InvalidVerifyingKey,
    UnknownSenderKey(Seq<char>),
    InvalidSignature,
    AadTooLarge,
    IdConflict(Seq<char>),
    NumberConflict(u32),
    Replay(u32),
    TooFarAhead(u32, u32),
    EncryptionFailed,
    DecryptionFailed,
    SenderCounterExhausted,
    ReceiverCounterExhausted,
    LocalDeviceMissing,
}

/// The error by which a refusal is reported.
pub open spec fn rejected_as(e: MessagingError, g: GroupRejection) -> bool {
    match g {
        GroupRejection::KeyVersion(v) => e == MessagingError::InvalidSenderKeyDistributionVersion(v),
        GroupRejection::MessageVersion(v) => e == MessagingError::InvalidGroupMessageVersion(v),
        GroupRejection::BadIdentifier(f, v) => e matches MessagingError::InvalidIdentifier { field, value }
            && field == f && value@ == v,
        GroupRejection::GroupMismatch(x, y) => e matches MessagingError::GroupIdMismatch { expected, received }
            && expected@ == x && received@ == y,
        GroupRejection::EpochMismatch(x, y) => e == MessagingError::GroupEpochMismatch { expected: x, received: y },
        GroupRejection::MissingParticipant(d) => e matches MessagingError::MissingGroupParticipant(s) && s@ == d,
        GroupRejection::ParticipantMismatch(l) => e == MessagingError::GroupParticipantMismatch(l),
        GroupRejection::KeyConflict(d, x) => e matches MessagingError::SenderKeyDistributionConflict { device_id, epoch }
            && device_id@ == d && epoch == x,
        GroupRejection::InvalidVerifyingKey => e == MessagingError::InvalidGroupKeyMaterial("group sender verifying key"),
        GroupRejection::UnknownSenderKey(d) => e matches MessagingError::UnknownSenderKey(s) && s@ == d,
        GroupRejection::InvalidSignature => e == MessagingError::InvalidGroupSignature,
        GroupRejection::AadTooLarge => e matches MessagingError::Serialization(_),
        GroupRejection::IdConflict(m) => e matches MessagingError::MessageIdConflict(s) && s@ == m,
        GroupRejection::NumberConflict(n) => e == MessagingError::GroupMessageNumberConflict(n),
        GroupRejection::Replay(n) => e == MessagingError::Crypto(CryptoError::ReplayOrDuplicateMessage(n)),
        GroupRejection::TooFarAhead(c, r) => e == MessagingError::Crypto(
            CryptoError::MessageNumberTooFarAhead { current: c, requested: r, max_skip: MAX_GROUP_SKIP },
        ),
        GroupRejection::EncryptionFailed => e == MessagingError::Crypto(CryptoError::EncryptionFailed),
        GroupRejection::DecryptionFailed => e == MessagingError::Crypto(CryptoError::DecryptionFailed),
        GroupRejection::SenderCounterExhausted => e == MessagingError::InvalidGroupKeyMaterial(
            "group sender message counter",
        ),
        GroupRejection::ReceiverCounterExhausted => e == MessagingError::InvalidGroupKeyMaterial(
            "group receiver message counter",
        ),
        GroupRejection::LocalDeviceMissing => e == MessagingError::LocalDeviceMissingFromGroup,
    }
}

/// A sender's own chain.
pub struct LocalKeyView {
    pub distribution_id: u32,
    pub chain_key: Seq<u8>,
    pub next: u32,
    pub signing_seed: Seq<u8>,
}

struct LocalSenderKeyState {
    distribution_id: u32,
    chain_key: [u8; 32],
    next_message_number: u32,
    signing_seed: [u8; 32],
}

impl View for LocalSenderKeyState {
    type V = LocalKeyView;

    closed spec fn view(&self) -> LocalKeyView {
        LocalKeyView {
            distribution_id: self.distribution_id,
            chain_key: self.chain_key@,
            next: self.next_message_number,
            signing_seed: self.signing_seed@,
        }
    }
}

/// The sender's chain after one step: the next key, and the next number
/// unless the counter is exhausted.
pub open spec fn local_advanced(l: LocalKeyView) -> LocalKeyView {
    LocalKeyView {
        chain_key: group_next_key(l.chain_key),
        next: if l.next < u32::MAX { (l.next + 1) as u32 } else { l.next },
        ..l
    }
}

/// The message a sender seals under its current chain key for a header.
pub open spec fn sealed_message(l: LocalKeyView, h: GroupHeaderView, body: Seq<u8>) -> GroupMessageView {
    let mk = group_message_key(l.chain_key);
    let aad = group_aad_spec(h);
    let ciphertext = aes256gcm_seal(mk.cipher_key, mk.nonce, body, aad);
    GroupMessageView {
        header: h,
        ciphertext,
        signature: crate::outside::ed25519_signature(l.signing_seed, signature_payload_spec(aad, ciphertext)),
    }
}

/// Sealing and signing a message under the sender's chain: the chain after
/// the step, and the message or the refusal.
pub open spec fn local_encrypt_spec(l: LocalKeyView, h: GroupHeaderView, body: Seq<u8>) -> (
    LocalKeyView,
    Result<GroupMessageView, GroupRejection>,
) {
    let aad = group_aad_spec(h);
    if l.next == u32::MAX {
        (local_advanced(l), Err(GroupRejection::SenderCounterExhausted))
    } else if body.len() > 0x10_0000_0000 || aad.len() > 0x10_0000_0000 {
        (local_advanced(l), Err(GroupRejection::EncryptionFailed))
    } else if aad.len() > u32::MAX {
        (local_advanced(l), Err(GroupRejection::AadTooLarge))
    } else {
        (local_advanced(l), Ok(sealed_message(l, h, body)))
    }
}

impl LocalSenderKeyState {
    fn advance_message_key(&mut self) -> (r: Result<(u32, MessageKeyMaterial), MessagingError>)
        ensures
            final(self)@ == local_advanced(old(self)@),
            old(self)@.next < u32::MAX ==> (r matches Ok((n, mk)) && n == old(self)@.next && mk@ == group_message_key(
                old(self)@.chain_key,
            )),
            old(self)@.next == u32::MAX ==> r == Err::<(u32, MessageKeyMaterial), MessagingError>(
                MessagingError::InvalidGroupKeyMaterial("group sender message counter"),
            ),
    {
        let message_number = self.next_message_number;
        let (next_chain_key, key_material) = group_chain_kdf(&self.chain_key);
        self.chain_key = next_chain_key;
        if self.next_message_number == u32::MAX {
            return Err(MessagingError::InvalidGroupKeyMaterial("group sender message counter"));
        }
        self.next_message_number = self.next_message_number + 1;
        Ok((message_number, key_material))
    }

    /// Seals and signs a message whose header carries the next message number.
    fn encrypt_message(&mut self, header: GroupMessageHeader, body: &[u8]) -> (r: Result<GroupEncryptedMessage, MessagingError>)
        requires
            header@.message_number == old(self)@.next,
            header@.distribution_id == old(self)@.distribution_id,
        ensures
            final(self)@ == local_encrypt_spec(old(self)@, header@, body@).0,
            match local_encrypt_spec(old(self)@, header@, body@).1 {
                Ok(m) => r matches Ok(x) && x@ == m,
                Err(g) => r matches Err(e) && rejected_as(e, g),
            },
            local_encrypt_spec(old(self)@, header@, body@).1 is Ok ==> forall|v: RemoteKeyView|
                receiver_in_step(v, old(self)@) && unseen(v, header@) ==> #[trigger] remote_decrypt_spec(
                    v,
                    local_encrypt_spec(old(self)@, header@, body@).1->Ok_0,
                ).1 == Ok::<Seq<u8>, GroupRejection>(body@),
    {
        let ghost l = self@;
        let (_n, key_material) = match self.advance_message_key() {
            Ok(x) => x,
            Err(e) => return Err(e),
        };
        let aad = build_group_message_aad(&header);
        let ciphertext = match aes256gcm_encrypt(&key_material.cipher_key, &key_material.nonce, body, aad.as_slice()) {
            Some(c) => c,
            None => return Err(MessagingError::Crypto(CryptoError::EncryptionFailed)),
        };
        let payload = match signature_payload(aad.as_slice(), ciphertext.as_slice()) {
            Some(p) => p,
            None => return Err(MessagingError::Serialization(crate::text::owned("group aad too large"))),
        };
        let signature = crate::outside::ed25519_sign(&self.signing_seed, payload.as_slice());
        let signature = to_vec(&signature);
        let out = GroupEncryptedMessage { header, ciphertext, signature };
        proof {
            let m = out@;
            let n = l.next;
            assert(m == sealed_message(l, header@, body@));
            assert forall|v: RemoteKeyView| receiver_in_step(v, l) && unseen(v, header@) implies #[trigger] remote_decrypt_spec(v, m).1
                == Ok::<Seq<u8>, GroupRejection>(body@) by {
                assert(signature_accepted(v, m));
                assert(freshness(v, header@) is None);
                if v.skipped.contains_key(n as u64) && v.skipped[n as u64] == group_message_key(l.chain_key) {
                } else {
                    let (key, skipped) = group_skip_spec(v.chain_key, v.next, n, v.skipped);
                    assert(key == l.chain_key);
                }
            }
        }
        Ok(out)
    }
}

/// A receiver's copy of one sender's chain.
pub struct RemoteKeyView {
    pub distribution_id: u32,
    pub chain_key_seed: Seq<u8>,
    pub chain_key: Seq<u8>,
    pub next: u32,
    pub signing_public_key: Seq<u8>,
    pub skipped: Map<u64, MessageKeyView>,
    pub ids: Map<Seq<char>, u32>,
    pub numbers: Map<u64, Seq<char>>,
}

struct RemoteSenderKeyState {
    distribution_id: u32,
    chain_key_seed: [u8; 32],
    chain_key: [u8; 32],
    next_message_number: u32,
    signing_public_key: [u8; 32],
    skipped_message_keys: OrderMap<MessageKeyMaterial>,
    message_id_index: StrMap<u32>,
    message_number_index: OrderMap<String>,
}

impl View for RemoteSenderKeyState {
    type V = RemoteKeyView;

    closed spec fn view(&self) -> RemoteKeyView {
        RemoteKeyView {
            distribution_id: self.distribution_id,
            chain_key_seed: self.chain_key_seed@,
            chain_key: self.chain_key@,
            next: self.next_message_number,
            signing_public_key: self.signing_public_key@,
            skipped: self.skipped_message_keys.map(),
            ids: self.message_id_index.map(),
            numbers: self.message_number_index.map(),
        }
    }
}

/// The receiver's chain for a fresh distribution.
pub open spec fn fresh_remote(d: DistributionView) -> RemoteKeyView {
    RemoteKeyView {
        distribution_id: d.distribution_id,
        chain_key_seed: d.chain_key_seed,
        chain_key: d.chain_key_seed,
        next: 0,
        signing_public_key: d.signing_public_key,
        skipped: Map::empty(),
        ids: Map::empty(),
        numbers: Map::empty(),
    }
}

/// Deriving the message keys of numbers `from` up to `until`, keeping each.
pub open spec fn group_skip_spec(key: Seq<u8>, from: u32, until: u32, skipped: Map<u64, MessageKeyView>) -> (
    Seq<u8>,
    Map<u64, MessageKeyView>,
)
    decreases until - from,
{
    if from >= until {
        (key, skipped)
    } else {
        group_skip_spec(group_next_key(key), (from + 1) as u32, until, skipped.insert(from as u64, group_message_key(key)))
    }
}

/// The receiver's chain once a message is accepted: its id and number are seen.
pub open spec fn remember(v: RemoteKeyView, h: GroupHeaderView) -> RemoteKeyView {
    RemoteKeyView {
        ids: v.ids.insert(h.message_id, h.message_number),
        numbers: v.numbers.insert(h.message_number as u64, h.message_id),
        ..v
    }
}

/// A message id or number seen before: a conflict when the other half
/// differs, a replay when both match.
pub open spec fn freshness(v: RemoteKeyView, h: GroupHeaderView) -> Option<GroupRejection> {
    if v.ids.contains_key(h.message_id) {
        if v.ids[h.message_id] != h.message_number {
            Some(GroupRejection::IdConflict(h.message_id))
        } else {
            Some(GroupRejection::Replay(h.message_number))
        }
    } else if v.numbers.contains_key(h.message_number as u64) {
        if v.numbers[h.message_number as u64] != h.message_id {
            Some(GroupRejection::NumberConflict(h.message_number))
        } else {
            Some(GroupRejection::Replay(h.message_number))
        }
    } else {
        None
    }
}

/// Opening a ciphertext under a message key.
pub open spec fn group_open_spec(mk: MessageKeyView, ciphertext: Seq<u8>, aad: Seq<u8>) -> Result<Seq<u8>, GroupRejection> {
    match aes256gcm_open(mk.cipher_key, mk.nonce, ciphertext, aad) {
        Some(p) => Ok(p),
        None => Err(GroupRejection::DecryptionFailed),
    }
}

/// Whether the signature is 64 bytes and verifies under the sender's key.
pub open spec fn signature_accepted(v: RemoteKeyView, m: GroupMessageView) -> bool {
    m.signature.len() == 64 && crate::outside::ed25519_accepts(
        v.signing_public_key,
        signature_payload_spec(group_aad_spec(m.header), m.ciphertext),
        m.signature,
    )
}

/// Receiving a message on one sender's chain: the chain afterwards, and the
/// plaintext or the refusal.
pub open spec fn remote_decrypt_spec(v: RemoteKeyView, m: GroupMessageView) -> (RemoteKeyView, Result<Seq<u8>, GroupRejection>) {
    let h = m.header;
    let n = h.message_number;
    let aad = group_aad_spec(h);
    if m.signature.len() != 64 {
        (v, Err(GroupRejection::InvalidSignature))
    } else if aad.len() > u32::MAX {
        (v, Err(GroupRejection::AadTooLarge))
    } else if !signature_accepted(v, m) {
        (v, Err(GroupRejection::InvalidSignature))
    } else if freshness(v, h) is Some {
        (v, Err(freshness(v, h)->0))
    } else if v.skipped.contains_key(n as u64) {
        let v1 = RemoteKeyView { skipped: v.skipped.remove(n as u64), ..v };
        match group_open_spec(v.skipped[n as u64], m.ciphertext, aad) {
            Ok(p) => (remember(v1, h), Ok(p)),
            Err(g) => (v1, Err(g)),
        }
    } else if n >= v.next && n - v.next > MAX_GROUP_SKIP {
        (v, Err(GroupRejection::TooFarAhead(v.next, n)))
    } else if n < v.next {
        (v, Err(GroupRejection::Replay(n)))
    } else {
        let (key, skipped) = group_skip_spec(v.chain_key, v.next, n, v.skipped);
        let v2 = RemoteKeyView {
            chain_key: group_next_key(key),
            next: if n < u32::MAX { (n + 1) as u32 } else { n },
            skipped,
            ..v
        };
        if n == u32::MAX {
            (v2, Err(GroupRejection::ReceiverCounterExhausted))
        } else {
            match group_open_spec(group_message_key(key), m.ciphertext, aad) {
                Ok(p) => (remember(v2, h), Ok(p)),
                Err(g) => (v2, Err(g)),
            }
        }
    }
}

fn open_group_message(mk: &MessageKeyMaterial, ciphertext: &[u8], aad: &[u8]) -> (r: Result<Vec<u8>, MessagingError>)
    ensures
        match group_open_spec(mk@, ciphertext@, aad@) {
            Ok(p) => r matches Ok(b) && b@ == p,
            Err(g) => r matches Err(e) && rejected_as(e, g),
        },
{
    match aes256gcm_decrypt(&mk.cipher_key, &mk.nonce, ciphertext, aad) {
        Some(p) => Ok(p),
        None => Err(MessagingError::Crypto(CryptoError::DecryptionFailed)),
    }
}

impl RemoteSenderKeyState {
    #[verifier::type_invariant]
    spec fn inv(self) -> bool {
        &&& self.skipped_message_keys.wf()
        &&& self.message_id_index.wf()
        &&& self.message_number_index.wf()
    }

    fn from_distribution(d: &GroupSenderKeyDistribution) -> (r: Result<RemoteSenderKeyState, MessagingError>)
        ensures
            ed25519_key_valid(d@.signing_public_key) ==> (r matches Ok(x) && x@ == fresh_remote(d@)),
            !ed25519_key_valid(d@.signing_public_key) ==> r == Err::<RemoteSenderKeyState, MessagingError>(
                MessagingError::InvalidGroupKeyMaterial("group sender verifying key"),
            ),
    {
        let public = d.signing_public_key();
        if !ed25519_key_decodes(&public) {
            return Err(MessagingError::InvalidGroupKeyMaterial("group sender verifying key"));
        }
        let seed = d.chain_key_seed();
        Ok(RemoteSenderKeyState {
            distribution_id: d.distribution_id(),
            chain_key_seed: seed,
            chain_key: seed,
            next_message_number: 0,
            signing_public_key: public,
            skipped_message_keys: OrderMap::new(),
            message_id_index: StrMap::new(),
            message_number_index: OrderMap::new(),
        })
    }

    fn matches_distribution(&self, d: &GroupSenderKeyDistribution) -> (r: bool)
        ensures
            r == (self@.distribution_id == d@.distribution_id && self@.chain_key_seed == d@.chain_key_seed
                && self@.signing_public_key == d@.signing_public_key),
    {
        let seed = d.chain_key_seed();
        let public = d.signing_public_key();
        self.distribution_id == d.distribution_id() && crate::bytes::bytes_eq(&self.chain_key_seed, &seed)
            && crate::bytes::bytes_eq(&self.signing_public_key, &public)
    }

    fn ensure_message_fresh(&self, h: &GroupMessageHeader) -> (r: Result<(), MessagingError>)
        ensures
            match freshness(self@, h@) {
                None => r is Ok,
                Some(g) => r matches Err(e) && rejected_as(e, g),
            },
    {
        proof {
            use_type_invariant(self);
        }
        match self.message_id_index.get(h.message_id.as_str()) {
            Some(existing) => {
                if *existing != h.message_number {
                    return Err(MessagingError::MessageIdConflict(h.message_id.clone()));
                }
                return Err(MessagingError::Crypto(CryptoError::ReplayOrDuplicateMessage(h.message_number)));
            },
            None => {},
        }
        match self.message_number_index.get(h.message_number as u64) {
            Some(existing) => {
                if !crate::text::str_eq(existing.as_str(), h.message_id.as_str()) {
                    return Err(MessagingError::GroupMessageNumberConflict(h.message_number));
                }
                return Err(MessagingError::Crypto(CryptoError::ReplayOrDuplicateMessage(h.message_number)));
            },
            None => {},
        }
        Ok(())
    }

    fn remember_message(&mut self, h: &GroupMessageHeader)
        ensures
            final(self)@ == remember(old(self)@, h@),
    {
        proof {
            use_type_invariant(&*self);
        }
        let mut ids: StrMap<u32> = StrMap::new();
        std::mem::swap(&mut ids, &mut self.message_id_index);
        ids.insert(h.message_id.clone(), h.message_number);
        self.message_id_index = ids;
        let mut numbers: OrderMap<String> = OrderMap::new();
        std::mem::swap(&mut numbers, &mut self.message_number_index);
        numbers.insert(h.message_number as u64, h.message_id.clone());
        self.message_number_index = numbers;
    }

    fn advance_message_key(&mut self) -> (r: Result<(u32, MessageKeyMaterial), MessagingError>)
        ensures
            final(self)@ == (RemoteKeyView {
                chain_key: group_next_key(old(self)@.chain_key),
                next: if old(self)@.next < u32::MAX { (old(self)@.next + 1) as u32 } else { old(self)@.next },
                ..old(self)@
            }),
            old(self)@.next < u32::MAX ==> (r matches Ok((n, mk)) && n == old(self)@.next && mk@ == group_message_key(
                old(self)@.chain_key,
            )),
            old(self)@.next == u32::MAX ==> r == Err::<(u32, MessageKeyMaterial), MessagingError>(
                MessagingError::InvalidGroupKeyMaterial("group receiver message counter"),
            ),
    {
        proof {
            use_type_invariant(&*self);
        }
        let message_number = self.next_message_number;
        let (next_chain_key, key_material) = group_chain_kdf(&self.chain_key);
        self.chain_key = next_chain_key;
        if self.next_message_number == u32::MAX {
            return Err(MessagingError::InvalidGroupKeyMaterial("group receiver message counter"));
        }
        self.next_message_number = self.next_message_number + 1;
        Ok((message_number, key_material))
    }

    fn skip_message_keys(&mut self, until: u32) -> (r: Result<(), MessagingError>)
        ensures
            until < old(self)@.next ==> r is Ok && final(self)@ == old(self)@,
            until >= old(self)@.next && until - old(self)@.next > MAX_GROUP_SKIP ==> r == Err::<(), MessagingError>(
                MessagingError::Crypto(
                    CryptoError::MessageNumberTooFarAhead {
                        current: old(self)@.next,
                        requested: until,
                        max_skip: MAX_GROUP_SKIP,
                    },
                ),
            ) && final(self)@ == old(self)@,
            until >= old(self)@.next && until - old(self)@.next <= MAX_GROUP_SKIP ==> r is Ok && final(self)@ == (
            RemoteKeyView {
                chain_key: group_skip_spec(old(self)@.chain_key, old(self)@.next, until, old(self)@.skipped).0,
                next: until,
                skipped: group_skip_spec(old(self)@.chain_key, old(self)@.next, until, old(self)@.skipped).1,
                ..old(self)@
            }),
    {
        let current = self.next_message_number;
        if until < current {
            return Ok(());
        }
        if until - current > MAX_GROUP_SKIP {
            return Err(MessagingError::Crypto(
                CryptoError::MessageNumberTooFarAhead { current, requested: until, max_skip: MAX_GROUP_SKIP },
            ));
        }
        let ghost target = group_skip_spec(old(self)@.chain_key, old(self)@.next, until, old(self)@.skipped);
        while self.next_message_number < until
            invariant
                self.next_message_number <= until,
                group_skip_spec(self@.chain_key, self@.next, until, self@.skipped) == target,
                self@.distribution_id == old(self)@.distribution_id,
                self@.chain_key_seed == old(self)@.chain_key_seed,
                self@.signing_public_key == old(self)@.signing_public_key,
                self@.ids == old(self)@.ids,
                self@.numbers == old(self)@.numbers,
            decreases until - self.next_message_number,
        {
            let (number, key_material) = match self.advance_message_key() {
                Ok(x) => x,
                Err(e) => return Err(e),
            };
            proof {
                use_type_invariant(&*self);
            }
            let mut skipped: OrderMap<MessageKeyMaterial> = OrderMap::new();
            std::mem::swap(&mut skipped, &mut self.skipped_message_keys);
            skipped.insert(number as u64, key_material);
            self.skipped_message_keys = skipped;
        }
        Ok(())
    }

    fn decrypt_message(&mut self, m: &GroupEncryptedMessage) -> (r: Result<Vec<u8>, MessagingError>)
        ensures
            final(self)@ == remote_decrypt_spec(old(self)@, m@).0,
            match remote_decrypt_spec(old(self)@, m@).1 {
                Ok(p) => r matches Ok(b) && b@ == p,
                Err(g) => r matches Err(e) && rejected_as(e, g),
            },
    {
        proof {
            use_type_invariant(&*self);
        }
        let aad = build_group_message_aad(&m.header);
        if m.signature.len() != 64 {
            return Err(MessagingError::InvalidGroupSignature);
        }
        let payload = match signature_payload(aad.as_slice(), m.ciphertext.as_slice()) {
            Some(p) => p,
            None => return Err(MessagingError::Serialization(crate::text::owned("group aad too large"))),
        };
        let signature = crate::bytes::array64_at(m.signature.as_slice(), 0);
        assert(signature@ =~= m@.signature);
        if !crate::outside::ed25519_verify(&self.signing_public_key, payload.as_slice(), &signature) {
            return Err(MessagingError::InvalidGroupSignature);
        }
        match self.ensure_message_fresh(&m.header) {
            Ok(()) => {},
            Err(e) => return Err(e),
        }
        let n = m.header.message_number;
        let mut skipped: OrderMap<MessageKeyMaterial> = OrderMap::new();
        std::mem::swap(&mut skipped, &mut self.skipped_message_keys);
        let kept = skipped.remove(n as u64);
        self.skipped_message_keys = skipped;
        match kept {
            Some(key_material) => {
                let plaintext = match open_group_message(&key_material, m.ciphertext.as_slice(), aad.as_slice()) {
                    Ok(p) => p,
                    Err(e) => return Err(e),
                };
                self.remember_message(&m.header);
                return Ok(plaintext);
            },
            None => {
                assert(old(self)@.skipped.remove(n as u64) =~= old(self)@.skipped);
                assert(self@ == old(self)@);
            },
        }
        match self.skip_message_keys(n) {
            Ok(()) => {},
            Err(e) => return Err(e),
        }
        if n < self.next_message_number {
            return Err(MessagingError::Crypto(CryptoError::ReplayOrDuplicateMessage(n)));
        }
        let (_number, key_material) = match self.advance_message_key() {
            Ok(x) => x,
            Err(e) => return Err(e),
        };
        let plaintext = match open_group_message(&key_material, m.ciphertext.as_slice(), aad.as_slice()) {
            Ok(p) => p,
            Err(e) => return Err(e),
        };
        self.remember_message(&m.header);
        Ok(plaintext)
    }
}

/// The epoch change a rotation made, with the new epoch's membership and the
/// local device's new sender key.
pub struct RotationView {
    pub previous_epoch: u64,
    pub next_epoch: u64,
    pub reason: RotationReasonView,
    pub membership: Seq<ParticipantView>,
    pub distribution: DistributionView,
}

#[derive(Debug, PartialEq, Eq)]
pub struct GroupEpochRotation {
    previous_epoch: u64,
    next_epoch: u64,
    reason: GroupRotationReason,
    membership: GroupMembership,
    local_sender_key_distribution: GroupSenderKeyDistribution,
}

impl View for GroupEpochRotation {
    type V = RotationView;

    closed spec fn view(&self) -> RotationView {
        RotationView {
            previous_epoch: self.previous_epoch,
            next_epoch: self.next_epoch,
            reason: self.reason@,
            membership: self.membership@,
            distribution: self.local_sender_key_distribution@,
        }
    }
}

impl GroupEpochRotation {
    pub fn previous_epoch(&self) -> (r: u64)
        ensures
            r == self@.previous_epoch,
    {
        self.previous_epoch
    }

    pub fn next_epoch(&self) -> (r: u64)
        ensures
            r == self@.next_epoch,
    {
        self.next_epoch
    }

    pub fn reason(&self) -> (r: &GroupRotationReason)
        ensures
            r@ == self@.reason,
    {
        &self.reason
    }

    pub fn membership(&self) -> (r: &GroupMembership)
        ensures
            r@ == self@.membership,
    {
        &self.membership
    }

    pub fn local_sender_key_distribution(&self) -> (r: &GroupSenderKeyDistribution)
        ensures
            r@ == self@.distribution,
    {
        &self.local_sender_key_distribution
    }
}

/// A device's view of one epoch of a group.
pub struct GroupSessionView {
    pub group_id: Seq<char>,
    pub epoch: u64,
    pub membership: Seq<ParticipantView>,
    pub local_device: DeviceView,
    pub local_key: LocalKeyView,
    pub sent_ids: Set<Seq<char>>,
    pub remotes: Map<Seq<char>, RemoteKeyView>,
}

/// One epoch of a group as one device sees it: the membership, the device's
/// own sender key and the ids it has sent, and the sender keys of the others.
pub struct GroupSession {
    group_id: String,
    epoch: u64,
    membership: GroupMembership,
    local_device: Device,
    local_sender_key: LocalSenderKeyState,
    local_message_ids: StrMap<()>,
    remote_sender_keys: StrMap<RemoteSenderKeyState>,
}

impl View for GroupSession {
    type V = GroupSessionView;

    closed spec fn view(&self) -> GroupSessionView {
        GroupSessionView {
            group_id: self.group_id@,
            epoch: self.epoch,
            membership: self.membership@,
            local_device: self.local_device@,
            local_key: self.local_sender_key@,
            sent_ids: self.local_message_ids.map().dom(),
            remotes: self.remote_sender_keys.map(),
        }
    }
}

/// Why a session cannot be made for a device: a bad group id, a device that
/// is not a member, or one listed under another member.
pub open spec fn create_check(group_id: Seq<char>, local: DeviceView, membership: Seq<ParticipantView>) -> Option<GroupRejection> {
    if !is_messaging_identifier(group_id) {
        Some(GroupRejection::BadIdentifier("group_id", group_id))
    } else if !participant_map(membership).contains_key(local.device_id) {
        Some(GroupRejection::LocalDeviceMissing)
    } else if participant_map(membership)[local.device_id] != local.owner_member_id {
        Some(GroupRejection::ParticipantMismatch("local device member id"))
    } else {
        None
    }
}

/// The sender-key distribution a session hands out: its current chain key
/// and the public key of its signing seed.
pub open spec fn distribution_of(s: GroupSessionView) -> DistributionView {
    DistributionView {
        version: GROUP_SENDER_KEY_VERSION,
        group_id: s.group_id,
        epoch: s.epoch,
        sender_member_id: s.local_device.owner_member_id,
        sender_device_id: s.local_device.device_id,
        distribution_id: s.local_key.distribution_id,
        chain_key_seed: s.local_key.chain_key,
        signing_public_key: ed25519_public(s.local_key.signing_seed),
    }
}

/// The header of the next message the session sends.
pub open spec fn session_header(s: GroupSessionView, message_id: Seq<char>, kind: MessageKind, sent_at_unix_ms: i64) -> GroupHeaderView {
    GroupHeaderView {
        version: GROUP_MESSAGE_VERSION,
        group_id: s.group_id,
        epoch: s.epoch,
        sender_member_id: s.local_device.owner_member_id,
        sender_device_id: s.local_device.device_id,
        distribution_id: s.local_key.distribution_id,
        message_id,
        message_number: s.local_key.next,
        sent_at_unix_ms,
        kind,
    }
}

/// Importing a distribution: the receivers' chains afterwards, and whether
/// it was accepted.
pub open spec fn import_spec(s: GroupSessionView, d: DistributionView) -> (Map<Seq<char>, RemoteKeyView>, Result<(), GroupRejection>) {
    let members = participant_map(s.membership);
    let dev = d.sender_device_id;
    if d.version != GROUP_SENDER_KEY_VERSION {
        (s.remotes, Err(GroupRejection::KeyVersion(d.version)))
    } else if !is_messaging_identifier(d.group_id) {
        (s.remotes, Err(GroupRejection::BadIdentifier("group_id", d.group_id)))
    } else if d.group_id != s.group_id {
        (s.remotes, Err(GroupRejection::GroupMismatch(s.group_id, d.group_id)))
    } else if d.epoch != s.epoch {
        (s.remotes, Err(GroupRejection::EpochMismatch(s.epoch, d.epoch)))
    } else if !members.contains_key(dev) {
        (s.remotes, Err(GroupRejection::MissingParticipant(dev)))
    } else if members[dev] != d.sender_member_id {
        (s.remotes, Err(GroupRejection::ParticipantMismatch("sender-key member/device pair")))
    } else if dev == s.local_device.device_id {
        if d.distribution_id == s.local_key.distribution_id {
            (s.remotes, Ok(()))
        } else {
            (s.remotes, Err(GroupRejection::KeyConflict(dev, d.epoch)))
        }
    } else if s.remotes.contains_key(dev) {
        let v = s.remotes[dev];
        if v.distribution_id == d.distribution_id && v.chain_key_seed == d.chain_key_seed && v.signing_public_key
            == d.signing_public_key {
            (s.remotes, Ok(()))
        } else {
            (s.remotes, Err(GroupRejection::KeyConflict(dev, d.epoch)))
        }
    } else if !ed25519_key_valid(d.signing_public_key) {
        (s.remotes, Err(GroupRejection::InvalidVerifyingKey))
    } else {
        (s.remotes.insert(dev, fresh_remote(d)), Ok(()))
    }
}

/// The checks a message passes before its sender's chain is touched.
pub open spec fn decrypt_check(s: GroupSessionView, m: GroupMessageView) -> Option<GroupRejection> {
    let h = m.header;
    let members = participant_map(s.membership);
    if h.version != GROUP_MESSAGE_VERSION {
        Some(GroupRejection::MessageVersion(h.version))
    } else if !is_messaging_identifier(h.group_id) {
        Some(GroupRejection::BadIdentifier("group_id", h.group_id))
    } else if !is_messaging_identifier(h.message_id) {
        Some(GroupRejection::BadIdentifier("message_id", h.message_id))
    } else if h.group_id != s.group_id {
        Some(GroupRejection::GroupMismatch(s.group_id, h.group_id))
    } else if h.epoch != s.epoch {
        Some(GroupRejection::EpochMismatch(s.epoch, h.epoch))
    } else if !members.contains_key(h.sender_device_id) {
        Some(GroupRejection::MissingParticipant(h.sender_device_id))
    } else if members[h.sender_device_id] != h.sender_member_id {
        Some(GroupRejection::ParticipantMismatch("group message member/device pair"))
    } else if !s.remotes.contains_key(h.sender_device_id) {
        Some(GroupRejection::UnknownSenderKey(h.sender_device_id))
    } else if s.remotes[h.sender_device_id].distribution_id != h.distribution_id {
        Some(GroupRejection::UnknownSenderKey(h.sender_device_id))
    } else {
        None
    }
}

/// A receiver's chain can open the next message of a sender's chain: the
/// receiver either kept that message's key, or can reach the sender's chain
/// key within the skip limit.
pub open spec fn receiver_in_step(v: RemoteKeyView, l: LocalKeyView) -> bool {
    &&& v.signing_public_key == ed25519_public(l.signing_seed)
    &&& {
        ||| v.skipped.contains_key(l.next as u64) && v.skipped[l.next as u64] == group_message_key(l.chain_key)
        ||| !v.skipped.contains_key(l.next as u64) && v.next <= l.next && l.next - v.next <= MAX_GROUP_SKIP
            && group_skip_spec(v.chain_key, v.next, l.next, v.skipped).0 == l.chain_key
    }
}

/// A receiver has not seen the id or the number of a message.
pub open spec fn unseen(v: RemoteKeyView, h: GroupHeaderView) -> bool {
    !v.ids.contains_key(h.message_id) && !v.numbers.contains_key(h.message_number as u64)
}

impl GroupSession {
    #[verifier::type_invariant]
    spec fn inv(self) -> bool {
        &&& self.membership.wf()
        &&& self.local_message_ids.wf()
        &&& self.remote_sender_keys.wf()
        &&& is_messaging_identifier(self.group_id@)
        &&& create_check(self.group_id@, self.local_device@, self.membership@) is None
    }

    /// A session for `local_device` in a group epoch, with the given sender
    /// chain key, distribution id and signing seed.
    pub fn create_with(
        group_id: &str,
        epoch: u64,
        local_device: Device,
        membership: GroupMembership,
        chain_key: [u8; 32],
        distribution_id: u32,
        signing_seed: [u8; 32],
    ) -> (r: Result<GroupSession, MessagingError>)
        requires
            membership.wf(),
        ensures
            match create_check(group_id@, local_device@, membership@) {
                Some(g) => r matches Err(e) && rejected_as(e, g),
                None => r matches Ok(s) && s@ == (GroupSessionView {
                    group_id: group_id@,
                    epoch,
                    membership: membership@,
                    local_device: local_device@,
                    local_key: LocalKeyView { distribution_id, chain_key: chain_key@, next: 0, signing_seed: signing_seed@ },
                    sent_ids: Set::empty(),
                    remotes: Map::empty(),
                }),
            },
    {
        match validate_identifier("group_id", group_id) {
            Ok(()) => {},
            Err(e) => return Err(e),
        }
        match membership.participant(local_device.device_id()) {
            None => return Err(MessagingError::LocalDeviceMissingFromGroup),
            Some(p) => if !p.member_id().same_as(local_device.owner_member_id()) {
                return Err(MessagingError::GroupParticipantMismatch("local device member id"));
            },
        }
        let ids: StrMap<()> = StrMap::new();
        let remotes: StrMap<RemoteSenderKeyState> = StrMap::new();
        assert(ids.map().dom() =~= Set::<Seq<char>>::empty());
        Ok(GroupSession {
            group_id: crate::text::owned(group_id),
            epoch,
            membership,
            local_device,
            local_sender_key: LocalSenderKeyState {
                distribution_id,
                chain_key,
                next_message_number: 0,
                signing_seed,
            },
            local_message_ids: ids,
            remote_sender_keys: remotes,
        })
    }

    /// A session with a fresh random sender chain and signing key.
    pub fn create(group_id: &str, epoch: u64, local_device: Device, membership: GroupMembership) -> (r: Result<
        GroupSession,
        MessagingError,
    >)
        requires
            membership.wf(),
        ensures
            match create_check(group_id@, local_device@, membership@) {
                Some(g) => r matches Err(e) && rejected_as(e, g),
                None => r matches Ok(s) && s@.group_id == group_id@ && s@.epoch == epoch && s@.membership
                    == membership@ && s@.local_device == local_device@ && s@.local_key.next == 0 && s@.sent_ids
                    == Set::<Seq<char>>::empty() && s@.remotes == Map::<Seq<char>, RemoteKeyView>::empty(),
            },
    {
        let chain_key = random_bytes_32();
        let distribution_id = random_u32();
        let signing_seed = random_bytes_32();
        Self::create_with(group_id, epoch, local_device, membership, chain_key, distribution_id, signing_seed)
    }

    pub fn group_id(&self) -> (r: &str)
        ensures
            r@ == self@.group_id,
    {
        self.group_id.as_str()
    }

    pub fn epoch(&self) -> (r: u64)
        ensures
            r == self@.epoch,
    {
        self.epoch
    }

    pub fn membership(&self) -> (r: &GroupMembership)
        ensures
            r@ == self@.membership,
            r.wf(),
    {
        proof {
            use_type_invariant(self);
        }
        &self.membership
    }

    pub fn local_device(&self) -> (r: &Device)
        ensures
            r@ == self@.local_device,
    {
        &self.local_device
    }

    /// The distribution of this device's sender key for the epoch.
    pub fn sender_key_distribution(&self) -> (r: GroupSenderKeyDistribution)
        ensures
            r@ == distribution_of(self@),
    {
        let public = ed25519_verifying_key(&self.local_sender_key.signing_seed);
        GroupSenderKeyDistribution::from_parts(
            crate::text::copy_string(&self.group_id),
            self.epoch,
            self.local_device.owner_member_id().duplicate(),
            self.local_device.device_id().duplicate(),
            self.local_sender_key.distribution_id,
            self.local_sender_key.chain_key,
            public,
        )
    }

    /// Whether a sender key of the device has been imported.
    pub fn has_sender_key(&self, device_id: &DeviceId) -> (r: bool)
        ensures
            r == self@.remotes.contains_key(device_id@),
    {
        proof {
            use_type_invariant(self);
        }
        self.remote_sender_keys.contains(device_id.as_str())
    }

    /// Imports another member device's sender key for this epoch.  The same
    /// key again, or this device's own, is accepted without change; a
    /// different key for a device that has one is a conflict.
    pub fn import_sender_key(&mut self, distribution: GroupSenderKeyDistribution) -> (r: Result<(), MessagingError>)
        ensures
            final(self)@ == (GroupSessionView { remotes: import_spec(old(self)@, distribution@).0, ..old(self)@ }),
            match import_spec(old(self)@, distribution@).1 {
                Ok(()) => r is Ok,
                Err(g) => r matches Err(e) && rejected_as(e, g),
            },
    {
        proof {
            use_type_invariant(&*self);
        }
        if distribution.version() != GROUP_SENDER_KEY_VERSION {
            return Err(MessagingError::InvalidSenderKeyDistributionVersion(distribution.version()));
        }
        match validate_identifier("group_id", distribution.group_id()) {
            Ok(()) => {},
            Err(e) => return Err(e),
        }
        if !crate::text::str_eq(distribution.group_id(), self.group_id.as_str()) {
            return Err(MessagingError::GroupIdMismatch {
                expected: crate::text::copy_string(&self.group_id),
                received: crate::text::owned(distribution.group_id()),
            });
        }
        if distribution.epoch() != self.epoch {
            return Err(MessagingError::GroupEpochMismatch { expected: self.epoch, received: distribution.epoch() });
        }
        match self.membership.participant(distribution.sender_device_id()) {
            None => return Err(MessagingError::MissingGroupParticipant(distribution.sender_device_id().to_string())),
            Some(p) => if !p.member_id().same_as(distribution.sender_member_id()) {
                return Err(MessagingError::GroupParticipantMismatch("sender-key member/device pair"));
            },
        }
        if crate::text::str_eq(distribution.sender_device_id().as_str(), self.local_device.device_id().as_str()) {
            if distribution.distribution_id() == self.local_sender_key.distribution_id {
                return Ok(());
            }
            return Err(MessagingError::SenderKeyDistributionConflict {
                device_id: distribution.sender_device_id().to_string(),
                epoch: distribution.epoch(),
            });
        }
        match self.remote_sender_keys.get(distribution.sender_device_id().as_str()) {
            Some(existing) => {
                if existing.matches_distribution(&distribution) {
                    return Ok(());
                }
                return Err(MessagingError::SenderKeyDistributionConflict {
                    device_id: distribution.sender_device_id().to_string(),
                    epoch: distribution.epoch(),
                });
            },
            None => {},
        }
        let state = match RemoteSenderKeyState::from_distribution(&distribution) {
            Ok(x) => x,
            Err(e) => return Err(e),
        };
        let mut remotes: StrMap<RemoteSenderKeyState> = StrMap::new();
        std::mem::swap(&mut remotes, &mut self.remote_sender_keys);
        remotes.insert(distribution.sender_device_id().to_string(), state);
        self.remote_sender_keys = remotes;
        Ok(())
    }
}

/// Receiving a message in a session: the session afterwards, and the
/// decrypted message or the refusal.
pub open spec fn session_decrypt_spec(s: GroupSessionView, m: GroupMessageView) -> (GroupSessionView, Result<GroupDecryptedView, GroupRejection>) {
    match decrypt_check(s, m) {
        Some(g) => (s, Err(g)),
        None => {
            let d = m.header.sender_device_id;
            let (v2, res) = remote_decrypt_spec(s.remotes[d], m);
            (
                GroupSessionView { remotes: s.remotes.insert(d, v2), ..s },
                match res {
                    Ok(p) => Ok(decrypted_view(m.header, p)),
                    Err(g) => Err(g),
                },
            )
        },
    }
}

/// A receiving session that holds the sender's current key for the epoch
/// and has not seen the message's id or number.
pub open spec fn receiver_ready(r: GroupSessionView, sender: GroupSessionView, h: GroupHeaderView) -> bool {
    let dev = sender.local_device.device_id;
    &&& r.group_id == sender.group_id
    &&& r.epoch == sender.epoch
    &&& participant_map(r.membership).contains_key(dev)
    &&& participant_map(r.membership)[dev] == sender.local_device.owner_member_id
    &&& r.remotes.contains_key(dev)
    &&& r.remotes[dev].distribution_id == sender.local_key.distribution_id
    &&& receiver_in_step(r.remotes[dev], sender.local_key)
    &&& unseen(r.remotes[dev], h)
}

/// Sending in a session, once the message id has been accepted: the session
/// afterwards, and the message or the refusal.
pub open spec fn session_encrypt_spec(s: GroupSessionView, message_id: Seq<char>, kind: MessageKind, sent_at_unix_ms: i64, body: Seq<u8>) -> (
    GroupSessionView,
    Result<GroupMessageView, GroupRejection>,
) {
    let (l2, res) = local_encrypt_spec(s.local_key, session_header(s, message_id, kind, sent_at_unix_ms), body);
    match res {
        Ok(m) => (GroupSessionView { local_key: l2, sent_ids: s.sent_ids.insert(message_id), ..s }, Ok(m)),
        Err(g) => (GroupSessionView { local_key: l2, ..s }, Err(g)),
    }
}

/// What a rotation to a new epoch gives: a fresh session of the same device
/// and group with the new membership and no keys of others, and the record
/// of the change with the new local distribution.
pub open spec fn rotated(
    old: GroupSessionView,
    new: GroupSessionView,
    rotation: RotationView,
    membership: Seq<ParticipantView>,
    reason: RotationReasonView,
) -> bool {
    &&& new.group_id == old.group_id
    &&& new.epoch == old.epoch + 1
    &&& new.membership == membership
    &&& new.local_device == old.local_device
    &&& new.local_key.next == 0
    &&& new.sent_ids == Set::<Seq<char>>::empty()
    &&& new.remotes == Map::<Seq<char>, RemoteKeyView>::empty()
    &&& rotation == (RotationView {
        previous_epoch: old.epoch,
        next_epoch: (old.epoch + 1) as u64,
        reason,
        membership,
        distribution: distribution_of(new),
    })
}

/// A message a session has accepted is refused as a replay when it comes
/// again, and the session does not change.
pub proof fn lemma_group_replay_rejected(s: GroupSessionView, m: GroupMessageView)
    requires
        session_decrypt_spec(s, m).1 is Ok,
    ensures
        session_decrypt_spec(session_decrypt_spec(s, m).0, m).1 == Err::<GroupDecryptedView, GroupRejection>(
            GroupRejection::Replay(m.header.message_number),
        ),
        session_decrypt_spec(session_decrypt_spec(s, m).0, m).0 == session_decrypt_spec(s, m).0,
{
    let d = m.header.sender_device_id;
    let v = s.remotes[d];
    let v2 = remote_decrypt_spec(v, m).0;
    let s2 = session_decrypt_spec(s, m).0;
    assert(s2.remotes[d] == v2);
    assert(v2.ids.contains_key(m.header.message_id) && v2.ids[m.header.message_id] == m.header.message_number);
    assert(v2.signing_public_key == v.signing_public_key);
    assert(decrypt_check(s2, m) is None);
    assert(s2.remotes.insert(d, v2) =~= s2.remotes);
}

impl GroupSession {
    /// Seals, signs and records a message with a new id.  Any receiver that
    /// holds this device's current sender key and has not seen the message
    /// decrypts it to the body.
    pub fn encrypt_message(&mut self, message_id: &str, kind: MessageKind, sent_at_unix_ms: i64, body: Vec<u8>) -> (r: Result<
        GroupEncryptedMessage,
        MessagingError,
    >)
        ensures
            !is_messaging_identifier(message_id@) ==> (r matches Err(MessagingError::InvalidIdentifier { field, value })
                && field == "message_id" && value@ == message_id@) && final(self)@ == old(self)@,
            is_messaging_identifier(message_id@) && old(self)@.sent_ids.contains(message_id@) ==> (r matches Err(
                MessagingError::DuplicateGroupMessageId(x),
            ) && x@ == message_id@) && final(self)@ == old(self)@,
            is_messaging_identifier(message_id@) && !old(self)@.sent_ids.contains(message_id@) ==> ({
                let (s2, res) = session_encrypt_spec(old(self)@, message_id@, kind, sent_at_unix_ms, body@);
                &&& final(self)@ == s2
                &&& match res {
                    Ok(m) => r matches Ok(x) && x@ == m,
                    Err(g) => r matches Err(e) && rejected_as(e, g),
                }
            }),
            r matches Ok(m) ==> forall|rv: GroupSessionView| #[trigger]
                receiver_ready(rv, old(self)@, m@.header) ==> session_decrypt_spec(rv, m@).1 == Ok::<
                    GroupDecryptedView,
                    GroupRejection,
                >(decrypted_view(m@.header, body@)),
    {
        proof {
            use_type_invariant(&*self);
        }
        match validate_identifier("message_id", message_id) {
            Ok(()) => {},
            Err(e) => return Err(e),
        }
        if self.local_message_ids.contains(message_id) {
            return Err(MessagingError::DuplicateGroupMessageId(crate::text::owned(message_id)));
        }
        let header = GroupMessageHeader {
            version: GROUP_MESSAGE_VERSION,
            group_id: crate::text::copy_string(&self.group_id),
            epoch: self.epoch,
            sender_member_id: self.local_device.owner_member_id().duplicate(),
            sender_device_id: self.local_device.device_id().duplicate(),
            distribution_id: self.local_sender_key.distribution_id,
            message_id: crate::text::owned(message_id),
            message_number: self.local_sender_key.next_message_number,
            sent_at_unix_ms,
            kind,
        };
        let ghost h = header@;
        assert(h == session_header(old(self)@, message_id@, kind, sent_at_unix_ms));
        let mut key = LocalSenderKeyState { distribution_id: 0, chain_key: [0u8; 32], next_message_number: 0, signing_seed: [0u8; 32] };
        std::mem::swap(&mut key, &mut self.local_sender_key);
        let result = key.encrypt_message(header, body.as_slice());
        self.local_sender_key = key;
        match result {
            Ok(encrypted) => {
                let mut ids: StrMap<()> = StrMap::new();
                std::mem::swap(&mut ids, &mut self.local_message_ids);
                ids.insert(crate::text::owned(message_id), ());
                self.local_message_ids = ids;
                proof {
                    assert(self@.sent_ids =~= old(self)@.sent_ids.insert(message_id@));
                    assert forall|rv: GroupSessionView| #[trigger] receiver_ready(rv, old(self)@, encrypted@.header) implies session_decrypt_spec(rv, encrypted@).1
                        == Ok::<GroupDecryptedView, GroupRejection>(decrypted_view(encrypted@.header, body@)) by {
                        let dev = old(self)@.local_device.device_id;
                        assert(decrypt_check(rv, encrypted@) is None);
                        assert(remote_decrypt_spec(rv.remotes[dev], encrypted@).1 == Ok::<Seq<u8>, GroupRejection>(body@));
                    }
                }
                Ok(encrypted)
            },
            Err(e) => Err(e),
        }
    }

    /// Decrypts a message of another member device of this epoch under its
    /// imported sender key.
    pub fn decrypt_message(&mut self, envelope: &GroupEncryptedMessage) -> (r: Result<GroupDecryptedMessage, MessagingError>)
        ensures
            final(self)@ == session_decrypt_spec(old(self)@, envelope@).0,
            match session_decrypt_spec(old(self)@, envelope@).1 {
                Ok(d) => r matches Ok(x) && x@ == d,
                Err(g) => r matches Err(e) && rejected_as(e, g),
            },
    {
        proof {
            use_type_invariant(&*self);
        }
        let h = &envelope.header;
        if h.version != GROUP_MESSAGE_VERSION {
            return Err(MessagingError::InvalidGroupMessageVersion(h.version));
        }
        match validate_identifier("group_id", h.group_id.as_str()) {
            Ok(()) => {},
            Err(e) => return Err(e),
        }
        match validate_identifier("message_id", h.message_id.as_str()) {
            Ok(()) => {},
            Err(e) => return Err(e),
        }
        if !crate::text::str_eq(h.group_id.as_str(), self.group_id.as_str()) {
            return Err(MessagingError::GroupIdMismatch {
                expected: crate::text::copy_string(&self.group_id),
                received: crate::text::copy_string(&h.group_id),
            });
        }
        if h.epoch != self.epoch {
            return Err(MessagingError::GroupEpochMismatch { expected: self.epoch, received: h.epoch });
        }
        match self.membership.participant(&h.sender_device_id) {
            None => return Err(MessagingError::MissingGroupParticipant(h.sender_device_id.to_string())),
            Some(p) => if !p.member_id().same_as(&h.sender_member_id) {
                return Err(MessagingError::GroupParticipantMismatch("group message member/device pair"));
            },
        }
        match self.remote_sender_keys.get(h.sender_device_id.as_str()) {
            None => return Err(MessagingError::UnknownSenderKey(h.sender_device_id.to_string())),
            Some(state) => if state.distribution_id != h.distribution_id {
                return Err(MessagingError::UnknownSenderKey(h.sender_device_id.to_string()));
            },
        }
        let mut remotes: StrMap<RemoteSenderKeyState> = StrMap::new();
        std::mem::swap(&mut remotes, &mut self.remote_sender_keys);
        let mut state = match remotes.remove(h.sender_device_id.as_str()) {
            Some(x) => x,
            None => {
                self.remote_sender_keys = remotes;
                return Err(MessagingError::UnknownSenderKey(h.sender_device_id.to_string()));
            },
        };
        let result = state.decrypt_message(envelope);
        remotes.insert(h.sender_device_id.to_string(), state);
        self.remote_sender_keys = remotes;
        proof {
            let d = envelope@.header.sender_device_id;
            assert(old(self)@.remotes.remove(d).insert(d, remote_decrypt_spec(old(self)@.remotes[d], envelope@).0)
                =~= old(self)@.remotes.insert(d, remote_decrypt_spec(old(self)@.remotes[d], envelope@).0));
        }
        match result {
            Ok(body) => Ok(GroupDecryptedMessage::from_header(h, body)),
            Err(e) => Err(e),
        }
    }
}

impl GroupSession {
    /// The same group and device in the next epoch, with the given
    /// membership and a fresh sender key.
    fn rotate_with_membership(&self, membership: GroupMembership, reason: GroupRotationReason) -> (r: Result<
        (GroupSession, GroupEpochRotation),
        MessagingError,
    >)
        requires
            membership.wf(),
        ensures
            self@.epoch == u64::MAX ==> r matches Err(MessagingError::GroupEpochOverflow),
            self@.epoch < u64::MAX ==> match create_check(self@.group_id, self@.local_device, membership@) {
                Some(g) => r matches Err(e) && rejected_as(e, g),
                None => r matches Ok((s2, rot)) && rotated(self@, s2@, rot@, membership@, reason@),
            },
    {
        if self.epoch == u64::MAX {
            return Err(MessagingError::GroupEpochOverflow);
        }
        let next_epoch = self.epoch + 1;
        let kept = membership.duplicate();
        let next_session = match Self::create(self.group_id.as_str(), next_epoch, self.local_device.duplicate(), membership) {
            Ok(s) => s,
            Err(e) => return Err(e),
        };
        let distribution = next_session.sender_key_distribution();
        let rotation = GroupEpochRotation {
            previous_epoch: self.epoch,
            next_epoch,
            reason,
            membership: kept,
            local_sender_key_distribution: distribution,
        };
        Ok((next_session, rotation))
    }

    /// Moves to the next epoch with one more device.
    pub fn rotate_for_member_addition(&self, participant: GroupParticipant) -> (r: Result<
        (GroupSession, GroupEpochRotation),
        MessagingError,
    >)
        ensures
            participant_map(self@.membership).contains_key(participant@.device_id) ==> (r matches Err(
                MessagingError::DuplicateGroupParticipant(d),
            ) && d@ == participant@.device_id),
            !participant_map(self@.membership).contains_key(participant@.device_id) && self@.membership.len()
                >= MAX_GROUP_PARTICIPANTS ==> (r matches Err(MessagingError::GroupMembershipLimitExceeded(n)) && n
                == self@.membership.len() + 1),
            !participant_map(self@.membership).contains_key(participant@.device_id) && self@.membership.len()
                < MAX_GROUP_PARTICIPANTS && self@.epoch == u64::MAX ==> r matches Err(
                MessagingError::GroupEpochOverflow,
            ),
            !participant_map(self@.membership).contains_key(participant@.device_id) && self@.membership.len()
                < MAX_GROUP_PARTICIPANTS && self@.epoch < u64::MAX ==> (r matches Ok((s2, rot)) && rotated(
                self@,
                s2@,
                rot@,
                s2@.membership,
                RotationReasonView::MemberAdded(participant@.device_id),
            ) && participant_map(s2@.membership) == participant_map(self@.membership).insert(
                participant@.device_id,
                participant@.member_id,
            ) && s2@.membership.len() == self@.membership.len() + 1),
    {
        proof {
            use_type_invariant(self);
        }
        proof {
            self.membership.lemma_participant_limit();
        }
        let mut membership = self.membership.duplicate();
        let added = participant.device_id().duplicate();
        match membership.add_participant(participant) {
            Ok(()) => {},
            Err(e) => return Err(e),
        }
        proof {
            let dev = self@.local_device.device_id;
            assert(participant_map(membership@).contains_key(dev));
        }
        self.rotate_with_membership(membership, GroupRotationReason::MemberAdded { device_id: added })
    }

    /// Moves to the next epoch without a device that left.
    pub fn rotate_for_member_removal(&self, device_id: &DeviceId) -> (r: Result<
        (GroupSession, GroupEpochRotation),
        MessagingError,
    >)
        ensures
            !participant_map(self@.membership).contains_key(device_id@) ==> (r matches Err(
                MessagingError::MissingGroupParticipant(d),
            ) && d@ == device_id@),
            participant_map(self@.membership).contains_key(device_id@) && self@.epoch == u64::MAX ==> r matches Err(
                MessagingError::GroupEpochOverflow,
            ),
            participant_map(self@.membership).contains_key(device_id@) && self@.epoch < u64::MAX && device_id@
                == self@.local_device.device_id ==> r matches Err(MessagingError::LocalDeviceMissingFromGroup),
            participant_map(self@.membership).contains_key(device_id@) && self@.epoch < u64::MAX && device_id@
                != self@.local_device.device_id ==> (r matches Ok((s2, rot)) && rotated(
                self@,
                s2@,
                rot@,
                s2@.membership,
                RotationReasonView::MemberRemoved(device_id@),
            ) && participant_map(s2@.membership) == participant_map(self@.membership).remove(device_id@)
                && s2@.membership.len() + 1 == self@.membership.len()),
    {
        proof {
            use_type_invariant(self);
        }
        let mut membership = self.membership.duplicate();
        match membership.remove_participant(device_id) {
            Ok(_) => {},
            Err(e) => return Err(e),
        }
        self.rotate_with_membership(membership, GroupRotationReason::MemberRemoved { device_id: device_id.duplicate() })
    }

    /// Moves to the next epoch without a compromised device.
    pub fn rotate_for_device_compromise(&self, device_id: &DeviceId) -> (r: Result<
        (GroupSession, GroupEpochRotation),
        MessagingError,
    >)
        ensures
            !participant_map(self@.membership).contains_key(device_id@) ==> (r matches Err(
                MessagingError::MissingGroupParticipant(d),
            ) && d@ == device_id@),
            participant_map(self@.membership).contains_key(device_id@) && self@.epoch == u64::MAX ==> r matches Err(
                MessagingError::GroupEpochOverflow,
            ),
            participant_map(self@.membership).contains_key(device_id@) && self@.epoch < u64::MAX && device_id@
                == self@.local_device.device_id ==> r matches Err(MessagingError::LocalDeviceMissingFromGroup),
            participant_map(self@.membership).contains_key(device_id@) && self@.epoch < u64::MAX && device_id@
                != self@.local_device.device_id ==> (r matches Ok((s2, rot)) && rotated(
                self@,
                s2@,
                rot@,
                s2@.membership,
                RotationReasonView::DeviceCompromised(device_id@),
            ) && participant_map(s2@.membership) == participant_map(self@.membership).remove(device_id@)
                && s2@.membership.len() + 1 == self@.membership.len()),
    {
        proof {
            use_type_invariant(self);
        }
        let mut membership = self.membership.duplicate();
        match membership.remove_participant(device_id) {
            Ok(_) => {},
            Err(e) => return Err(e),
        }
        self.rotate_with_membership(membership, GroupRotationReason::DeviceCompromised { device_id: device_id.duplicate() })
    }

    /// Moves to the next epoch with the same membership and a fresh sender key.
    pub fn rotate_for_manual_rekey(&self) -> (r: Result<(GroupSession, GroupEpochRotation), MessagingError>)
        ensures
            self@.epoch == u64::MAX ==> r matches Err(MessagingError::GroupEpochOverflow),
            self@.epoch < u64::MAX ==> (r matches Ok((s2, rot)) && rotated(
                self@,
                s2@,
                rot@,
                self@.membership,
                RotationReasonView::ManualForwardSecrecyRefresh,
            )),
    {
        proof {
            use_type_invariant(self);
        }
        let membership = self.membership.duplicate();
        self.rotate_with_membership(membership, GroupRotationReason::ManualForwardSecrecyRefresh)
    }
}

} // verus!
