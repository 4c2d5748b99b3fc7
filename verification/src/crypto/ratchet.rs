//! The Double Ratchet: sending and receiving chains, the DH ratchet step and
//! the keys kept for skipped messages.

use vstd::prelude::*;
use crate::bytes::{bytes_eq, extend_bytes, u32_le, u32_le_spec};
use crate::contexts::{ratchet_aad_prefix, ratchet_aad_prefix_spec};
use crate::crypto::error::CryptoError;
use crate::crypto::kdf::{chain_kdf, chain_step_spec, root_kdf, root_step_spec, MessageKeyMaterial, MessageKeyView};
use crate::crypto::skipped::{SkipId, SkippedKeys};
use crate::outside::{
    aes256gcm_decrypt, aes256gcm_encrypt, aes256gcm_open, aes256gcm_seal, random_bytes_32,
    x25519_diffie_hellman, x25519_public, x25519_public_key, x25519_shared,
};

verus! {

/// Which side of the X3DH exchange a session is.
#[derive(Debug, Clone, Copy, PartialEq, Eq, Structural)]
pub enum SessionRole {
    Initiator,
    Responder,
}

/// The state a Double Ratchet starts from.
pub struct SessionSeed {
    pub role: SessionRole,
    pub root_key: [u8; 32],
    pub local_ratchet_secret: [u8; 32],
    pub local_ratchet_public: [u8; 32],
    pub remote_ratchet_public: [u8; 32],
    pub sending_chain_key: Option<[u8; 32]>,
    pub receiving_chain_key: Option<[u8; 32]>,
}

/// The header sent with each message.
#[derive(Debug, Clone, Copy, PartialEq, Eq)]
pub struct MessageHeader {
    pub ratchet_public: [u8; 32],
    pub previous_chain_length: u32,
    pub message_number: u32,
}

/// A header with its ratchet key taken as a byte sequence.
pub struct HeaderView {
    pub ratchet_public: Seq<u8>,
    pub previous_chain_length: u32,
    pub message_number: u32,
}

impl View for MessageHeader {
    type V = HeaderView;

    open spec fn view(&self) -> HeaderView {
        HeaderView {
            ratchet_public: self.ratchet_public@,
            previous_chain_length: self.previous_chain_length,
            message_number: self.message_number,
        }
    }
}

/// An encrypted message with its header.
#[derive(Debug, Clone, PartialEq, Eq)]
pub struct EncryptedMessage {
    pub version: u8,
    pub header: MessageHeader,
    pub ciphertext: Vec<u8>,
}

/// What can be shown of a ratchet without its keys.
#[derive(Debug, Clone, PartialEq, Eq)]
pub struct RatchetStateSnapshot {
    role: SessionRole,
    local_ratchet_public: [u8; 32],
    remote_ratchet_public: [u8; 32],
    sending_chain_next_message_number: Option<u32>,
    receiving_chain_next_message_number: Option<u32>,
    skipped_message_key_count: usize,
}

/// The fields of a snapshot.
pub struct SnapshotView {
    pub role: SessionRole,
    pub local_ratchet_public: [u8; 32],
    pub remote_ratchet_public: [u8; 32],
    pub sending_chain_next_message_number: Option<u32>,
    pub receiving_chain_next_message_number: Option<u32>,
    pub skipped_message_key_count: usize,
}

impl View for RatchetStateSnapshot {
    type V = SnapshotView;

    closed spec fn view(&self) -> SnapshotView {
        SnapshotView {
            role: self.role,
            local_ratchet_public: self.local_ratchet_public,
            remote_ratchet_public: self.remote_ratchet_public,
            sending_chain_next_message_number: self.sending_chain_next_message_number,
            receiving_chain_next_message_number: self.receiving_chain_next_message_number,
            skipped_message_key_count: self.skipped_message_key_count,
        }
    }
}

impl RatchetStateSnapshot {
    pub fn role(&self) -> (r: SessionRole)
        ensures
            r == self@.role,
    {
        self.role
    }

    pub fn local_ratchet_public(&self) -> (r: [u8; 32])
        ensures
            r == self@.local_ratchet_public,
    {
        self.local_ratchet_public
    }

    pub fn remote_ratchet_public(&self) -> (r: [u8; 32])
        ensures
            r == self@.remote_ratchet_public,
    {
        self.remote_ratchet_public
    }

    pub fn sending_chain_next_message_number(&self) -> (r: Option<u32>)
        ensures
            r == self@.sending_chain_next_message_number,
    {
        self.sending_chain_next_message_number
    }

    pub fn receiving_chain_next_message_number(&self) -> (r: Option<u32>)
        ensures
            r == self@.receiving_chain_next_message_number,
    {
        self.receiving_chain_next_message_number
    }

    pub fn skipped_message_key_count(&self) -> (r: usize)
        ensures
            r == self@.skipped_message_key_count,
    {
        self.skipped_message_key_count
    }
}

/// Version of the message format.
pub const MESSAGE_VERSION: u8 = 1;

/// The most message keys one step may skip over.
pub const MAX_SKIP: u32 = 64;

/// A sending or receiving chain: its key and the number of its next message.
pub struct ChainView {
    pub key: Seq<u8>,
    pub next: u32,
}

/// The abstract state of a Double Ratchet.
pub struct RatchetView {
    pub role: SessionRole,
    pub root_key: Seq<u8>,
    pub local_secret: Seq<u8>,
    pub local_public: Seq<u8>,
    pub remote_public: Seq<u8>,
    pub sending: Option<ChainView>,
    pub receiving: Option<ChainView>,
    pub previous_chain_length: u32,
    pub skipped: Map<SkipId, MessageKeyView>,
}

/// The key after a chain step.
pub open spec fn next_chain_key(key: Seq<u8>) -> Seq<u8> {
    chain_step_spec(key).subrange(0, 32)
}

/// The message key of a chain step.
pub open spec fn step_message_key(key: Seq<u8>) -> MessageKeyView {
    MessageKeyView {
        cipher_key: chain_step_spec(key).subrange(32, 64),
        nonce: chain_step_spec(key).subrange(64, 76),
    }
}

/// The associated data of a message: the context, the application's data
/// and the header (ratchet key, previous chain length and message number, the
/// numbers little-endian).
pub open spec fn message_aad_spec(header: HeaderView, associated_data: Seq<u8>) -> Seq<u8> {
    ratchet_aad_prefix_spec() + associated_data + header.ratchet_public + u32_le_spec(
        header.previous_chain_length,
    ) + u32_le_spec(header.message_number)
}

/// Advancing a receiving chain from `next` up to `until`, keeping each key
/// passed over under the remote ratchet key: the chain key and the kept keys.
pub open spec fn skip_chain_spec(
    key: Seq<u8>,
    next: u32,
    until: u32,
    remote: Seq<u8>,
    skipped: Map<SkipId, MessageKeyView>,
) -> (Seq<u8>, Map<SkipId, MessageKeyView>)
    decreases until - next,
{
    if next >= until {
        (key, skipped)
    } else {
        skip_chain_spec(
            next_chain_key(key),
            (next + 1) as u32,
            until,
            remote,
            skipped.insert((remote, next), step_message_key(key)),
        )
    }
}

/// Skipping receiving-chain keys up to message `until`.
pub open spec fn skip_spec(v: RatchetView, until: u32) -> Result<RatchetView, CryptoError> {
    match v.receiving {
        None => Ok(v),
        Some(c) => if until < c.next {
            Ok(v)
        } else if until - c.next > MAX_SKIP {
            Err(CryptoError::MessageNumberTooFarAhead { current: c.next, requested: until, max_skip: MAX_SKIP })
        } else {
            let (key, skipped) = skip_chain_spec(c.key, c.next, until, v.remote_public, v.skipped);
            Ok(RatchetView { receiving: Some(ChainView { key, next: until }), skipped, ..v })
        },
    }
}

/// The DH ratchet step on a new remote ratchet key, with `fresh` as the new
/// local ratchet secret.
pub open spec fn ratchet_step_spec(v: RatchetView, remote: Seq<u8>, fresh: Seq<u8>) -> RatchetView {
    let receive = root_step_spec(v.root_key, x25519_shared(v.local_secret, remote));
    let send = root_step_spec(receive.subrange(0, 32), x25519_shared(fresh, remote));
    RatchetView {
        root_key: send.subrange(0, 32),
        local_secret: fresh,
        local_public: x25519_public(fresh),
        remote_public: remote,
        receiving: Some(ChainView { key: receive.subrange(32, 64), next: 0 }),
        sending: Some(ChainView { key: send.subrange(32, 64), next: 0 }),
        previous_chain_length: match v.sending {
            Some(c) => c.next,
            None => 0,
        },
        ..v
    }
}

/// The state with a sending chain: unchanged if it has one, else a new
/// local ratchet key `fresh` and a chain derived against the remote key.
pub open spec fn with_sending_chain_spec(v: RatchetView, fresh: Seq<u8>) -> RatchetView {
    if v.sending is Some {
        v
    } else {
        let step = root_step_spec(v.root_key, x25519_shared(fresh, v.remote_public));
        RatchetView {
            root_key: step.subrange(0, 32),
            local_secret: fresh,
            local_public: x25519_public(fresh),
            sending: Some(ChainView { key: step.subrange(32, 64), next: 0 }),
            previous_chain_length: 0,
            ..v
        }
    }
}

/// What encrypting gives: the new state, and the header and ciphertext or the error.
pub open spec fn encrypt_spec(v: RatchetView, plaintext: Seq<u8>, associated_data: Seq<u8>, fresh: Seq<u8>) -> (
    RatchetView,
    Result<(HeaderView, Seq<u8>), CryptoError>,
) {
    let v1 = with_sending_chain_spec(v, fresh);
    let c = v1.sending->0;
    let advanced = RatchetView {
        sending: Some(ChainView {
            key: next_chain_key(c.key),
            next: if c.next < u32::MAX { (c.next + 1) as u32 } else { c.next },
        }),
        ..v1
    };
    if c.next == u32::MAX {
        (advanced, Err(CryptoError::InvalidKeyMaterial("chain counter")))
    } else {
        let header = HeaderView {
            ratchet_public: v1.local_public,
            previous_chain_length: v1.previous_chain_length,
            message_number: c.next,
        };
        let aad = message_aad_spec(header, associated_data);
        let mk = step_message_key(c.key);
        if plaintext.len() <= 0x10_0000_0000 && aad.len() <= 0x10_0000_0000 {
            (advanced, Ok((header, aes256gcm_seal(mk.cipher_key, mk.nonce, plaintext, aad))))
        } else {
            (advanced, Err(CryptoError::EncryptionFailed))
        }
    }
}

/// A receiver is in step with a sender when it expects the sender's ratchet
/// key, its receiving chain is the sender's sending chain, and it keeps no
/// key for the sender's next message.
pub open spec fn in_sync_spec(receiver: RatchetView, sender: RatchetView) -> bool {
    &&& sender.sending is Some
    &&& receiver.remote_public == sender.local_public
    &&& receiver.receiving == sender.sending
    &&& !receiver.skipped.contains_key((sender.local_public, sender.sending->0.next))
}

/// What opening a ciphertext with a message key gives.
pub open spec fn open_spec(mk: MessageKeyView, ciphertext: Seq<u8>, aad: Seq<u8>) -> Result<Seq<u8>, CryptoError> {
    match aes256gcm_open(mk.cipher_key, mk.nonce, ciphertext, aad) {
        Some(p) => Ok(p),
        None => Err(CryptoError::DecryptionFailed),
    }
}

/// The receiving chain after one step.
pub open spec fn advance_receiving(v: RatchetView) -> RatchetView {
    let c = v.receiving->0;
    RatchetView {
        receiving: Some(ChainView {
            key: next_chain_key(c.key),
            next: if c.next < u32::MAX { (c.next + 1) as u32 } else { c.next },
        }),
        ..v
    }
}

/// What decrypting gives: the new state and the plaintext or the error. A
/// kept key is used first; otherwise a new remote ratchet key triggers a DH
/// ratchet step, skipped keys are kept, and a message number below the
/// receiving chain's is refused as a replay.
pub open spec fn decrypt_spec(
    v: RatchetView,
    version: u8,
    header: HeaderView,
    ciphertext: Seq<u8>,
    associated_data: Seq<u8>,
    fresh: Seq<u8>,
) -> (RatchetView, Result<Seq<u8>, CryptoError>) {
    let id = (header.ratchet_public, header.message_number);
    let aad = message_aad_spec(header, associated_data);
    if version != MESSAGE_VERSION {
        (v, Err(CryptoError::InvalidHeaderVersion(version)))
    } else if v.skipped.contains_key(id) {
        (RatchetView { skipped: v.skipped.remove(id), ..v }, open_spec(v.skipped[id], ciphertext, aad))
    } else {
        let stepped = if header.ratchet_public != v.remote_public {
            match skip_spec(v, header.previous_chain_length) {
                Err(e) => Err(e),
                Ok(v1) => Ok(ratchet_step_spec(v1, header.ratchet_public, fresh)),
            }
        } else {
            Ok(v)
        };
        match stepped {
            Err(e) => (v, Err(e)),
            Ok(v2) => match skip_spec(v2, header.message_number) {
                Err(e) => (v2, Err(e)),
                Ok(v3) => match v3.receiving {
                    None => (v3, Err(CryptoError::MissingReceivingChain)),
                    Some(c) => if header.message_number < c.next {
                        (v3, Err(CryptoError::ReplayOrDuplicateMessage(header.message_number)))
                    } else if c.next == u32::MAX {
                        (advance_receiving(v3), Err(CryptoError::InvalidKeyMaterial("chain counter")))
                    } else {
                        (advance_receiving(v3), open_spec(step_message_key(c.key), ciphertext, aad))
                    },
                },
            },
        }
    }
}

#[derive(Clone, Copy)]
struct ChainState {
    key: [u8; 32],
    next_message_number: u32,
}

/// One session's Double Ratchet.
pub struct DoubleRatchet {
    role: SessionRole,
    root_key: [u8; 32],
    local_ratchet_secret: [u8; 32],
    local_ratchet_public: [u8; 32],
    remote_ratchet_public: [u8; 32],
    sending_chain: Option<ChainState>,
    receiving_chain: Option<ChainState>,
    previous_chain_length: u32,
    skipped_message_keys: SkippedKeys,
}

spec fn chain_of(c: Option<ChainState>) -> Option<ChainView> {
    match c {
        Some(s) => Some(ChainView { key: s.key@, next: s.next_message_number }),
        None => None,
    }
}

impl View for DoubleRatchet {
    type V = RatchetView;

    closed spec fn view(&self) -> RatchetView {
        RatchetView {
            role: self.role,
            root_key: self.root_key@,
            local_secret: self.local_ratchet_secret@,
            local_public: self.local_ratchet_public@,
            remote_public: self.remote_ratchet_public@,
            sending: chain_of(self.sending_chain),
            receiving: chain_of(self.receiving_chain),
            previous_chain_length: self.previous_chain_length,
            skipped: self.skipped_message_keys.map(),
        }
    }
}

fn advance(chain: &mut ChainState) -> (r: Result<MessageKeyMaterial, CryptoError>)
    ensures
        final(chain).key@ == next_chain_key(old(chain).key@),
        old(chain).next_message_number < u32::MAX ==> final(chain).next_message_number
            == old(chain).next_message_number + 1 && (r matches Ok(mk) && mk@ == step_message_key(
            old(chain).key@,
        )),
        old(chain).next_message_number == u32::MAX ==> final(chain).next_message_number == u32::MAX
            && r == Err::<MessageKeyMaterial, CryptoError>(CryptoError::InvalidKeyMaterial("chain counter")),
{
    let (next_key, message_key) = chain_kdf(&chain.key);
    chain.key = next_key;
    if chain.next_message_number == u32::MAX {
        return Err(CryptoError::InvalidKeyMaterial("chain counter"));
    }
    chain.next_message_number = chain.next_message_number + 1;
    Ok(message_key)
}

/// The associated data of a message.
fn build_associated_data(header: &MessageHeader, associated_data: &[u8]) -> (r: Vec<u8>)
    ensures
        r@ == message_aad_spec(header@, associated_data@),
{
    let mut aad = ratchet_aad_prefix();
    extend_bytes(&mut aad, associated_data);
    extend_bytes(&mut aad, &header.ratchet_public);
    extend_bytes(&mut aad, &u32_le(header.previous_chain_length));
    extend_bytes(&mut aad, &u32_le(header.message_number));
    aad
}

fn open_with(mk: &MessageKeyMaterial, ciphertext: &[u8], aad: &[u8]) -> (r: Result<Vec<u8>, CryptoError>)
    ensures
        match r {
            Ok(p) => open_spec(mk@, ciphertext@, aad@) == Ok::<Seq<u8>, CryptoError>(p@),
            Err(e) => open_spec(mk@, ciphertext@, aad@) == Err::<Seq<u8>, CryptoError>(e),
        },
{
    match aes256gcm_decrypt(&mk.cipher_key, &mk.nonce, ciphertext, aad) {
        Some(p) => Ok(p),
        None => Err(CryptoError::DecryptionFailed),
    }
}

impl DoubleRatchet {
    pub closed spec fn wf(&self) -> bool {
        self.skipped_message_keys.wf()
    }

    pub fn from_seed(seed: SessionSeed) -> (r: DoubleRatchet)
        ensures
            r.wf(),
            r@.role == seed.role,
            r@.root_key == seed.root_key@,
            r@.local_secret == seed.local_ratchet_secret@,
            r@.local_public == seed.local_ratchet_public@,
            r@.remote_public == seed.remote_ratchet_public@,
            r@.sending == match seed.sending_chain_key {
                Some(k) => Some(ChainView { key: k@, next: 0 }),
                None => None::<ChainView>,
            },
            r@.receiving == match seed.receiving_chain_key {
                Some(k) => Some(ChainView { key: k@, next: 0 }),
                None => None::<ChainView>,
            },
            r@.previous_chain_length == 0,
            r@.skipped == Map::<SkipId, MessageKeyView>::empty(),
    {
        let sending_chain = match seed.sending_chain_key {
            Some(k) => Some(ChainState { key: k, next_message_number: 0 }),
            None => None,
        };
        let receiving_chain = match seed.receiving_chain_key {
            Some(k) => Some(ChainState { key: k, next_message_number: 0 }),
            None => None,
        };
        DoubleRatchet {
            role: seed.role,
            root_key: seed.root_key,
            local_ratchet_secret: seed.local_ratchet_secret,
            local_ratchet_public: seed.local_ratchet_public,
            remote_ratchet_public: seed.remote_ratchet_public,
            sending_chain,
            receiving_chain,
            previous_chain_length: 0,
            skipped_message_keys: SkippedKeys::new(),
        }
    }

    pub fn role(&self) -> (r: SessionRole)
        ensures
            r == self@.role,
    {
        self.role
    }

    /// The public keys, the chains' next message numbers and the number of kept keys.
    pub fn state_snapshot(&self) -> (r: RatchetStateSnapshot)
        requires
            self.wf(),
        ensures
            r@.role == self@.role,
            r@.local_ratchet_public@ == self@.local_public,
            r@.remote_ratchet_public@ == self@.remote_public,
            r@.sending_chain_next_message_number == match self@.sending {
                Some(c) => Some(c.next),
                None => None::<u32>,
            },
            r@.receiving_chain_next_message_number == match self@.receiving {
                Some(c) => Some(c.next),
                None => None::<u32>,
            },
            r@.skipped_message_key_count == self@.skipped.len(),
    {
        RatchetStateSnapshot {
            role: self.role,
            local_ratchet_public: self.local_ratchet_public,
            remote_ratchet_public: self.remote_ratchet_public,
            sending_chain_next_message_number: match self.sending_chain {
                Some(c) => Some(c.next_message_number),
                None => None,
            },
            receiving_chain_next_message_number: match self.receiving_chain {
                Some(c) => Some(c.next_message_number),
                None => None,
            },
            skipped_message_key_count: self.skipped_message_keys.len(),
        }
    }

    fn skip_message_keys(&mut self, until: u32) -> (r: Result<(), CryptoError>)
        requires
            old(self).wf(),
        ensures
            final(self).wf(),
            match skip_spec(old(self)@, until) {
                Ok(v) => r is Ok && final(self)@ == v,
                Err(e) => r == Err::<(), CryptoError>(e) && final(self)@ == old(self)@,
            },
    {
        let mut chain = match self.receiving_chain {
            None => return Ok(()),
            Some(c) => c,
        };
        let current = chain.next_message_number;
        if until < current {
            return Ok(());
        }
        if until - current > MAX_SKIP {
            return Err(CryptoError::MessageNumberTooFarAhead { current, requested: until, max_skip: MAX_SKIP });
        }
        let ghost v = self@;
        while chain.next_message_number < until
            invariant
                self.wf(),
                chain.next_message_number <= until,
                skip_chain_spec(chain.key@, chain.next_message_number, until, self@.remote_public, self@.skipped)
                    == skip_chain_spec(v.receiving->0.key, v.receiving->0.next, until, v.remote_public, v.skipped),
                self@.remote_public == v.remote_public,
                self@ == (RatchetView { skipped: self@.skipped, ..v }),
            decreases until - chain.next_message_number,
        {
            let number = chain.next_message_number;
            let ghost old_key = chain.key@;
            let message_key = match advance(&mut chain) {
                Ok(mk) => mk,
                Err(e) => return Err(e),
            };
            self.skipped_message_keys.insert(self.remote_ratchet_public, number, message_key);
        }
        self.receiving_chain = Some(chain);
        Ok(())
    }

    fn apply_remote_ratchet(&mut self, remote_ratchet_public: [u8; 32], fresh: [u8; 32])
        requires
            old(self).wf(),
        ensures
            final(self).wf(),
            final(self)@ == ratchet_step_spec(old(self)@, remote_ratchet_public@, fresh@),
    {
        let current_sending_length = match self.sending_chain {
            Some(c) => c.next_message_number,
            None => 0,
        };
        self.previous_chain_length = current_sending_length;
        let receive_dh = x25519_diffie_hellman(&self.local_ratchet_secret, &remote_ratchet_public);
        let (next_root, receiving_chain_key) = root_kdf(&self.root_key, &receive_dh);
        self.root_key = next_root;
        self.remote_ratchet_public = remote_ratchet_public;
        self.receiving_chain = Some(ChainState { key: receiving_chain_key, next_message_number: 0 });
        let new_public = x25519_public_key(&fresh);
        let send_dh = x25519_diffie_hellman(&fresh, &self.remote_ratchet_public);
        let (next_root, sending_chain_key) = root_kdf(&self.root_key, &send_dh);
        self.root_key = next_root;
        self.local_ratchet_secret = fresh;
        self.local_ratchet_public = new_public;
        self.sending_chain = Some(ChainState { key: sending_chain_key, next_message_number: 0 });
    }

    fn ensure_sending_chain(&mut self, fresh: [u8; 32])
        requires
            old(self).wf(),
        ensures
            final(self).wf(),
            final(self)@ == with_sending_chain_spec(old(self)@, fresh@),
    {
        if self.sending_chain.is_some() {
            return;
        }
        let new_public = x25519_public_key(&fresh);
        let dh_output = x25519_diffie_hellman(&fresh, &self.remote_ratchet_public);
        let (next_root, sending_chain_key) = root_kdf(&self.root_key, &dh_output);
        self.root_key = next_root;
        self.local_ratchet_secret = fresh;
        self.local_ratchet_public = new_public;
        self.sending_chain = Some(ChainState { key: sending_chain_key, next_message_number: 0 });
        self.previous_chain_length = 0;
    }

    /// Encrypts with `fresh` as the new local ratchet secret should the
    /// session have no sending chain yet.
    pub fn encrypt_with(&mut self, plaintext: &[u8], associated_data: &[u8], fresh: [u8; 32]) -> (r: Result<
        EncryptedMessage,
        CryptoError,
    >)
        requires
            old(self).wf(),
        ensures
            final(self).wf(),
            final(self)@ == encrypt_spec(old(self)@, plaintext@, associated_data@, fresh@).0,
            match encrypt_spec(old(self)@, plaintext@, associated_data@, fresh@).1 {
                Ok((h, c)) => r matches Ok(m) && m.version == MESSAGE_VERSION && m.header@ == h
                    && m.ciphertext@ == c,
                Err(e) => r == Err::<EncryptedMessage, CryptoError>(e),
            },
            r matches Ok(m) ==> forall|receiver: RatchetView, other: Seq<u8>|
                #![trigger decrypt_spec(receiver, m.version, m.header@, m.ciphertext@, associated_data@, other)]
                in_sync_spec(receiver, with_sending_chain_spec(old(self)@, fresh@)) ==> decrypt_spec(
                    receiver,
                    m.version,
                    m.header@,
                    m.ciphertext@,
                    associated_data@,
                    other,
                ).1 == Ok::<Seq<u8>, CryptoError>(plaintext@),
    {
        self.ensure_sending_chain(fresh);
        let mut chain = match self.sending_chain {
            Some(c) => c,
            None => return Err(CryptoError::MissingSendingChain),
        };
        let message_number = chain.next_message_number;
        let advanced = advance(&mut chain);
        self.sending_chain = Some(chain);
        let message_key = match advanced {
            Ok(mk) => mk,
            Err(e) => return Err(e),
        };
        let header = MessageHeader {
            ratchet_public: self.local_ratchet_public,
            previous_chain_length: self.previous_chain_length,
            message_number,
        };
        let aad = build_associated_data(&header, associated_data);
        match aes256gcm_encrypt(&message_key.cipher_key, &message_key.nonce, plaintext, aad.as_slice()) {
            None => Err(CryptoError::EncryptionFailed),
            Some(ciphertext) => {
                proof {
                    let sender = with_sending_chain_spec(old(self)@, fresh@);
                    assert forall|receiver: RatchetView, other: Seq<u8>|
                        #![trigger decrypt_spec(receiver, MESSAGE_VERSION, header@, ciphertext@, associated_data@, other)]
                        in_sync_spec(receiver, sender) implies decrypt_spec(
                            receiver,
                            MESSAGE_VERSION,
                            header@,
                            ciphertext@,
                            associated_data@,
                            other,
                        ).1 == Ok::<Seq<u8>, CryptoError>(plaintext@) by {
                        let c = receiver.receiving->0;
                        assert(skip_chain_spec(c.key, c.next, c.next, receiver.remote_public, receiver.skipped)
                            == (c.key, receiver.skipped));
                        assert(skip_spec(receiver, header.message_number) == Ok::<RatchetView, CryptoError>(
                            RatchetView { receiving: Some(ChainView { key: c.key, next: c.next }), ..receiver },
                        ));
                    }
                }
                Ok(EncryptedMessage { version: MESSAGE_VERSION, header, ciphertext })
            },
        }
    }

    /// Encrypts a message, drawing a fresh ratchet secret should the session
    /// have no sending chain yet.
    pub fn encrypt(&mut self, plaintext: &[u8], associated_data: &[u8]) -> (r: Result<EncryptedMessage, CryptoError>)
        requires
            old(self).wf(),
        ensures
            final(self).wf(),
            exists|fresh: Seq<u8>| #![trigger encrypt_spec(old(self)@, plaintext@, associated_data@, fresh)] {
                &&& fresh.len() == 32
                &&& final(self)@ == encrypt_spec(old(self)@, plaintext@, associated_data@, fresh).0
                &&& match encrypt_spec(old(self)@, plaintext@, associated_data@, fresh).1 {
                    Ok((h, c)) => r matches Ok(m) && m.version == MESSAGE_VERSION && m.header@ == h
                        && m.ciphertext@ == c,
                    Err(e) => r == Err::<EncryptedMessage, CryptoError>(e),
                }
                &&& r matches Ok(m) ==> forall|receiver: RatchetView, other: Seq<u8>|
                    #![trigger decrypt_spec(receiver, m.version, m.header@, m.ciphertext@, associated_data@, other)]
                    in_sync_spec(receiver, with_sending_chain_spec(old(self)@, fresh)) ==> decrypt_spec(
                        receiver,
                        m.version,
                        m.header@,
                        m.ciphertext@,
                        associated_data@,
                        other,
                    ).1 == Ok::<Seq<u8>, CryptoError>(plaintext@)
            },
    {
        let fresh = random_bytes_32();
        self.encrypt_with(plaintext, associated_data, fresh)
    }

    /// Decrypts with `fresh` as the new local ratchet secret should the
    /// message start a new DH ratchet step.
    #[verifier::rlimit(40)]
    pub fn decrypt_with(&mut self, message: &EncryptedMessage, associated_data: &[u8], fresh: [u8; 32]) -> (r: Result<
        Vec<u8>,
        CryptoError,
    >)
        requires
            old(self).wf(),
        ensures
            final(self).wf(),
            final(self)@ == decrypt_spec(
                old(self)@,
                message.version,
                message.header@,
                message.ciphertext@,
                associated_data@,
                fresh@,
            ).0,
            match decrypt_spec(
                old(self)@,
                message.version,
                message.header@,
                message.ciphertext@,
                associated_data@,
                fresh@,
            ).1 {
                Ok(p) => r matches Ok(q) && q@ == p,
                Err(e) => r == Err::<Vec<u8>, CryptoError>(e),
            },
    {
        if message.version != MESSAGE_VERSION {
            return Err(CryptoError::InvalidHeaderVersion(message.version));
        }
        let aad = build_associated_data(&message.header, associated_data);
        let ghost v0 = self@;
        match self.skipped_message_keys.take(&message.header.ratchet_public, message.header.message_number) {
            Some(mk) => {
                return open_with(&mk, message.ciphertext.as_slice(), aad.as_slice());
            },
            None => {},
        }
        proof {
            assert(self.skipped_message_keys.map() =~= v0.skipped);
            assert(self@ == v0);
        }
        if !bytes_eq(&message.header.ratchet_public, &self.remote_ratchet_public) {
            match self.skip_message_keys(message.header.previous_chain_length) {
                Err(e) => return Err(e),
                Ok(()) => {},
            }
            self.apply_remote_ratchet(message.header.ratchet_public, fresh);
        }
        match self.skip_message_keys(message.header.message_number) {
            Err(e) => return Err(e),
            Ok(()) => {},
        }
        let mut chain = match self.receiving_chain {
            None => return Err(CryptoError::MissingReceivingChain),
            Some(c) => c,
        };
        if message.header.message_number < chain.next_message_number {
            return Err(CryptoError::ReplayOrDuplicateMessage(message.header.message_number));
        }
        let advanced = advance(&mut chain);
        self.receiving_chain = Some(chain);
        let message_key = match advanced {
            Ok(mk) => mk,
            Err(e) => return Err(e),
        };
        open_with(&message_key, message.ciphertext.as_slice(), aad.as_slice())
    }

    /// Decrypts a message, drawing a fresh ratchet secret should it start a
    /// new DH ratchet step.
    pub fn decrypt(&mut self, message: &EncryptedMessage, associated_data: &[u8]) -> (r: Result<Vec<u8>, CryptoError>)
        requires
            old(self).wf(),
        ensures
            final(self).wf(),
            exists|fresh: Seq<u8>|
                #![trigger decrypt_spec(old(self)@, message.version, message.header@, message.ciphertext@, associated_data@, fresh)]
                {
                    &&& fresh.len() == 32
                    &&& final(self)@ == decrypt_spec(
                        old(self)@,
                        message.version,
                        message.header@,
                        message.ciphertext@,
                        associated_data@,
                        fresh,
                    ).0
                    &&& match decrypt_spec(
                        old(self)@,
                        message.version,
                        message.header@,
                        message.ciphertext@,
                        associated_data@,
                        fresh,
                    ).1 {
                        Ok(p) => r matches Ok(q) && q@ == p,
                        Err(e) => r == Err::<Vec<u8>, CryptoError>(e),
                    }
                },
    {
        let fresh = random_bytes_32();
        self.decrypt_with(message, associated_data, fresh)
    }
}

/// The keys a skip adds are those of the remote key for the numbers passed over.
proof fn lemma_skip_chain_keys(
    key: Seq<u8>,
    next: u32,
    until: u32,
    remote: Seq<u8>,
    m: Map<SkipId, MessageKeyView>,
    id: SkipId,
)
    ensures
        skip_chain_spec(key, next, until, remote, m).1.contains_key(id) ==> m.contains_key(id) || (
        id.0 == remote && next <= id.1 < until),
    decreases until - next,
{
    if next < until {
        lemma_skip_chain_keys(
            next_chain_key(key),
            (next + 1) as u32,
            until,
            remote,
            m.insert((remote, next), step_message_key(key)),
            id,
        );
    }
}

/// A message decrypted without a kept key cannot be decrypted again: the
/// second attempt is refused as a replay.
pub proof fn lemma_replay_rejected(
    v: RatchetView,
    version: u8,
    header: HeaderView,
    ciphertext: Seq<u8>,
    associated_data: Seq<u8>,
    fresh: Seq<u8>,
    other: Seq<u8>,
)
    requires
        !v.skipped.contains_key((header.ratchet_public, header.message_number)),
        decrypt_spec(v, version, header, ciphertext, associated_data, fresh).1 is Ok,
    ensures
        decrypt_spec(
            decrypt_spec(v, version, header, ciphertext, associated_data, fresh).0,
            version,
            header,
            ciphertext,
            associated_data,
            other,
        ).1 == Err::<Seq<u8>, CryptoError>(CryptoError::ReplayOrDuplicateMessage(header.message_number)),
{
    let id = (header.ratchet_public, header.message_number);
    let v2 = if header.ratchet_public != v.remote_public {
        ratchet_step_spec(skip_spec(v, header.previous_chain_length)->Ok_0, header.ratchet_public, fresh)
    } else {
        v
    };
    if header.ratchet_public != v.remote_public {
        let v1 = skip_spec(v, header.previous_chain_length)->Ok_0;
        if let Some(c) = v.receiving {
            if !(header.previous_chain_length < c.next) {
                lemma_skip_chain_keys(c.key, c.next, header.previous_chain_length, v.remote_public, v.skipped, id);
            }
        }
        assert(!v1.skipped.contains_key(id));
        assert(!v2.skipped.contains_key(id));
    }
    let c2 = v2.receiving->0;
    if !(header.message_number < c2.next) {
        lemma_skip_chain_keys(c2.key, c2.next, header.message_number, v2.remote_public, v2.skipped, id);
    }
    let v3 = skip_spec(v2, header.message_number)->Ok_0;
    assert(!v3.skipped.contains_key(id));
    assert(v3.remote_public == header.ratchet_public);
}

} // verus!
