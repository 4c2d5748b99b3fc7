//! Key derivation: the X3DH root key and the Double Ratchet's root and chain steps.

use vstd::prelude::*;
use crate::bytes::{array12_at, array32_at};
use crate::contexts::{chain_step_input, chain_step_input_spec, ratchet_chain_info, ratchet_chain_info_spec, ratchet_root_info, ratchet_root_info_spec, x3dh_root_info, x3dh_root_info_spec};
use crate::outside::{hkdf_expand, hkdf_sha256};

verus! {

/// A message key: an AES-256-GCM key and nonce.
pub struct MessageKeyMaterial {
    pub cipher_key: [u8; 32],
    pub nonce: [u8; 12],
}

pub struct MessageKeyView {
    pub cipher_key: Seq<u8>,
    pub nonce: Seq<u8>,
}

impl View for MessageKeyMaterial {
    type V = MessageKeyView;

    open spec fn view(&self) -> MessageKeyView {
        MessageKeyView { cipher_key: self.cipher_key@, nonce: self.nonce@ }
    }
}

impl MessageKeyMaterial {
    pub fn duplicate(&self) -> (r: MessageKeyMaterial)
        ensures
            r@ == self@,
    {
        MessageKeyMaterial { cipher_key: self.cipher_key, nonce: self.nonce }
    }
}

/// The initial root key of an X3DH exchange.
pub open spec fn initial_root_spec(material: Seq<u8>) -> Seq<u8> {
    hkdf_sha256(None, material, x3dh_root_info_spec(), 32)
}

pub fn derive_initial_root_key(material: &[u8]) -> (r: [u8; 32])
    ensures
        r@ == initial_root_spec(material@),
{
    let info = x3dh_root_info();
    let out = hkdf_expand(None, material, &info, 32);
    let r = array32_at(&out, 0);
    assert(out@.subrange(0, 32) =~= out@);
    r
}

/// The root step: 64 bytes of HKDF salted with the root key over a DH output.
pub open spec fn root_step_spec(root_key: Seq<u8>, dh_output: Seq<u8>) -> Seq<u8> {
    hkdf_sha256(Some(root_key), dh_output, ratchet_root_info_spec(), 64)
}

/// The next root key and a fresh chain key.
pub fn root_kdf(root_key: &[u8; 32], dh_output: &[u8; 32]) -> (r: ([u8; 32], [u8; 32]))
    ensures
        r.0@ == root_step_spec(root_key@, dh_output@).subrange(0, 32),
        r.1@ == root_step_spec(root_key@, dh_output@).subrange(32, 64),
{
    let info = ratchet_root_info();
    let out = hkdf_expand(Some(root_key.as_slice()), dh_output, &info, 64);
    (array32_at(&out, 0), array32_at(&out, 32))
}

/// The chain step: 76 bytes of HKDF salted with the chain key.
pub open spec fn chain_step_spec(chain_key: Seq<u8>) -> Seq<u8> {
    hkdf_sha256(Some(chain_key), chain_step_input_spec(), ratchet_chain_info_spec(), 76)
}

/// The next chain key and the message key of the current step.
pub fn chain_kdf(chain_key: &[u8; 32]) -> (r: ([u8; 32], MessageKeyMaterial))
    ensures
        r.0@ == chain_step_spec(chain_key@).subrange(0, 32),
        r.1.cipher_key@ == chain_step_spec(chain_key@).subrange(32, 64),
        r.1.nonce@ == chain_step_spec(chain_key@).subrange(64, 76),
{
    let info = ratchet_chain_info();
    let step = chain_step_input();
    let out = hkdf_expand(Some(chain_key.as_slice()), &step, &info, 76);
    (array32_at(&out, 0), MessageKeyMaterial { cipher_key: array32_at(&out, 32), nonce: array12_at(&out, 64) })
}

} // verus!
