//! Domain-separation strings of the protocol, as byte sequences.

use vstd::prelude::*;
use crate::bytes::extend_bytes;

verus! {

/// The bytes of `"localmessenger/signed-prekey/v1"`.
pub open spec fn signed_prekey_context_spec() -> Seq<u8> {
    seq![108u8, 111u8, 99u8, 97u8, 108u8, 109u8, 101u8, 115u8, 115u8, 101u8, 110u8, 103u8, 101u8, 114u8, 47u8, 115u8, 105u8, 103u8, 110u8, 101u8, 100u8, 45u8, 112u8, 114u8, 101u8, 107u8, 101u8, 121u8, 47u8, 118u8, 49u8]
}

pub fn signed_prekey_context() -> (r: Vec<u8>)
    ensures
        r@ == signed_prekey_context_spec(),
{
    let a: [u8; 31] = [108u8, 111u8, 99u8, 97u8, 108u8, 109u8, 101u8, 115u8, 115u8, 101u8, 110u8, 103u8, 101u8, 114u8, 47u8, 115u8, 105u8, 103u8, 110u8, 101u8, 100u8, 45u8, 112u8, 114u8, 101u8, 107u8, 101u8, 121u8, 47u8, 118u8, 49u8];
    let mut v: Vec<u8> = Vec::new();
    extend_bytes(&mut v, &a);
    assert(a@ =~= signed_prekey_context_spec());
    assert(v@ =~= signed_prekey_context_spec());
    v
}

/// The bytes of `"localmessenger/x3dh/root"`.
pub open spec fn x3dh_root_info_spec() -> Seq<u8> {
    seq![108u8, 111u8, 99u8, 97u8, 108u8, 109u8, 101u8, 115u8, 115u8, 101u8, 110u8, 103u8, 101u8, 114u8, 47u8, 120u8, 51u8, 100u8, 104u8, 47u8, 114u8, 111u8, 111u8, 116u8]
}

pub fn x3dh_root_info() -> (r: Vec<u8>)
    ensures
        r@ == x3dh_root_info_spec(),
{
    let a: [u8; 24] = [108u8, 111u8, 99u8, 97u8, 108u8, 109u8, 101u8, 115u8, 115u8, 101u8, 110u8, 103u8, 101u8, 114u8, 47u8, 120u8, 51u8, 100u8, 104u8, 47u8, 114u8, 111u8, 111u8, 116u8];
    let mut v: Vec<u8> = Vec::new();
    extend_bytes(&mut v, &a);
    assert(a@ =~= x3dh_root_info_spec());
    assert(v@ =~= x3dh_root_info_spec());
    v
}

/// The bytes of `"localmessenger/double-ratchet/root"`.
pub open spec fn ratchet_root_info_spec() -> Seq<u8> {
    seq![108u8, 111u8, 99u8, 97u8, 108u8, 109u8, 101u8, 115u8, 115u8, 101u8, 110u8, 103u8, 101u8, 114u8, 47u8, 100u8, 111u8, 117u8, 98u8, 108u8, 101u8, 45u8, 114u8, 97u8, 116u8, 99u8, 104u8, 101u8, 116u8, 47u8, 114u8, 111u8, 111u8, 116u8]
}

pub fn ratchet_root_info() -> (r: Vec<u8>)
    ensures
        r@ == ratchet_root_info_spec(),
{
    let a: [u8; 34] = [108u8, 111u8, 99u8, 97u8, 108u8, 109u8, 101u8, 115u8, 115u8, 101u8, 110u8, 103u8, 101u8, 114u8, 47u8, 100u8, 111u8, 117u8, 98u8, 108u8, 101u8, 45u8, 114u8, 97u8, 116u8, 99u8, 104u8, 101u8, 116u8, 47u8, 114u8, 111u8, 111u8, 116u8];
    let mut v: Vec<u8> = Vec::new();
    extend_bytes(&mut v, &a);
    assert(a@ =~= ratchet_root_info_spec());
    assert(v@ =~= ratchet_root_info_spec());
    v
}

/// The bytes of `"localmessenger/double-ratchet/chain"`.
pub open spec fn ratchet_chain_info_spec() -> Seq<u8> {
    seq![108u8, 111u8, 99u8, 97u8, 108u8, 109u8, 101u8, 115u8, 115u8, 101u8, 110u8, 103u8, 101u8, 114u8, 47u8, 100u8, 111u8, 117u8, 98u8, 108u8, 101u8, 45u8, 114u8, 97u8, 116u8, 99u8, 104u8, 101u8, 116u8, 47u8, 99u8, 104u8, 97u8, 105u8, 110u8]
}

pub fn ratchet_chain_info() -> (r: Vec<u8>)
    ensures
        r@ == ratchet_chain_info_spec(),
{
    let a: [u8; 35] = [108u8, 111u8, 99u8, 97u8, 108u8, 109u8, 101u8, 115u8, 115u8, 101u8, 110u8, 103u8, 101u8, 114u8, 47u8, 100u8, 111u8, 117u8, 98u8, 108u8, 101u8, 45u8, 114u8, 97u8, 116u8, 99u8, 104u8, 101u8, 116u8, 47u8, 99u8, 104u8, 97u8, 105u8, 110u8];
    let mut v: Vec<u8> = Vec::new();
    extend_bytes(&mut v, &a);
    assert(a@ =~= ratchet_chain_info_spec());
    assert(v@ =~= ratchet_chain_info_spec());
    v
}

/// The bytes of `"step"`.
pub open spec fn chain_step_input_spec() -> Seq<u8> {
    seq![115u8, 116u8, 101u8, 112u8]
}

pub fn chain_step_input() -> (r: Vec<u8>)
    ensures
        r@ == chain_step_input_spec(),
{
    let a: [u8; 4] = [115u8, 116u8, 101u8, 112u8];
    let mut v: Vec<u8> = Vec::new();
    extend_bytes(&mut v, &a);
    assert(a@ =~= chain_step_input_spec());
    assert(v@ =~= chain_step_input_spec());
    v
}

/// The bytes of `"localmessenger/double-ratchet/v1"`.
pub open spec fn ratchet_aad_prefix_spec() -> Seq<u8> {
    seq![108u8, 111u8, 99u8, 97u8, 108u8, 109u8, 101u8, 115u8, 115u8, 101u8, 110u8, 103u8, 101u8, 114u8, 47u8, 100u8, 111u8, 117u8, 98u8, 108u8, 101u8, 45u8, 114u8, 97u8, 116u8, 99u8, 104u8, 101u8, 116u8, 47u8, 118u8, 49u8]
}

pub fn ratchet_aad_prefix() -> (r: Vec<u8>)
    ensures
        r@ == ratchet_aad_prefix_spec(),
{
    let a: [u8; 32] = [108u8, 111u8, 99u8, 97u8, 108u8, 109u8, 101u8, 115u8, 115u8, 101u8, 110u8, 103u8, 101u8, 114u8, 47u8, 100u8, 111u8, 117u8, 98u8, 108u8, 101u8, 45u8, 114u8, 97u8, 116u8, 99u8, 104u8, 101u8, 116u8, 47u8, 118u8, 49u8];
    let mut v: Vec<u8> = Vec::new();
    extend_bytes(&mut v, &a);
    assert(a@ =~= ratchet_aad_prefix_spec());
    assert(v@ =~= ratchet_aad_prefix_spec());
    v
}

/// The bytes of `"localmessenger/group-sender/chain"`.
pub open spec fn group_chain_info_spec() -> Seq<u8> {
    seq![108u8, 111u8, 99u8, 97u8, 108u8, 109u8, 101u8, 115u8, 115u8, 101u8, 110u8, 103u8, 101u8, 114u8, 47u8, 103u8, 114u8, 111u8, 117u8, 112u8, 45u8, 115u8, 101u8, 110u8, 100u8, 101u8, 114u8, 47u8, 99u8, 104u8, 97u8, 105u8, 110u8]
}

pub fn group_chain_info() -> (r: Vec<u8>)
    ensures
        r@ == group_chain_info_spec(),
{
    let a: [u8; 33] = [108u8, 111u8, 99u8, 97u8, 108u8, 109u8, 101u8, 115u8, 115u8, 101u8, 110u8, 103u8, 101u8, 114u8, 47u8, 103u8, 114u8, 111u8, 117u8, 112u8, 45u8, 115u8, 101u8, 110u8, 100u8, 101u8, 114u8, 47u8, 99u8, 104u8, 97u8, 105u8, 110u8];
    let mut v: Vec<u8> = Vec::new();
    extend_bytes(&mut v, &a);
    assert(a@ =~= group_chain_info_spec());
    assert(v@ =~= group_chain_info_spec());
    v
}

/// The bytes of `"localmessenger/group-message/aad/v1"`.
pub open spec fn group_aad_prefix_spec() -> Seq<u8> {
    seq![108u8, 111u8, 99u8, 97u8, 108u8, 109u8, 101u8, 115u8, 115u8, 101u8, 110u8, 103u8, 101u8, 114u8, 47u8, 103u8, 114u8, 111u8, 117u8, 112u8, 45u8, 109u8, 101u8, 115u8, 115u8, 97u8, 103u8, 101u8, 47u8, 97u8, 97u8, 100u8, 47u8, 118u8, 49u8]
}

pub fn group_aad_prefix() -> (r: Vec<u8>)
    ensures
        r@ == group_aad_prefix_spec(),
{
    let a: [u8; 35] = [108u8, 111u8, 99u8, 97u8, 108u8, 109u8, 101u8, 115u8, 115u8, 101u8, 110u8, 103u8, 101u8, 114u8, 47u8, 103u8, 114u8, 111u8, 117u8, 112u8, 45u8, 109u8, 101u8, 115u8, 115u8, 97u8, 103u8, 101u8, 47u8, 97u8, 97u8, 100u8, 47u8, 118u8, 49u8];
    let mut v: Vec<u8> = Vec::new();
    extend_bytes(&mut v, &a);
    assert(a@ =~= group_aad_prefix_spec());
    assert(v@ =~= group_aad_prefix_spec());
    v
}

/// The bytes of `"localmessenger/group-message/signature/v1"`.
pub open spec fn group_signature_prefix_spec() -> Seq<u8> {
    seq![108u8, 111u8, 99u8, 97u8, 108u8, 109u8, 101u8, 115u8, 115u8, 101u8, 110u8, 103u8, 101u8, 114u8, 47u8, 103u8, 114u8, 111u8, 117u8, 112u8, 45u8, 109u8, 101u8, 115u8, 115u8, 97u8, 103u8, 101u8, 47u8, 115u8, 105u8, 103u8, 110u8, 97u8, 116u8, 117u8, 114u8, 101u8, 47u8, 118u8, 49u8]
}

pub fn group_signature_prefix() -> (r: Vec<u8>)
    ensures
        r@ == group_signature_prefix_spec(),
{
    let a: [u8; 41] = [108u8, 111u8, 99u8, 97u8, 108u8, 109u8, 101u8, 115u8, 115u8, 101u8, 110u8, 103u8, 101u8, 114u8, 47u8, 103u8, 114u8, 111u8, 117u8, 112u8, 45u8, 109u8, 101u8, 115u8, 115u8, 97u8, 103u8, 101u8, 47u8, 115u8, 105u8, 103u8, 110u8, 97u8, 116u8, 117u8, 114u8, 101u8, 47u8, 118u8, 49u8];
    let mut v: Vec<u8> = Vec::new();
    extend_bytes(&mut v, &a);
    assert(a@ =~= group_signature_prefix_spec());
    assert(v@ =~= group_signature_prefix_spec());
    v
}

/// The bytes of `"localmessenger/safety-number/v1"`.
pub open spec fn safety_number_context_spec() -> Seq<u8> {
    seq![108u8, 111u8, 99u8, 97u8, 108u8, 109u8, 101u8, 115u8, 115u8, 101u8, 110u8, 103u8, 101u8, 114u8, 47u8, 115u8, 97u8, 102u8, 101u8, 116u8, 121u8, 45u8, 110u8, 117u8, 109u8, 98u8, 101u8, 114u8, 47u8, 118u8, 49u8]
}

pub fn safety_number_context() -> (r: Vec<u8>)
    ensures
        r@ == safety_number_context_spec(),
{
    let a: [u8; 31] = [108u8, 111u8, 99u8, 97u8, 108u8, 109u8, 101u8, 115u8, 115u8, 101u8, 110u8, 103u8, 101u8, 114u8, 47u8, 115u8, 97u8, 102u8, 101u8, 116u8, 121u8, 45u8, 110u8, 117u8, 109u8, 98u8, 101u8, 114u8, 47u8, 118u8, 49u8];
    let mut v: Vec<u8> = Vec::new();
    extend_bytes(&mut v, &a);
    assert(a@ =~= safety_number_context_spec());
    assert(v@ =~= safety_number_context_spec());
    v
}

/// The bytes of `"localmessenger/storage/aad/v1"`.
pub open spec fn storage_aad_prefix_spec() -> Seq<u8> {
    seq![108u8, 111u8, 99u8, 97u8, 108u8, 109u8, 101u8, 115u8, 115u8, 101u8, 110u8, 103u8, 101u8, 114u8, 47u8, 115u8, 116u8, 111u8, 114u8, 97u8, 103u8, 101u8, 47u8, 97u8, 97u8, 100u8, 47u8, 118u8, 49u8]
}

pub fn storage_aad_prefix() -> (r: Vec<u8>)
    ensures
        r@ == storage_aad_prefix_spec(),
{
    let a: [u8; 29] = [108u8, 111u8, 99u8, 97u8, 108u8, 109u8, 101u8, 115u8, 115u8, 101u8, 110u8, 103u8, 101u8, 114u8, 47u8, 115u8, 116u8, 111u8, 114u8, 97u8, 103u8, 101u8, 47u8, 97u8, 97u8, 100u8, 47u8, 118u8, 49u8];
    let mut v: Vec<u8> = Vec::new();
    extend_bytes(&mut v, &a);
    assert(a@ =~= storage_aad_prefix_spec());
    assert(v@ =~= storage_aad_prefix_spec());
    v
}

/// The bytes of `"localmessenger/storage/index/v1"`.
pub open spec fn storage_index_prefix_spec() -> Seq<u8> {
    seq![108u8, 111u8, 99u8, 97u8, 108u8, 109u8, 101u8, 115u8, 115u8, 101u8, 110u8, 103u8, 101u8, 114u8, 47u8, 115u8, 116u8, 111u8, 114u8, 97u8, 103u8, 101u8, 47u8, 105u8, 110u8, 100u8, 101u8, 120u8, 47u8, 118u8, 49u8]
}

pub fn storage_index_prefix() -> (r: Vec<u8>)
    ensures
        r@ == storage_index_prefix_spec(),
{
    let a: [u8; 31] = [108u8, 111u8, 99u8, 97u8, 108u8, 109u8, 101u8, 115u8, 115u8, 101u8, 110u8, 103u8, 101u8, 114u8, 47u8, 115u8, 116u8, 111u8, 114u8, 97u8, 103u8, 101u8, 47u8, 105u8, 110u8, 100u8, 101u8, 120u8, 47u8, 118u8, 49u8];
    let mut v: Vec<u8> = Vec::new();
    extend_bytes(&mut v, &a);
    assert(a@ =~= storage_index_prefix_spec());
    assert(v@ =~= storage_index_prefix_spec());
    v
}

/// The bytes of `"localmessenger/server-auth/v1"`.
pub open spec fn auth_context_spec() -> Seq<u8> {
    seq![108u8, 111u8, 99u8, 97u8, 108u8, 109u8, 101u8, 115u8, 115u8, 101u8, 110u8, 103u8, 101u8, 114u8, 47u8, 115u8, 101u8, 114u8, 118u8, 101u8, 114u8, 45u8, 97u8, 117u8, 116u8, 104u8, 47u8, 118u8, 49u8]
}

pub fn auth_context() -> (r: Vec<u8>)
    ensures
        r@ == auth_context_spec(),
{
    let a: [u8; 29] = [108u8, 111u8, 99u8, 97u8, 108u8, 109u8, 101u8, 115u8, 115u8, 101u8, 110u8, 103u8, 101u8, 114u8, 47u8, 115u8, 101u8, 114u8, 118u8, 101u8, 114u8, 45u8, 97u8, 117u8, 116u8, 104u8, 47u8, 118u8, 49u8];
    let mut v: Vec<u8> = Vec::new();
    extend_bytes(&mut v, &a);
    assert(a@ =~= auth_context_spec());
    assert(v@ =~= auth_context_spec());
    v
}

/// The bytes of `"localmessenger/contact-invite/v1"`.
pub open spec fn contact_invite_context_spec() -> Seq<u8> {
    seq![108u8, 111u8, 99u8, 97u8, 108u8, 109u8, 101u8, 115u8, 115u8, 101u8, 110u8, 103u8, 101u8, 114u8, 47u8, 99u8, 111u8, 110u8, 116u8, 97u8, 99u8, 116u8, 45u8, 105u8, 110u8, 118u8, 105u8, 116u8, 101u8, 47u8, 118u8, 49u8]
}

pub fn contact_invite_context() -> (r: Vec<u8>)
    ensures
        r@ == contact_invite_context_spec(),
{
    let a: [u8; 32] = [108u8, 111u8, 99u8, 97u8, 108u8, 109u8, 101u8, 115u8, 115u8, 101u8, 110u8, 103u8, 101u8, 114u8, 47u8, 99u8, 111u8, 110u8, 116u8, 97u8, 99u8, 116u8, 45u8, 105u8, 110u8, 118u8, 105u8, 116u8, 101u8, 47u8, 118u8, 49u8];
    let mut v: Vec<u8> = Vec::new();
    extend_bytes(&mut v, &a);
    assert(a@ =~= contact_invite_context_spec());
    assert(v@ =~= contact_invite_context_spec());
    v
}

/// The bytes of `"localmessenger/secure-session/v1"`.
pub open spec fn secure_session_context_spec() -> Seq<u8> {
    seq![108u8, 111u8, 99u8, 97u8, 108u8, 109u8, 101u8, 115u8, 115u8, 101u8, 110u8, 103u8, 101u8, 114u8, 47u8, 115u8, 101u8, 99u8, 117u8, 114u8, 101u8, 45u8, 115u8, 101u8, 115u8, 115u8, 105u8, 111u8, 110u8, 47u8, 118u8, 49u8]
}

pub fn secure_session_context() -> (r: Vec<u8>)
    ensures
        r@ == secure_session_context_spec(),
{
    let a: [u8; 32] = [108u8, 111u8, 99u8, 97u8, 108u8, 109u8, 101u8, 115u8, 115u8, 101u8, 110u8, 103u8, 101u8, 114u8, 47u8, 115u8, 101u8, 99u8, 117u8, 114u8, 101u8, 45u8, 115u8, 101u8, 115u8, 115u8, 105u8, 111u8, 110u8, 47u8, 118u8, 49u8];
    let mut v: Vec<u8> = Vec::new();
    extend_bytes(&mut v, &a);
    assert(a@ =~= secure_session_context_spec());
    assert(v@ =~= secure_session_context_spec());
    v
}

/// The bytes of `"localmessenger/pending-store/v1"`.
pub open spec fn pending_store_context_spec() -> Seq<u8> {
    seq![108u8, 111u8, 99u8, 97u8, 108u8, 109u8, 101u8, 115u8, 115u8, 101u8, 110u8, 103u8, 101u8, 114u8, 47u8, 112u8, 101u8, 110u8, 100u8, 105u8, 110u8, 103u8, 45u8, 115u8, 116u8, 111u8, 114u8, 101u8, 47u8, 118u8, 49u8]
}

pub fn pending_store_context() -> (r: Vec<u8>)
    ensures
        r@ == pending_store_context_spec(),
{
    let a: [u8; 31] = [108u8, 111u8, 99u8, 97u8, 108u8, 109u8, 101u8, 115u8, 115u8, 101u8, 110u8, 103u8, 101u8, 114u8, 47u8, 112u8, 101u8, 110u8, 100u8, 105u8, 110u8, 103u8, 45u8, 115u8, 116u8, 111u8, 114u8, 101u8, 47u8, 118u8, 49u8];
    let mut v: Vec<u8> = Vec::new();
    extend_bytes(&mut v, &a);
    assert(a@ =~= pending_store_context_spec());
    assert(v@ =~= pending_store_context_spec());
    v
}

} // verus!
