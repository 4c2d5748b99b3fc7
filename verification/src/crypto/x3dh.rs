//! X3DH: the initiator's and the responder's halves of the key agreement that
//! seeds a Double Ratchet.

use vstd::prelude::*;
use crate::bytes::extend_bytes;
use crate::crypto::error::CryptoError;
use crate::crypto::identity::{IdentityKeyPair, IdentityPublicKeys};
use crate::crypto::kdf::{derive_initial_root_key, initial_root_spec, root_kdf, root_step_spec};
use crate::crypto::prekey::{bundle_verifies_spec, LocalPrekeyStore, PublicPrekeyBundle};
use crate::crypto::ratchet::{SessionRole, SessionSeed};
use crate::outside::{random_bytes_32, x25519_diffie_hellman, x25519_public, x25519_public_key, x25519_shared};

verus! {

/// What the initiator sends so the responder can derive the same keys.
#[derive(Debug, Clone, PartialEq, Eq)]
pub struct InitiatorHandshake {
    pub initiator_identity: IdentityPublicKeys,
    pub initiator_ephemeral_public_key: [u8; 32],
    pub initiator_ratchet_public_key: [u8; 32],
    pub responder_signed_prekey_id: u32,
    pub responder_one_time_prekey_id: Option<u32>,
}

/// The initiator's handshake and ratchet seed.
pub struct InitiatorSession {
    pub handshake: InitiatorHandshake,
    pub seed: SessionSeed,
}

/// The responder's ratchet seed and the one-time prekey it used up.
pub struct ResponderSession {
    pub seed: SessionSeed,
    pub consumed_one_time_prekey_id: Option<u32>,
}

/// Thirty-two `0xff` bytes that open the X3DH key material.
pub open spec fn x3dh_prefix_spec() -> Seq<u8> {
    Seq::new(32, |i: int| 0xffu8)
}

fn x3dh_prefix() -> (r: Vec<u8>)
    ensures
        r@ == x3dh_prefix_spec(),
{
    let mut v: Vec<u8> = Vec::new();
    let mut i: usize = 0;
    while i < 32
        invariant
            i <= 32,
            v@ == Seq::new(i as nat, |j: int| 0xffu8),
        decreases 32 - i,
    {
        v.push(0xff);
        i = i + 1;
        assert(v@ =~= Seq::new(i as nat, |j: int| 0xffu8));
    }
    v
}

/// The X3DH key material as the initiator computes it from its identity
/// secret `a` and ephemeral secret `e`, against the responder's identity,
/// signed prekey and (optional) one-time prekey.
pub open spec fn x3dh_material_spec(
    a: Seq<u8>,
    e: Seq<u8>,
    responder_identity: Seq<u8>,
    signed_prekey: Seq<u8>,
    one_time_prekey: Option<Seq<u8>>,
) -> Seq<u8> {
    x3dh_prefix_spec() + x25519_shared(a, signed_prekey) + x25519_shared(e, responder_identity)
        + x25519_shared(e, signed_prekey) + match one_time_prekey {
        Some(o) => x25519_shared(e, o),
        None => Seq::empty(),
    }
}

/// The 64 bytes whose halves are the first root key and the first chain key
/// of the session, with the initiator's ratchet secret `k`.
pub open spec fn x3dh_keys_spec(
    a: Seq<u8>,
    e: Seq<u8>,
    k: Seq<u8>,
    responder_identity: Seq<u8>,
    signed_prekey: Seq<u8>,
    one_time_prekey: Option<Seq<u8>>,
) -> Seq<u8> {
    root_step_spec(
        initial_root_spec(x3dh_material_spec(a, e, responder_identity, signed_prekey, one_time_prekey)),
        x25519_shared(k, signed_prekey),
    )
}

/// The one-time prekey the initiator uses: the bundle's first, if any.
pub open spec fn chosen_one_time_spec(bundle: PublicPrekeyBundle) -> Option<(u32, Seq<u8>)> {
    if bundle.one_time_prekeys@.len() > 0 {
        Some((bundle.one_time_prekeys@[0].id, bundle.one_time_prekeys@[0].public_key@))
    } else {
        None
    }
}

pub open spec fn option_public(c: Option<(u32, Seq<u8>)>) -> Option<Seq<u8>> {
    match c {
        Some((_, p)) => Some(p),
        None => None,
    }
}

/// The initiator's half with the given ephemeral and ratchet secrets: fails
/// where the bundle's signature does not verify.
pub fn initiate_session_with(
    initiator_identity: &IdentityKeyPair,
    responder_bundle: &PublicPrekeyBundle,
    ephemeral_secret: [u8; 32],
    ratchet_secret: [u8; 32],
) -> (r: Result<InitiatorSession, CryptoError>)
    requires
        initiator_identity.wf(),
    ensures
        !bundle_verifies_spec(*responder_bundle) ==> r == Err::<InitiatorSession, CryptoError>(
            CryptoError::InvalidSignature,
        ),
        bundle_verifies_spec(*responder_bundle) ==> r is Ok,
        r matches Ok(s) ==> {
            let keys = x3dh_keys_spec(
                initiator_identity.agreement_secret_spec(),
                ephemeral_secret@,
                ratchet_secret@,
                responder_bundle.identity.agreement_public_key@,
                responder_bundle.signed_prekey.public_key@,
                option_public(chosen_one_time_spec(*responder_bundle)),
            );
            &&& s.handshake.initiator_identity.agreement_public_key@ == x25519_public(
                initiator_identity.agreement_secret_spec(),
            )
            &&& s.handshake.initiator_ephemeral_public_key@ == x25519_public(ephemeral_secret@)
            &&& s.handshake.initiator_ratchet_public_key@ == x25519_public(ratchet_secret@)
            &&& s.handshake.responder_signed_prekey_id == responder_bundle.signed_prekey.id
            &&& s.handshake.responder_one_time_prekey_id == match chosen_one_time_spec(*responder_bundle) {
                Some((id, _)) => Some(id),
                None => None::<u32>,
            }
            &&& s.seed.role == SessionRole::Initiator
            &&& s.seed.root_key@ == keys.subrange(0, 32)
            &&& s.seed.sending_chain_key matches Some(c) && c@ == keys.subrange(32, 64)
            &&& s.seed.receiving_chain_key is None
            &&& s.seed.local_ratchet_secret == ratchet_secret
            &&& s.seed.local_ratchet_public@ == x25519_public(ratchet_secret@)
            &&& s.seed.remote_ratchet_public == responder_bundle.signed_prekey.public_key
        },
{
    match responder_bundle.verify() {
        Err(e) => return Err(e),
        Ok(()) => {},
    }
    let spk = responder_bundle.signed_prekey.public_key;
    let one_time = match responder_bundle.first_one_time_prekey() {
        Some(p) => Some((p.id, p.public_key)),
        None => None,
    };
    let ephemeral_public = x25519_public_key(&ephemeral_secret);
    let identity_secret = initiator_identity.agreement_secret();
    let ik_spk = x25519_diffie_hellman(&identity_secret, &spk);
    let ek_ik = x25519_diffie_hellman(&ephemeral_secret, &responder_bundle.identity.agreement_public_key);
    let ek_spk = x25519_diffie_hellman(&ephemeral_secret, &spk);
    let mut material = x3dh_prefix();
    extend_bytes(&mut material, &ik_spk);
    extend_bytes(&mut material, &ek_ik);
    extend_bytes(&mut material, &ek_spk);
    let mut one_time_id: Option<u32> = None;
    match one_time {
        Some((id, public)) => {
            let ek_opk = x25519_diffie_hellman(&ephemeral_secret, &public);
            extend_bytes(&mut material, &ek_opk);
            one_time_id = Some(id);
        },
        None => {},
    }
    proof {
        assert(material@ =~= x3dh_material_spec(
            initiator_identity.agreement_secret_spec(),
            ephemeral_secret@,
            responder_bundle.identity.agreement_public_key@,
            spk@,
            option_public(chosen_one_time_spec(*responder_bundle)),
        ));
    }
    let initial_root_key = derive_initial_root_key(&material);
    let ratchet_public = x25519_public_key(&ratchet_secret);
    let ratchet_dh = x25519_diffie_hellman(&ratchet_secret, &spk);
    let (root_key, sending_chain_key) = root_kdf(&initial_root_key, &ratchet_dh);
    let handshake = InitiatorHandshake {
        initiator_identity: initiator_identity.public_keys(),
        initiator_ephemeral_public_key: ephemeral_public,
        initiator_ratchet_public_key: ratchet_public,
        responder_signed_prekey_id: responder_bundle.signed_prekey.id,
        responder_one_time_prekey_id: one_time_id,
    };
    Ok(InitiatorSession {
        handshake,
        seed: SessionSeed {
            role: SessionRole::Initiator,
            root_key,
            local_ratchet_secret: ratchet_secret,
            local_ratchet_public: ratchet_public,
            remote_ratchet_public: spk,
            sending_chain_key: Some(sending_chain_key),
            receiving_chain_key: None,
        },
    })
}

/// The initiator's half with fresh ephemeral and ratchet secrets.
pub fn initiate_session(
    initiator_identity: &IdentityKeyPair,
    responder_bundle: &PublicPrekeyBundle,
) -> (r: Result<InitiatorSession, CryptoError>)
    requires
        initiator_identity.wf(),
    ensures
        !bundle_verifies_spec(*responder_bundle) ==> r == Err::<InitiatorSession, CryptoError>(
            CryptoError::InvalidSignature,
        ),
        bundle_verifies_spec(*responder_bundle) ==> r is Ok,
        r matches Ok(s) ==> {
            &&& s.handshake.responder_signed_prekey_id == responder_bundle.signed_prekey.id
            &&& s.handshake.responder_one_time_prekey_id == match chosen_one_time_spec(*responder_bundle) {
                Some((id, _)) => Some(id),
                None => None::<u32>,
            }
            &&& s.seed.role == SessionRole::Initiator
            &&& s.seed.remote_ratchet_public == responder_bundle.signed_prekey.public_key
            &&& s.seed.sending_chain_key is Some
            &&& s.seed.receiving_chain_key is None
            &&& exists|e: Seq<u8>, k: Seq<u8>| #![trigger x25519_public(e), x25519_public(k)] {
                let keys = x3dh_keys_spec(
                    initiator_identity.agreement_secret_spec(),
                    e,
                    k,
                    responder_bundle.identity.agreement_public_key@,
                    responder_bundle.signed_prekey.public_key@,
                    option_public(chosen_one_time_spec(*responder_bundle)),
                );
                &&& e.len() == 32
                &&& k.len() == 32
                &&& s.handshake.initiator_ephemeral_public_key@ == x25519_public(e)
                &&& s.handshake.initiator_ratchet_public_key@ == x25519_public(k)
                &&& s.seed.root_key@ == keys.subrange(0, 32)
                &&& s.seed.sending_chain_key.unwrap()@ == keys.subrange(32, 64)
            }
        },
{
    let ephemeral_secret = random_bytes_32();
    let ratchet_secret = random_bytes_32();
    let r = initiate_session_with(initiator_identity, responder_bundle, ephemeral_secret, ratchet_secret);
    proof {
        if r is Ok {
            let e = ephemeral_secret@;
            let k = ratchet_secret@;
            assert(e.len() == 32 && k.len() == 32);
        }
    }
    r
}

/// The responder's half: uses the signed prekey the handshake names and, if
/// it names one, takes that one-time prekey out of the store.  For every
/// choice of initiator secrets whose public keys the handshake carries, the
/// keys derived here are the keys `initiate_session_with` derives from them.
pub fn accept_session(
    responder_identity: &IdentityKeyPair,
    prekey_store: &mut LocalPrekeyStore,
    handshake: &InitiatorHandshake,
) -> (r: Result<ResponderSession, CryptoError>)
    requires
        responder_identity.wf(),
    ensures
        old(prekey_store).signed_spec().id != handshake.responder_signed_prekey_id ==> r == Err::<
            ResponderSession,
            CryptoError,
        >(CryptoError::MissingSignedPrekey(handshake.responder_signed_prekey_id)),
        old(prekey_store).signed_spec().id == handshake.responder_signed_prekey_id
            && (handshake.responder_one_time_prekey_id matches Some(id)
            && !old(prekey_store).one_time_spec().contains_key(id as u64)) ==> r == Err::<
            ResponderSession,
            CryptoError,
        >(CryptoError::MissingOneTimePrekey(handshake.responder_one_time_prekey_id->0)),
        r is Err ==> final(prekey_store).one_time_spec() == old(prekey_store).one_time_spec(),
        old(prekey_store).signed_spec().id == handshake.responder_signed_prekey_id
            && !(handshake.responder_one_time_prekey_id matches Some(id)
            && !old(prekey_store).one_time_spec().contains_key(id as u64)) ==> r is Ok,
        final(prekey_store).signed_spec() == old(prekey_store).signed_spec(),
        final(prekey_store).identity_spec() == old(prekey_store).identity_spec(),
        r matches Ok(s) ==> {
            let spk = old(prekey_store).signed_spec();
            let one_time = match handshake.responder_one_time_prekey_id {
                Some(id) => Some(x25519_public(old(prekey_store).one_time_spec()[id as u64].secret)),
                None => None,
            };
            &&& s.consumed_one_time_prekey_id == handshake.responder_one_time_prekey_id
            &&& final(prekey_store).one_time_spec() == match handshake.responder_one_time_prekey_id {
                Some(id) => old(prekey_store).one_time_spec().remove(id as u64),
                None => old(prekey_store).one_time_spec(),
            }
            &&& s.seed.role == SessionRole::Responder
            &&& s.seed.local_ratchet_secret@ == spk.secret
            &&& s.seed.local_ratchet_public@ == x25519_public(spk.secret)
            &&& s.seed.remote_ratchet_public == handshake.initiator_ratchet_public_key
            &&& s.seed.sending_chain_key is None
            &&& s.seed.receiving_chain_key is Some
            &&& forall|a: Seq<u8>, e: Seq<u8>, k: Seq<u8>|
                #![trigger x25519_public(a), x25519_public(e), x25519_public(k)]
                a.len() == 32 && e.len() == 32 && k.len() == 32 && x25519_public(a)
                    == handshake.initiator_identity.agreement_public_key@ && x25519_public(e)
                    == handshake.initiator_ephemeral_public_key@ && x25519_public(k)
                    == handshake.initiator_ratchet_public_key@ ==> {
                    let keys = x3dh_keys_spec(
                        a,
                        e,
                        k,
                        x25519_public(responder_identity.agreement_secret_spec()),
                        x25519_public(spk.secret),
                        one_time,
                    );
                    &&& s.seed.root_key@ == keys.subrange(0, 32)
                    &&& s.seed.receiving_chain_key.unwrap()@ == keys.subrange(32, 64)
                }
        },
{
    let signed_prekey = prekey_store.signed_prekey();
    if signed_prekey.id() != handshake.responder_signed_prekey_id {
        return Err(CryptoError::MissingSignedPrekey(handshake.responder_signed_prekey_id));
    }
    let spk_secret: [u8; 32] = *signed_prekey.secret();
    let spk_public = signed_prekey.public_key();
    let eph = handshake.initiator_ephemeral_public_key;
    let ik_spk = x25519_diffie_hellman(&spk_secret, &handshake.initiator_identity.agreement_public_key);
    let identity_secret = responder_identity.agreement_secret();
    let ek_ik = x25519_diffie_hellman(&identity_secret, &eph);
    let ek_spk = x25519_diffie_hellman(&spk_secret, &eph);
    let mut material = x3dh_prefix();
    extend_bytes(&mut material, &ik_spk);
    extend_bytes(&mut material, &ek_ik);
    extend_bytes(&mut material, &ek_spk);
    let ghost material_base = material@;
    let ghost mut ek_opk_seq: Seq<u8> = Seq::empty();
    let mut consumed: Option<u32> = None;
    match handshake.responder_one_time_prekey_id {
        Some(prekey_id) => {
            let one_time = match prekey_store.take_one_time_prekey(prekey_id) {
                Err(e) => return Err(e),
                Ok(p) => p,
            };
            let ek_opk = x25519_diffie_hellman(one_time.secret(), &eph);
            extend_bytes(&mut material, &ek_opk);
            proof {
                ek_opk_seq = ek_opk@;
            }
            consumed = Some(one_time.id());
        },
        None => {},
    }
    let initial_root_key = derive_initial_root_key(&material);
    let receive_dh = x25519_diffie_hellman(&spk_secret, &handshake.initiator_ratchet_public_key);
    let (root_key, receiving_chain_key) = root_kdf(&initial_root_key, &receive_dh);
    proof {
        let spk = old(prekey_store).signed_spec();
        let one_time = match handshake.responder_one_time_prekey_id {
            Some(id) => Some(x25519_public(old(prekey_store).one_time_spec()[id as u64].secret)),
            None => None,
        };
        assert forall|a: Seq<u8>, e: Seq<u8>, k: Seq<u8>|
            #![trigger x25519_public(a), x25519_public(e), x25519_public(k)]
            a.len() == 32 && e.len() == 32 && k.len() == 32 && x25519_public(a)
                == handshake.initiator_identity.agreement_public_key@ && x25519_public(e)
                == handshake.initiator_ephemeral_public_key@ && x25519_public(k)
                == handshake.initiator_ratchet_public_key@ implies {
                let keys = x3dh_keys_spec(
                    a,
                    e,
                    k,
                    x25519_public(responder_identity.agreement_secret_spec()),
                    x25519_public(spk.secret),
                    one_time,
                );
                &&& root_key@ == keys.subrange(0, 32)
                &&& receiving_chain_key@ == keys.subrange(32, 64)
            } by {
            assert(ik_spk@ == x25519_shared(a, x25519_public(spk_secret@)));
            assert(ek_ik@ == x25519_shared(e, x25519_public(identity_secret@)));
            assert(ek_spk@ == x25519_shared(e, x25519_public(spk_secret@)));
            assert(receive_dh@ == x25519_shared(k, x25519_public(spk_secret@)));
            assert(material@ =~= x3dh_material_spec(
                a,
                e,
                x25519_public(responder_identity.agreement_secret_spec()),
                x25519_public(spk.secret),
                one_time,
            ));
        }
    }
    Ok(ResponderSession {
        seed: SessionSeed {
            role: SessionRole::Responder,
            root_key,
            local_ratchet_secret: spk_secret,
            local_ratchet_public: spk_public,
            remote_ratchet_public: handshake.initiator_ratchet_public_key,
            sending_chain_key: None,
            receiving_chain_key: Some(receiving_chain_key),
        },
        consumed_one_time_prekey_id: consumed,
    })
}

} // verus!
