//! Signed and one-time prekeys, the local prekey store and the public bundle.

use vstd::prelude::*;
use crate::bytes::{array64_at, to_vec};
use crate::crypto::error::CryptoError;
use crate::crypto::identity::{
    signed_prekey_payload_spec, IdentityKeyPair, IdentityPublicKeys,
};
use crate::maps::OrderMap;
use crate::outside::{ed25519_accepts, ed25519_public, ed25519_signature, random_bytes_32, x25519_public, x25519_public_key};

verus! {

/// A signed prekey as stored: its id, secret and signature.
#[derive(Clone, PartialEq, Eq)]
pub struct SignedPrekeyMaterial {
    pub id: u32,
    pub secret_key: [u8; 32],
    pub signature: Vec<u8>,
}

/// A one-time prekey as stored.
#[derive(Clone, PartialEq, Eq)]
pub struct OneTimePrekeyMaterial {
    pub id: u32,
    pub secret_key: [u8; 32],
}

/// A prekey store as stored.
#[derive(Clone, PartialEq, Eq)]
pub struct PrekeyStoreMaterial {
    pub identity: IdentityPublicKeys,
    pub signed_prekey: SignedPrekeyMaterial,
    pub one_time_prekeys: Vec<OneTimePrekeyMaterial>,
}

/// A signed prekey: id, secret, its public key and the identity's signature.
pub struct SignedPrekeyRecord {
    id: u32,
    secret: [u8; 32],
    public: [u8; 32],
    signature: [u8; 64],
}

/// The abstract value of a prekey: id, secret, public key and signature.
pub struct PrekeyView {
    pub id: u32,
    pub secret: Seq<u8>,
    pub public: Seq<u8>,
    pub signature: Seq<u8>,
}

impl View for SignedPrekeyRecord {
    type V = PrekeyView;

    closed spec fn view(&self) -> PrekeyView {
        PrekeyView { id: self.id, secret: self.secret@, public: self.public@, signature: self.signature@ }
    }
}

/// The public half of a signed prekey.
#[derive(Debug, Clone, PartialEq, Eq)]
pub struct SignedPrekeyPublic {
    pub id: u32,
    pub public_key: [u8; 32],
    pub signature: Vec<u8>,
}

impl SignedPrekeyRecord {
    #[verifier::type_invariant]
    spec fn inv(self) -> bool {
        self.public@ == x25519_public(self.secret@)
    }

    /// The signed prekey `id` for the secret `secret`, signed by `identity`.
    pub fn from_secret(identity: &IdentityKeyPair, id: u32, secret: [u8; 32]) -> (r: SignedPrekeyRecord)
        ensures
            r@.id == id,
            r@.secret == secret@,
            r@.public == x25519_public(secret@),
            r@.signature == ed25519_signature(
                identity.signing_seed_spec(),
                signed_prekey_payload_spec(id, x25519_public(secret@)),
            ),
            ed25519_accepts(
                ed25519_public(identity.signing_seed_spec()),
                signed_prekey_payload_spec(id, x25519_public(secret@)),
                r@.signature,
            ),
    {
        let public = x25519_public_key(&secret);
        let signature = identity.sign_signed_prekey(id, &public);
        SignedPrekeyRecord { id, secret, public, signature }
    }

    /// A fresh signed prekey `id`, signed by `identity`.
    pub fn generate(identity: &IdentityKeyPair, id: u32) -> (r: SignedPrekeyRecord)
        ensures
            r@.id == id,
            r@.public == x25519_public(r@.secret),
            r@.signature == ed25519_signature(
                identity.signing_seed_spec(),
                signed_prekey_payload_spec(id, r@.public),
            ),
    {
        let secret = random_bytes_32();
        SignedPrekeyRecord::from_secret(identity, id, secret)
    }

    pub fn id(&self) -> (r: u32)
        ensures
            r == self@.id,
    {
        self.id
    }

    pub fn secret(&self) -> (r: &[u8; 32])
        ensures
            r@ == self@.secret,
    {
        &self.secret
    }

    pub fn public_key(&self) -> (r: [u8; 32])
        ensures
            r@ == self@.public,
            r@ == x25519_public(self@.secret),
    {
        proof {
            use_type_invariant(self);
        }
        self.public
    }

    pub fn public_record(&self) -> (r: SignedPrekeyPublic)
        ensures
            r.id == self@.id,
            r.public_key@ == self@.public,
            r.signature@ == self@.signature,
    {
        SignedPrekeyPublic { id: self.id, public_key: self.public, signature: to_vec(&self.signature) }
    }

    pub fn to_material(&self) -> (r: SignedPrekeyMaterial)
        ensures
            r.id == self@.id,
            r.secret_key@ == self@.secret,
            r.signature@ == self@.signature,
    {
        SignedPrekeyMaterial { id: self.id, secret_key: self.secret, signature: to_vec(&self.signature) }
    }

    /// Rebuilds a signed prekey; the stored signature must be 64 bytes long.
    pub fn from_material(material: SignedPrekeyMaterial) -> (r: Result<SignedPrekeyRecord, CryptoError>)
        ensures
            material.signature@.len() != 64 ==> r == Err::<SignedPrekeyRecord, CryptoError>(
                CryptoError::InvalidSignature,
            ),
            material.signature@.len() == 64 ==> (r matches Ok(p) && p@.id == material.id
                && p@.secret == material.secret_key@ && p@.public == x25519_public(material.secret_key@)
                && p@.signature == material.signature@),
    {
        if material.signature.len() != 64 {
            return Err(CryptoError::InvalidSignature);
        }
        let signature = array64_at(material.signature.as_slice(), 0);
        assert(material.signature@.subrange(0, 64) =~= material.signature@);
        let public = x25519_public_key(&material.secret_key);
        Ok(SignedPrekeyRecord { id: material.id, secret: material.secret_key, public, signature })
    }
}

/// A one-time prekey: id, secret and public key.
pub struct OneTimePrekeyRecord {
    id: u32,
    secret: [u8; 32],
    public: [u8; 32],
}

impl View for OneTimePrekeyRecord {
    type V = PrekeyView;

    closed spec fn view(&self) -> PrekeyView {
        PrekeyView { id: self.id, secret: self.secret@, public: self.public@, signature: Seq::empty() }
    }
}

/// The public half of a one-time prekey.
#[derive(Debug, Clone, Copy, PartialEq, Eq)]
pub struct OneTimePrekeyPublic {
    pub id: u32,
    pub public_key: [u8; 32],
}

impl OneTimePrekeyRecord {
    #[verifier::type_invariant]
    spec fn inv(self) -> bool {
        self.public@ == x25519_public(self.secret@)
    }

    pub fn from_secret(id: u32, secret: [u8; 32]) -> (r: OneTimePrekeyRecord)
        ensures
            r@.id == id,
            r@.secret == secret@,
            r@.public == x25519_public(secret@),
            r@.signature == Seq::<u8>::empty(),
    {
        let public = x25519_public_key(&secret);
        OneTimePrekeyRecord { id, secret, public }
    }

    /// A fresh one-time prekey `id`.
    pub fn generate(id: u32) -> (r: OneTimePrekeyRecord)
        ensures
            r@.id == id,
            r@.public == x25519_public(r@.secret),
            r@.signature == Seq::<u8>::empty(),
    {
        let secret = random_bytes_32();
        OneTimePrekeyRecord::from_secret(id, secret)
    }

    pub fn id(&self) -> (r: u32)
        ensures
            r == self@.id,
    {
        self.id
    }

    pub fn secret(&self) -> (r: &[u8; 32])
        ensures
            r@ == self@.secret,
    {
        &self.secret
    }

    pub fn public_record(&self) -> (r: OneTimePrekeyPublic)
        ensures
            r.id == self@.id,
            r.public_key@ == self@.public,
            r.public_key@ == x25519_public(self@.secret),
    {
        proof {
            use_type_invariant(self);
        }
        OneTimePrekeyPublic { id: self.id, public_key: self.public }
    }

    pub fn to_material(&self) -> (r: OneTimePrekeyMaterial)
        ensures
            r.id == self@.id,
            r.secret_key@ == self@.secret,
    {
        OneTimePrekeyMaterial { id: self.id, secret_key: self.secret }
    }

    pub fn from_material(material: OneTimePrekeyMaterial) -> (r: OneTimePrekeyRecord)
        ensures
            r@.id == material.id,
            r@.secret == material.secret_key@,
            r@.public == x25519_public(material.secret_key@),
            r@.signature == Seq::<u8>::empty(),
    {
        OneTimePrekeyRecord::from_secret(material.id, material.secret_key)
    }

    fn duplicate(&self) -> (r: OneTimePrekeyRecord)
        ensures
            r@ == self@,
    {
        proof {
            use_type_invariant(self);
        }
        OneTimePrekeyRecord { id: self.id, secret: self.secret, public: self.public }
    }
}

/// The public prekeys of a device, as published for others to start sessions.
#[derive(Debug, Clone, PartialEq, Eq)]
pub struct PublicPrekeyBundle {
    pub identity: IdentityPublicKeys,
    pub signed_prekey: SignedPrekeyPublic,
    pub one_time_prekeys: Vec<OneTimePrekeyPublic>,
}

impl PublicPrekeyBundle {
    /// Checks the identity's signature over the signed prekey.
    pub fn verify(&self) -> (r: Result<(), CryptoError>)
        ensures
            r is Ok <==> (self.signed_prekey.signature@.len() == 64 && ed25519_accepts(
                self.identity.signing_public_key@,
                signed_prekey_payload_spec(self.signed_prekey.id, self.signed_prekey.public_key@),
                self.signed_prekey.signature@,
            )),
            r is Err ==> r == Err::<(), CryptoError>(CryptoError::InvalidSignature),
    {
        self.identity.verify_signed_prekey(
            self.signed_prekey.id,
            &self.signed_prekey.public_key,
            self.signed_prekey.signature.as_slice(),
        )
    }

    /// The first one-time prekey of the bundle, if any.
    pub fn first_one_time_prekey(&self) -> (r: Option<&OneTimePrekeyPublic>)
        ensures
            self.one_time_prekeys@.len() == 0 ==> r is None,
            self.one_time_prekeys@.len() > 0 ==> r == Some(&self.one_time_prekeys@[0]),
    {
        if self.one_time_prekeys.len() == 0 {
            None
        } else {
            Some(&self.one_time_prekeys[0])
        }
    }
}

/// The secret prekeys of this device: the signed prekey and the unused
/// one-time prekeys by id.
pub struct LocalPrekeyStore {
    identity: IdentityPublicKeys,
    signed_prekey: SignedPrekeyRecord,
    one_time_prekeys: OrderMap<OneTimePrekeyRecord>,
}

/// The one-time prekeys numbered `start .. start + secrets.len()`, the i-th
/// with the i-th secret.
pub open spec fn numbered_prekeys_spec(start: u32, secrets: Seq<[u8; 32]>) -> Map<u64, PrekeyView> {
    Map::new(
        |k: u64| start <= k < start + secrets.len(),
        |k: u64| PrekeyView {
            id: k as u32,
            secret: secrets[k - start]@,
            public: x25519_public(secrets[k - start]@),
            signature: Seq::empty(),
        },
    )
}

/// `l` holds the entries of `m`, each once, in strictly ascending id order.
pub open spec fn lists_map_in_order(l: Seq<(u64, PrekeyView)>, m: Map<u64, PrekeyView>) -> bool {
    &&& l.len() == m.dom().len()
    &&& forall|i: int, j: int| 0 <= i < j < l.len() ==> #[trigger] l[i].0 < #[trigger] l[j].0
    &&& forall|i: int| 0 <= i < l.len() ==> m.contains_key(#[trigger] l[i].0) && m[l[i].0] == l[i].1
    &&& forall|k: u64| #[trigger] m.contains_key(k) ==> exists|i: int| 0 <= i < l.len() && #[trigger] l[i].0 == k
}

impl LocalPrekeyStore {
    #[verifier::type_invariant]
    spec fn inv(self) -> bool {
        &&& self.one_time_prekeys.wf()
        &&& forall|k: u64| #[trigger] self.one_time_prekeys.map().contains_key(k) ==> {
            let p = self.one_time_prekeys.map()[k];
            &&& p.id == k
            &&& p.public == x25519_public(p.secret)
        }
    }

    /// The one-time prekeys by id.
    pub closed spec fn one_time_spec(&self) -> Map<u64, PrekeyView> {
        self.one_time_prekeys.map()
    }

    pub closed spec fn signed_spec(&self) -> PrekeyView {
        self.signed_prekey@
    }

    pub closed spec fn identity_spec(&self) -> IdentityPublicKeys {
        self.identity
    }

    /// A store whose signed prekey has the secret `signed_secret` and whose
    /// one-time prekeys are numbered from `id_start` with the given secrets.
    pub fn from_secrets(
        identity: &IdentityKeyPair,
        signed_prekey_id: u32,
        signed_secret: [u8; 32],
        one_time_prekey_id_start: u32,
        one_time_secrets: Vec<[u8; 32]>,
    ) -> (r: LocalPrekeyStore)
        requires
            identity.wf(),
            one_time_prekey_id_start + one_time_secrets@.len() <= u32::MAX + 1,
        ensures
            r.identity_spec().agreement_public_key@ == x25519_public(identity.agreement_secret_spec()),
            r.identity_spec().signing_public_key@ == ed25519_public(identity.signing_seed_spec()),
            r.signed_spec().id == signed_prekey_id,
            r.signed_spec().secret == signed_secret@,
            r.signed_spec().public == x25519_public(signed_secret@),
            r.signed_spec().signature == ed25519_signature(
                identity.signing_seed_spec(),
                signed_prekey_payload_spec(signed_prekey_id, x25519_public(signed_secret@)),
            ),
            r.one_time_spec() == numbered_prekeys_spec(one_time_prekey_id_start, one_time_secrets@),
            r.signature_valid(),
    {
        let signed_prekey = SignedPrekeyRecord::from_secret(identity, signed_prekey_id, signed_secret);
        let mut one_time_prekeys: OrderMap<OneTimePrekeyRecord> = OrderMap::new();
        let n = one_time_secrets.len();
        let mut offset: usize = 0;
        while offset < n
            invariant
                n == one_time_secrets@.len(),
                offset <= n,
                one_time_prekey_id_start + n <= u32::MAX + 1,
                one_time_prekeys.wf(),
                one_time_prekeys.map() == numbered_prekeys_spec(
                    one_time_prekey_id_start,
                    one_time_secrets@.take(offset as int),
                ),
            decreases n - offset,
        {
            let id: u32 = one_time_prekey_id_start + offset as u32;
            let record = OneTimePrekeyRecord::from_secret(id, one_time_secrets[offset]);
            one_time_prekeys.insert(id as u64, record);
            offset = offset + 1;
            proof {
                assert(one_time_prekeys.map() =~= numbered_prekeys_spec(
                    one_time_prekey_id_start,
                    one_time_secrets@.take(offset as int),
                ));
            }
        }
        proof {
            assert(one_time_secrets@.take(n as int) =~= one_time_secrets@);
        }
        LocalPrekeyStore { identity: identity.public_keys(), signed_prekey, one_time_prekeys }
    }

    /// A store with a fresh signed prekey and `one_time_prekey_count` fresh
    /// one-time prekeys numbered from `one_time_prekey_id_start`.
    pub fn generate(
        identity: &IdentityKeyPair,
        signed_prekey_id: u32,
        one_time_prekey_count: usize,
        one_time_prekey_id_start: u32,
    ) -> (r: LocalPrekeyStore)
        requires
            identity.wf(),
            one_time_prekey_id_start + one_time_prekey_count <= u32::MAX + 1,
        ensures
            r.identity_spec().signing_public_key@ == ed25519_public(identity.signing_seed_spec()),
            r.signed_spec().id == signed_prekey_id,
            r.signed_spec().public == x25519_public(r.signed_spec().secret),
            r.signed_spec().signature == ed25519_signature(
                identity.signing_seed_spec(),
                signed_prekey_payload_spec(signed_prekey_id, r.signed_spec().public),
            ),
            r.one_time_spec().dom() == Set::new(
                |k: u64| one_time_prekey_id_start <= k < one_time_prekey_id_start + one_time_prekey_count,
            ),
            r.signature_valid(),
    {
        let signed_secret = random_bytes_32();
        let mut secrets: Vec<[u8; 32]> = Vec::new();
        let mut i: usize = 0;
        while i < one_time_prekey_count
            invariant
                i <= one_time_prekey_count,
                secrets@.len() == i,
            decreases one_time_prekey_count - i,
        {
            secrets.push(random_bytes_32());
            i = i + 1;
        }
        let r = LocalPrekeyStore::from_secrets(identity, signed_prekey_id, signed_secret, one_time_prekey_id_start, secrets);
        assert(r.one_time_spec().dom() =~= Set::new(
            |k: u64| one_time_prekey_id_start <= k < one_time_prekey_id_start + one_time_prekey_count,
        ));
        r
    }

    pub fn signed_prekey(&self) -> (r: &SignedPrekeyRecord)
        ensures
            r@ == self.signed_spec(),
    {
        &self.signed_prekey
    }

    pub fn identity(&self) -> (r: &IdentityPublicKeys)
        ensures
            *r == self.identity_spec(),
    {
        &self.identity
    }

    /// Removes and gives the one-time prekey `prekey_id`; each is used once.
    pub fn take_one_time_prekey(&mut self, prekey_id: u32) -> (r: Result<OneTimePrekeyRecord, CryptoError>)
        ensures
            old(self).one_time_spec().contains_key(prekey_id as u64) ==> (r matches Ok(p) && p@
                == old(self).one_time_spec()[prekey_id as u64]),
            !old(self).one_time_spec().contains_key(prekey_id as u64) ==> r == Err::<
                OneTimePrekeyRecord,
                CryptoError,
            >(CryptoError::MissingOneTimePrekey(prekey_id)),
            final(self).one_time_spec() == old(self).one_time_spec().remove(prekey_id as u64),
            !old(self).one_time_spec().contains_key(prekey_id as u64) ==> final(self).one_time_spec()
                == old(self).one_time_spec(),
            r matches Ok(p) ==> p@.id == prekey_id && p@.public == x25519_public(p@.secret),
            final(self).signed_spec() == old(self).signed_spec(),
            final(self).identity_spec() == old(self).identity_spec(),
    {
        proof {
            use_type_invariant(&*self);
        }
        let mut map = OrderMap::new();
        std::mem::swap(&mut map, &mut self.one_time_prekeys);
        let removed = map.remove(prekey_id as u64);
        std::mem::swap(&mut map, &mut self.one_time_prekeys);
        proof {
            if !old(self).one_time_spec().contains_key(prekey_id as u64) {
                assert(self.one_time_spec() =~= old(self).one_time_spec());
            }
        }
        match removed {
            Some(p) => Ok(p),
            None => Err(CryptoError::MissingOneTimePrekey(prekey_id)),
        }
    }

    /// The identity's signature over the signed prekey verifies.
    pub closed spec fn signature_valid(&self) -> bool {
        ed25519_accepts(
            self.identity.signing_public_key@,
            signed_prekey_payload_spec(self.signed_prekey@.id, self.signed_prekey@.public),
            self.signed_prekey@.signature,
        )
    }

    /// The ids of the one-time prekeys, ascending, with their values.
    pub closed spec fn one_time_list(&self) -> Seq<(u64, PrekeyView)> {
        self.one_time_prekeys.list()
    }

    /// The published bundle: the identity, the signed prekey and every
    /// one-time prekey in ascending id order. It verifies where the store's
    /// signature is valid.
    pub fn public_bundle(&self) -> (r: PublicPrekeyBundle)
        ensures
            lists_map_in_order(self.one_time_list(), self.one_time_spec()),
            r.identity == self.identity_spec(),
            r.signed_prekey.id == self.signed_spec().id,
            r.signed_prekey.public_key@ == self.signed_spec().public,
            r.signed_prekey.signature@ == self.signed_spec().signature,
            r.one_time_prekeys@.len() == self.one_time_list().len(),
            forall|i: int| 0 <= i < r.one_time_prekeys@.len() ==> (#[trigger] r.one_time_prekeys@[i]).id
                == self.one_time_list()[i].0 && r.one_time_prekeys@[i].public_key@
                == self.one_time_list()[i].1.public,
            self.signature_valid() ==> (self.signed_spec().signature.len() == 64 ==> bundle_verifies_spec(r)),
    {
        proof {
            use_type_invariant(self);
            self.one_time_prekeys.lemma_wf();
        }
        let records = self.one_time_prekeys.values();
        let mut publics: Vec<OneTimePrekeyPublic> = Vec::new();
        let mut i: usize = 0;
        while i < records.len()
            invariant
                i <= records@.len(),
                records@.len() == self.one_time_list().len(),
                forall|j: int| 0 <= j < records@.len() ==> #[trigger] records@[j]@ == self.one_time_list()[j].1,
                forall|j: int| 0 <= j < self.one_time_list().len() ==> (#[trigger] self.one_time_list()[j]).1.id
                    == self.one_time_list()[j].0,
                publics@.len() == i,
                forall|j: int| 0 <= j < i ==> (#[trigger] publics@[j]).id == self.one_time_list()[j].0
                    && publics@[j].public_key@ == self.one_time_list()[j].1.public,
            decreases records@.len() - i,
        {
            publics.push(records[i].public_record());
            i = i + 1;
        }
        PublicPrekeyBundle {
            identity: self.identity.duplicate(),
            signed_prekey: self.signed_prekey.public_record(),
            one_time_prekeys: publics,
        }
    }
}

impl LocalPrekeyStore {
    /// The store as stored: the one-time prekeys in ascending id order.
    pub fn to_material(&self) -> (r: PrekeyStoreMaterial)
        ensures
            lists_map_in_order(self.one_time_list(), self.one_time_spec()),
            r.identity == self.identity_spec(),
            r.signed_prekey.id == self.signed_spec().id,
            r.signed_prekey.secret_key@ == self.signed_spec().secret,
            r.signed_prekey.signature@ == self.signed_spec().signature,
            r.one_time_prekeys@.len() == self.one_time_list().len(),
            forall|i: int| 0 <= i < r.one_time_prekeys@.len() ==> (#[trigger] r.one_time_prekeys@[i]).id
                == self.one_time_list()[i].0 && r.one_time_prekeys@[i].secret_key@
                == self.one_time_list()[i].1.secret,
    {
        proof {
            use_type_invariant(self);
            self.one_time_prekeys.lemma_wf();
        }
        let records = self.one_time_prekeys.values();
        let mut out: Vec<OneTimePrekeyMaterial> = Vec::new();
        let mut i: usize = 0;
        while i < records.len()
            invariant
                i <= records@.len(),
                records@.len() == self.one_time_list().len(),
                forall|j: int| 0 <= j < records@.len() ==> #[trigger] records@[j]@ == self.one_time_list()[j].1,
                forall|j: int| 0 <= j < self.one_time_list().len() ==> (#[trigger] self.one_time_list()[j]).1.id
                    == self.one_time_list()[j].0,
                out@.len() == i,
                forall|j: int| 0 <= j < i ==> (#[trigger] out@[j]).id == self.one_time_list()[j].0
                    && out@[j].secret_key@ == self.one_time_list()[j].1.secret,
            decreases records@.len() - i,
        {
            out.push(records[i].to_material());
            i = i + 1;
        }
        PrekeyStoreMaterial {
            identity: self.identity.duplicate(),
            signed_prekey: self.signed_prekey.to_material(),
            one_time_prekeys: out,
        }
    }

    /// Rebuilds a store; a later one-time prekey replaces an earlier one with
    /// the same id. Fails where the signed prekey's signature is not 64 bytes.
    pub fn from_material(material: PrekeyStoreMaterial) -> (r: Result<LocalPrekeyStore, CryptoError>)
        ensures
            material.signed_prekey.signature@.len() != 64 ==> r == Err::<LocalPrekeyStore, CryptoError>(
                CryptoError::InvalidSignature,
            ),
            material.signed_prekey.signature@.len() == 64 ==> (r matches Ok(s) && s.identity_spec()
                == material.identity && s.signed_spec().id == material.signed_prekey.id
                && s.signed_spec().secret == material.signed_prekey.secret_key@
                && s.signed_spec().signature == material.signed_prekey.signature@
                && s.one_time_spec() == material_map_spec(material.one_time_prekeys@)),
    {
        let mut one_time_prekeys: OrderMap<OneTimePrekeyRecord> = OrderMap::new();
        let n = material.one_time_prekeys.len();
        let mut i: usize = 0;
        while i < n
            invariant
                n == material.one_time_prekeys@.len(),
                i <= n,
                one_time_prekeys.wf(),
                one_time_prekeys.map() == material_map_spec(material.one_time_prekeys@.take(i as int)),
                forall|k: u64| #[trigger] one_time_prekeys.map().contains_key(k) ==> {
                    let p = one_time_prekeys.map()[k];
                    &&& p.id == k
                    &&& p.public == x25519_public(p.secret)
                },
            decreases n - i,
        {
            let m = &material.one_time_prekeys[i];
            let record = OneTimePrekeyRecord::from_secret(m.id, m.secret_key);
            one_time_prekeys.insert(m.id as u64, record);
            proof {
                assert(material.one_time_prekeys@.take(i + 1).drop_last() =~= material.one_time_prekeys@.take(i as int));
            }
            i = i + 1;
        }
        proof {
            assert(material.one_time_prekeys@.take(n as int) =~= material.one_time_prekeys@);
        }
        let signed_prekey = match SignedPrekeyRecord::from_material(material.signed_prekey) {
            Err(e) => return Err(e),
            Ok(p) => p,
        };
        Ok(LocalPrekeyStore { identity: material.identity, signed_prekey, one_time_prekeys })
    }
}

/// The one-time prekeys of stored material by id; later entries replace earlier ones.
pub open spec fn material_map_spec(s: Seq<OneTimePrekeyMaterial>) -> Map<u64, PrekeyView>
    decreases s.len(),
{
    if s.len() == 0 {
        Map::empty()
    } else {
        material_map_spec(s.drop_last()).insert(
            s.last().id as u64,
            PrekeyView {
                id: s.last().id,
                secret: s.last().secret_key@,
                public: x25519_public(s.last().secret_key@),
                signature: Seq::empty(),
            },
        )
    }
}

/// What `PublicPrekeyBundle::verify` accepts.
pub open spec fn bundle_verifies_spec(b: PublicPrekeyBundle) -> bool {
    b.signed_prekey.signature@.len() == 64 && ed25519_accepts(
        b.identity.signing_public_key@,
        signed_prekey_payload_spec(b.signed_prekey.id, b.signed_prekey.public_key@),
        b.signed_prekey.signature@,
    )
}

} // verus!
