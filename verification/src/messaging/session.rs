//! The secure-session layer: the handshake checks that bind each side's
//! device identity to its prekey bundle and to the pinned transport
//! certificate, and the session whose associated data is that binding.
//!
//! The handshake messages travel as bytes; encoding them is the caller's
//! part.  What is decided between sending and receiving them stands here.

use vstd::prelude::*;
use crate::bytes::{bytes_eq, extend_bytes};
use crate::contexts::{secure_session_context, secure_session_context_spec};
use crate::crypto::error::CryptoError;
use crate::crypto::identity::{IdentityKeyPair, IdentityPublicKeys};
use crate::crypto::prekey::{bundle_verifies_spec, LocalPrekeyStore, PublicPrekeyBundle};
use crate::crypto::ratchet::{
    decrypt_spec, encrypt_spec, in_sync_spec, with_sending_chain_spec, DoubleRatchet, EncryptedMessage,
    RatchetView, MESSAGE_VERSION,
};
use crate::crypto::x3dh::InitiatorHandshake;
use crate::device::{Device, DeviceView};
use crate::ids::{identifier_check_spec, CoreError, DeviceId, IdentifierCheck, MemberId};
use crate::messaging::error::MessagingError;
use crate::outside::{ed25519_public, random_bytes_32, sha256, sha256_digest, x25519_public};
use crate::text::{copy_string, is_blank_spec, owned, str_eq};

verus! {

/// The handshake version this library speaks.
pub const SECURE_SESSION_VERSION: u8 = 1;

/// A device as named in the handshake.
#[derive(Debug, Clone)]
pub struct SessionPeer {
    pub device_id: String,
    pub member_id: String,
    pub device_name: String,
    pub identity_keys: IdentityPublicKeys,
}

/// The abstract value of a handshake peer.
pub struct PeerView {
    pub device_id: Seq<char>,
    pub member_id: Seq<char>,
    pub device_name: Seq<char>,
    pub agreement_public_key: Seq<u8>,
    pub signing_public_key: Seq<u8>,
}

impl View for SessionPeer {
    type V = PeerView;

    open spec fn view(&self) -> PeerView {
        PeerView {
            device_id: self.device_id@,
            member_id: self.member_id@,
            device_name: self.device_name@,
            agreement_public_key: self.identity_keys.agreement_public_key@,
            signing_public_key: self.identity_keys.signing_public_key@,
        }
    }
}

/// How a device is named in the handshake.
pub open spec fn peer_of(d: DeviceView) -> PeerView {
    PeerView {
        device_id: d.device_id,
        member_id: d.owner_member_id,
        device_name: d.device_name,
        agreement_public_key: d.agreement_public_key,
        signing_public_key: d.signing_public_key,
    }
}

/// Two peers are equal field by field.
pub fn same_peer(a: &SessionPeer, b: &SessionPeer) -> (r: bool)
    ensures
        r == (a@ == b@),
{
    str_eq(a.device_id.as_str(), b.device_id.as_str())
        && str_eq(a.member_id.as_str(), b.member_id.as_str())
        && str_eq(a.device_name.as_str(), b.device_name.as_str())
        && a.identity_keys.same_as(&b.identity_keys)
}

impl SessionPeer {
    /// A copy with the same abstract value.
    pub fn duplicate(&self) -> (r: SessionPeer)
        ensures
            r@ == self@,
    {
        SessionPeer {
            device_id: copy_string(&self.device_id),
            member_id: copy_string(&self.member_id),
            device_name: copy_string(&self.device_name),
            identity_keys: self.identity_keys.duplicate(),
        }
    }

    pub fn from_device(device: &Device) -> (r: SessionPeer)
        ensures
            r@ == peer_of(device@),
    {
        SessionPeer {
            device_id: owned(device.device_id().as_str()),
            member_id: owned(device.owner_member_id().as_str()),
            device_name: owned(device.device_name()),
            identity_keys: device.identity_keys().duplicate(),
        }
    }

    /// The device the peer names: fails as the device id, then the member
    /// id, then the device name fails its rule.
    pub fn try_into_device(self) -> (r: Result<Device, MessagingError>)
        ensures
            identifier_check_spec(self.device_id@) == IdentifierCheck::Empty ==> r == Err::<Device, MessagingError>(
                MessagingError::Core(CoreError::EmptyIdentifier("device_id")),
            ),
            identifier_check_spec(self.device_id@) == IdentifierCheck::BadCharacter ==> (r matches Err(
                MessagingError::Core(CoreError::InvalidIdentifier { field: f, value: v }),
            ) && f == "device_id" && v@ == self.device_id@),
            identifier_check_spec(self.device_id@) == IdentifierCheck::Valid && identifier_check_spec(self.member_id@)
                == IdentifierCheck::Empty ==> r == Err::<Device, MessagingError>(
                MessagingError::Core(CoreError::EmptyIdentifier("member_id")),
            ),
            identifier_check_spec(self.device_id@) == IdentifierCheck::Valid && identifier_check_spec(self.member_id@)
                == IdentifierCheck::BadCharacter ==> (r matches Err(
                MessagingError::Core(CoreError::InvalidIdentifier { field: f, value: v }),
            ) && f == "member_id" && v@ == self.member_id@),
            identifier_check_spec(self.device_id@) == IdentifierCheck::Valid && identifier_check_spec(self.member_id@)
                == IdentifierCheck::Valid && is_blank_spec(self.device_name@) ==> r == Err::<Device, MessagingError>(
                MessagingError::Core(CoreError::EmptyDisplayName),
            ),
            identifier_check_spec(self.device_id@) == IdentifierCheck::Valid && identifier_check_spec(self.member_id@)
                == IdentifierCheck::Valid && !is_blank_spec(self.device_name@) ==> (r matches Ok(d)
                && peer_of(d@) == self@ && d@.verification_status == crate::device::VerificationStatus::Pending),
    {
        let device_id = match DeviceId::new(self.device_id.as_str()) {
            Ok(id) => id,
            Err(e) => return Err(MessagingError::Core(e)),
        };
        let member_id = match MemberId::new(self.member_id.as_str()) {
            Ok(id) => id,
            Err(e) => return Err(MessagingError::Core(e)),
        };
        match Device::new(device_id, member_id, self.device_name.as_str(), self.identity_keys) {
            Ok(d) => Ok(d),
            Err(e) => Err(MessagingError::Core(e)),
        }
    }
}

/// What the initiator sends first.
#[derive(Debug, Clone)]
pub struct SessionRequest {
    pub version: u8,
    pub initiator: SessionPeer,
    pub expected_responder: SessionPeer,
    pub expected_responder_transport_certificate_sha256: [u8; 32],
    pub x3dh: InitiatorHandshake,
}

/// What the responder answers.
#[derive(Debug, Clone)]
pub struct SessionResponse {
    pub version: u8,
    pub responder: SessionPeer,
    pub responder_transport_certificate_sha256: [u8; 32],
    pub consumed_one_time_prekey_id: Option<u32>,
}

/// What both sides agree on; its encoding is the session's associated data.
#[derive(Debug, Clone)]
pub struct SessionBinding {
    pub version: u8,
    pub initiator: SessionPeer,
    pub responder: SessionPeer,
    pub responder_transport_certificate_sha256: [u8; 32],
}

/// The SHA-256 of a transport certificate, as pinned in offers and handshakes.
pub fn transport_certificate_sha256(certificate_der: &[u8]) -> (r: [u8; 32])
    ensures
        r@ == sha256(certificate_der@),
{
    sha256_digest(certificate_der)
}

/// A remote device, its verified prekey bundle, and the hash of its
/// transport certificate.
#[derive(Debug)]
pub struct RemoteSessionOffer {
    remote_device: Device,
    prekey_bundle: PublicPrekeyBundle,
    transport_certificate_sha256: [u8; 32],
}

/// What `RemoteSessionOffer::from_parts` decides.
pub open spec fn offer_check_spec(device: DeviceView, bundle: PublicPrekeyBundle) -> Result<(), MessagingError> {
    if !bundle_verifies_spec(bundle) {
        Err(MessagingError::Crypto(CryptoError::InvalidSignature))
    } else if !(bundle.identity.agreement_public_key@ == device.agreement_public_key
        && bundle.identity.signing_public_key@ == device.signing_public_key) {
        Err(MessagingError::RemoteOfferMismatch("prekey bundle identity does not match remote device identity"))
    } else {
        Ok(())
    }
}

impl RemoteSessionOffer {
    pub closed spec fn device_spec(&self) -> DeviceView {
        self.remote_device@
    }

    pub closed spec fn bundle_spec(&self) -> PublicPrekeyBundle {
        self.prekey_bundle
    }

    pub closed spec fn certificate_hash_spec(&self) -> Seq<u8> {
        self.transport_certificate_sha256@
    }

    /// An offer whose bundle verifies and carries the device's own identity.
    pub fn from_parts(remote_device: Device, prekey_bundle: PublicPrekeyBundle, transport_certificate_sha256: [u8; 32]) -> (r: Result<
        RemoteSessionOffer,
        MessagingError,
    >)
        ensures
            match offer_check_spec(remote_device@, prekey_bundle) {
                Err(e) => r == Err::<RemoteSessionOffer, MessagingError>(e),
                Ok(()) => r matches Ok(o) && o.device_spec() == remote_device@ && o.bundle_spec() == prekey_bundle
                    && o.certificate_hash_spec() == transport_certificate_sha256@,
            },
    {
        match prekey_bundle.verify() {
            Ok(()) => {},
            Err(e) => return Err(MessagingError::Crypto(e)),
        }
        if !prekey_bundle.identity.same_as(remote_device.identity_keys()) {
            return Err(MessagingError::RemoteOfferMismatch("prekey bundle identity does not match remote device identity"));
        }
        Ok(RemoteSessionOffer { remote_device, prekey_bundle, transport_certificate_sha256 })
    }

    pub fn remote_device(&self) -> (r: &Device)
        ensures
            r@ == self.device_spec(),
    {
        &self.remote_device
    }

    pub fn prekey_bundle(&self) -> (r: &PublicPrekeyBundle)
        ensures
            *r == self.bundle_spec(),
    {
        &self.prekey_bundle
    }

    pub fn transport_certificate_sha256(&self) -> (r: [u8; 32])
        ensures
            r@ == self.certificate_hash_spec(),
    {
        self.transport_certificate_sha256
    }
}

/// The initiator's first check: the certificate it trusts for the remote end
/// must be the one the offer pins.  Gives back the certificate's hash.
pub fn check_offer_binding(trusted_certificate_der: &[u8], offer: &RemoteSessionOffer) -> (r: Result<[u8; 32], MessagingError>)
    ensures
        sha256(trusted_certificate_der@) == offer.certificate_hash_spec() ==> (r matches Ok(d) && d@ == sha256(
            trusted_certificate_der@,
        )),
        sha256(trusted_certificate_der@) != offer.certificate_hash_spec() ==> r == Err::<[u8; 32], MessagingError>(
            MessagingError::TransportBindingMismatch,
        ),
{
    let digest = transport_certificate_sha256(trusted_certificate_der);
    let pinned = offer.transport_certificate_sha256();
    if !bytes_eq(&digest, &pinned) {
        return Err(MessagingError::TransportBindingMismatch);
    }
    Ok(digest)
}

/// The request the initiator sends for an offer it has checked.
pub fn session_request(local_device: &Device, offer: &RemoteSessionOffer, trusted_sha256: [u8; 32], x3dh: InitiatorHandshake) -> (r: SessionRequest)
    ensures
        r.version == SECURE_SESSION_VERSION,
        r.initiator@ == peer_of(local_device@),
        r.expected_responder@ == peer_of(offer.device_spec()),
        r.expected_responder_transport_certificate_sha256 == trusted_sha256,
        r.x3dh == x3dh,
{
    SessionRequest {
        version: SECURE_SESSION_VERSION,
        initiator: SessionPeer::from_device(local_device),
        expected_responder: SessionPeer::from_device(offer.remote_device()),
        expected_responder_transport_certificate_sha256: trusted_sha256,
        x3dh,
    }
}

/// Refuses any handshake version but this library's own.
pub fn ensure_supported_version(version: u8) -> (r: Result<(), MessagingError>)
    ensures
        version == SECURE_SESSION_VERSION ==> r is Ok,
        version != SECURE_SESSION_VERSION ==> r == Err::<(), MessagingError>(MessagingError::InvalidHandshakeVersion(version)),
{
    if version == SECURE_SESSION_VERSION {
        Ok(())
    } else {
        Err(MessagingError::InvalidHandshakeVersion(version))
    }
}

/// What the initiator makes of the response, in order: the version, the
/// responder it expected, the certificate it trusts.
pub open spec fn response_check_spec(response: SessionResponse, expected_responder: PeerView, trusted_sha256: Seq<u8>) -> Result<(), MessagingError> {
    if response.version != SECURE_SESSION_VERSION {
        Err(MessagingError::InvalidHandshakeVersion(response.version))
    } else if response.responder@ != expected_responder {
        Err(MessagingError::RemoteBindingMismatch("responder device metadata"))
    } else if response.responder_transport_certificate_sha256@ != trusted_sha256 {
        Err(MessagingError::TransportBindingMismatch)
    } else {
        Ok(())
    }
}

/// The initiator's checks of the response; on success, the binding of the
/// session.
pub fn check_session_response(response: &SessionResponse, expected_responder: &SessionPeer, trusted_sha256: [u8; 32], initiator: SessionPeer) -> (r: Result<
    SessionBinding,
    MessagingError,
>)
    ensures
        match response_check_spec(*response, expected_responder@, trusted_sha256@) {
            Err(e) => r == Err::<SessionBinding, MessagingError>(e),
            Ok(()) => r matches Ok(b) && b.version == SECURE_SESSION_VERSION && b.initiator@ == initiator@
                && b.responder@ == response.responder@
                && b.responder_transport_certificate_sha256 == response.responder_transport_certificate_sha256,
        },
{
    ensure_supported_version(response.version)?;
    if !same_peer(&response.responder, expected_responder) {
        return Err(MessagingError::RemoteBindingMismatch("responder device metadata"));
    }
    if !bytes_eq(&response.responder_transport_certificate_sha256, &trusted_sha256) {
        return Err(MessagingError::TransportBindingMismatch);
    }
    Ok(SessionBinding {
        version: SECURE_SESSION_VERSION,
        initiator,
        responder: response.responder.duplicate(),
        responder_transport_certificate_sha256: response.responder_transport_certificate_sha256,
    })
}

/// What the responder makes of a request, in order: the version, that it is
/// the responder asked for, that its certificate is the one pinned, and that
/// the initiator named the identity its X3DH handshake uses.
pub open spec fn request_check_spec(request: SessionRequest, local: PeerView, local_sha256: Seq<u8>) -> Result<(), MessagingError> {
    if request.version != SECURE_SESSION_VERSION {
        Err(MessagingError::InvalidHandshakeVersion(request.version))
    } else if request.expected_responder@ != local {
        Err(MessagingError::RemoteBindingMismatch("requested responder device metadata"))
    } else if request.expected_responder_transport_certificate_sha256@ != local_sha256 {
        Err(MessagingError::TransportBindingMismatch)
    } else if !request.initiator.identity_keys.same_keys(&request.x3dh.initiator_identity) {
        Err(MessagingError::RemoteBindingMismatch("initiator identity keys"))
    } else {
        Ok(())
    }
}

/// The responder's checks of a request.
pub fn check_session_request(request: &SessionRequest, local: &SessionPeer, local_certificate_sha256: [u8; 32]) -> (r: Result<(), MessagingError>)
    ensures
        r == request_check_spec(*request, local@, local_certificate_sha256@),
{
    ensure_supported_version(request.version)?;
    if !same_peer(&request.expected_responder, local) {
        return Err(MessagingError::RemoteBindingMismatch("requested responder device metadata"));
    }
    if !bytes_eq(&request.expected_responder_transport_certificate_sha256, &local_certificate_sha256) {
        return Err(MessagingError::TransportBindingMismatch);
    }
    if !request.initiator.identity_keys.same_as(&request.x3dh.initiator_identity) {
        return Err(MessagingError::RemoteBindingMismatch("initiator identity keys"));
    }
    Ok(())
}

/// The responder's answer to a request it accepted, and the binding both
/// sides then hold.
pub fn session_response(request: &SessionRequest, local_device: &Device, local_certificate_sha256: [u8; 32], consumed_one_time_prekey_id: Option<u32>) -> (r: (
    SessionResponse,
    SessionBinding,
))
    ensures
        r.0.version == SECURE_SESSION_VERSION,
        r.0.responder@ == peer_of(local_device@),
        r.0.responder_transport_certificate_sha256 == local_certificate_sha256,
        r.0.consumed_one_time_prekey_id == consumed_one_time_prekey_id,
        r.1.version == SECURE_SESSION_VERSION,
        r.1.initiator@ == request.initiator@,
        r.1.responder@ == peer_of(local_device@),
        r.1.responder_transport_certificate_sha256 == local_certificate_sha256,
{
    let response = SessionResponse {
        version: SECURE_SESSION_VERSION,
        responder: SessionPeer::from_device(local_device),
        responder_transport_certificate_sha256: local_certificate_sha256,
        consumed_one_time_prekey_id,
    };
    let binding = SessionBinding {
        version: SECURE_SESSION_VERSION,
        initiator: request.initiator.duplicate(),
        responder: SessionPeer::from_device(local_device),
        responder_transport_certificate_sha256: local_certificate_sha256,
    };
    (response, binding)
}

/// The device's public keys must be those of the private identity it runs with.
pub fn validate_local_device_identity(local_device: &Device, local_identity: &IdentityKeyPair) -> (r: Result<(), MessagingError>)
    requires
        local_identity.wf(),
    ensures
        (local_device@.agreement_public_key == x25519_public(local_identity.agreement_secret_spec())
            && local_device@.signing_public_key == ed25519_public(local_identity.signing_seed_spec())) ==> r is Ok,
        !(local_device@.agreement_public_key == x25519_public(local_identity.agreement_secret_spec())
            && local_device@.signing_public_key == ed25519_public(local_identity.signing_seed_spec()))
            ==> r == Err::<(), MessagingError>(MessagingError::LocalDeviceIdentityMismatch),
{
    let keys = local_identity.public_keys();
    if !local_device.identity_keys().same_as(&keys) {
        return Err(MessagingError::LocalDeviceIdentityMismatch);
    }
    Ok(())
}

/// A responder's set-up check: its device runs with its own identity, and
/// the prekey store publishes that identity.
pub fn check_responder_keys(local_device: &Device, local_identity: &IdentityKeyPair, prekey_store: &LocalPrekeyStore) -> (r: Result<(), MessagingError>)
    requires
        local_identity.wf(),
    ensures
        !(local_device@.agreement_public_key == x25519_public(local_identity.agreement_secret_spec())
            && local_device@.signing_public_key == ed25519_public(local_identity.signing_seed_spec()))
            ==> r == Err::<(), MessagingError>(MessagingError::LocalDeviceIdentityMismatch),
        (local_device@.agreement_public_key == x25519_public(local_identity.agreement_secret_spec())
            && local_device@.signing_public_key == ed25519_public(local_identity.signing_seed_spec())) ==> (r is Ok
            <==> (prekey_store.identity_spec().agreement_public_key@ == local_device@.agreement_public_key
            && prekey_store.identity_spec().signing_public_key@ == local_device@.signing_public_key)),
        r is Err ==> r == Err::<(), MessagingError>(MessagingError::LocalDeviceIdentityMismatch),
{
    validate_local_device_identity(local_device, local_identity)?;
    let bundle = prekey_store.public_bundle();
    if !bundle.identity.same_as(local_device.identity_keys()) {
        return Err(MessagingError::LocalDeviceIdentityMismatch);
    }
    Ok(())
}

/// The session id: SHA-256 over the session context and the associated data.
pub fn session_id_from_binding(associated_data: &[u8]) -> (r: [u8; 32])
    ensures
        r@ == sha256(secure_session_context_spec() + associated_data@),
{
    let mut input = secure_session_context();
    extend_bytes(&mut input, associated_data);
    sha256_digest(input.as_slice())
}

/// An established session: the two devices, the ratchet, and the encoded
/// binding that every message carries as associated data.
pub struct SecureSession {
    local_device: Device,
    remote_device: Device,
    remote_transport_certificate_sha256: Option<[u8; 32]>,
    ratchet: DoubleRatchet,
    session_id: [u8; 32],
    associated_data: Vec<u8>,
}

impl SecureSession {
    pub closed spec fn wf(&self) -> bool {
        self.ratchet.wf()
    }

    pub closed spec fn local_spec(&self) -> DeviceView {
        self.local_device@
    }

    pub closed spec fn remote_spec(&self) -> DeviceView {
        self.remote_device@
    }

    pub closed spec fn ratchet_spec(&self) -> RatchetView {
        self.ratchet@
    }

    pub closed spec fn associated_data_spec(&self) -> Seq<u8> {
        self.associated_data@
    }

    pub closed spec fn session_id_spec(&self) -> Seq<u8> {
        self.session_id@
    }

    pub closed spec fn remote_certificate_spec(&self) -> Option<[u8; 32]> {
        self.remote_transport_certificate_sha256
    }

    /// A session over `ratchet` whose associated data is the encoded binding.
    pub fn new(local_device: Device, remote_device: Device, remote_transport_certificate_sha256: Option<[u8; 32]>, ratchet: DoubleRatchet, encoded_binding: Vec<u8>) -> (r: SecureSession)
        requires
            ratchet.wf(),
        ensures
            r.wf(),
            r.local_spec() == local_device@,
            r.remote_spec() == remote_device@,
            r.remote_certificate_spec() == remote_transport_certificate_sha256,
            r.ratchet_spec() == ratchet@,
            r.associated_data_spec() == encoded_binding@,
            r.session_id_spec() == sha256(secure_session_context_spec() + encoded_binding@),
    {
        let session_id = session_id_from_binding(encoded_binding.as_slice());
        SecureSession {
            local_device,
            remote_device,
            remote_transport_certificate_sha256,
            ratchet,
            session_id,
            associated_data: encoded_binding,
        }
    }

    pub fn local_device(&self) -> (r: &Device)
        ensures
            r@ == self.local_spec(),
    {
        &self.local_device
    }

    pub fn remote_device(&self) -> (r: &Device)
        ensures
            r@ == self.remote_spec(),
    {
        &self.remote_device
    }

    pub fn remote_transport_certificate_sha256(&self) -> (r: Option<[u8; 32]>)
        ensures
            r == self.remote_certificate_spec(),
    {
        self.remote_transport_certificate_sha256
    }

    pub fn session_id(&self) -> (r: &[u8; 32])
        ensures
            r@ == self.session_id_spec(),
    {
        &self.session_id
    }

    /// Encrypts with the binding as associated data; `fresh` is the new
    /// ratchet secret should the session have no sending chain yet.
    pub fn encrypt_with(&mut self, plaintext: &[u8], fresh: [u8; 32]) -> (r: Result<EncryptedMessage, MessagingError>)
        requires
            old(self).wf(),
        ensures
            final(self).wf(),
            final(self).ratchet_spec() == encrypt_spec(old(self).ratchet_spec(), plaintext@, old(self).associated_data_spec(), fresh@).0,
            final(self).associated_data_spec() == old(self).associated_data_spec(),
            final(self).session_id_spec() == old(self).session_id_spec(),
            final(self).local_spec() == old(self).local_spec(),
            final(self).remote_spec() == old(self).remote_spec(),
            match encrypt_spec(old(self).ratchet_spec(), plaintext@, old(self).associated_data_spec(), fresh@).1 {
                Ok((h, c)) => r matches Ok(m) && m.version == MESSAGE_VERSION && m.header@ == h && m.ciphertext@ == c,
                Err(e) => r == Err::<EncryptedMessage, MessagingError>(MessagingError::Crypto(e)),
            },
            r matches Ok(m) ==> forall|receiver: RatchetView, other: Seq<u8>|
                #![trigger decrypt_spec(receiver, m.version, m.header@, m.ciphertext@, old(self).associated_data_spec(), other)]
                in_sync_spec(receiver, with_sending_chain_spec(old(self).ratchet_spec(), fresh@)) ==> decrypt_spec(
                    receiver,
                    m.version,
                    m.header@,
                    m.ciphertext@,
                    old(self).associated_data_spec(),
                    other,
                ).1 == Ok::<Seq<u8>, CryptoError>(plaintext@),
    {
        match self.ratchet.encrypt_with(plaintext, self.associated_data.as_slice(), fresh) {
            Ok(m) => Ok(m),
            Err(e) => Err(MessagingError::Crypto(e)),
        }
    }

    /// Decrypts with the binding as associated data; `fresh` is the new
    /// ratchet secret should the message start a new DH ratchet step.
    pub fn decrypt_with(&mut self, message: &EncryptedMessage, fresh: [u8; 32]) -> (r: Result<Vec<u8>, MessagingError>)
        requires
            old(self).wf(),
        ensures
            final(self).wf(),
            final(self).ratchet_spec() == decrypt_spec(
                old(self).ratchet_spec(),
                message.version,
                message.header@,
                message.ciphertext@,
                old(self).associated_data_spec(),
                fresh@,
            ).0,
            final(self).associated_data_spec() == old(self).associated_data_spec(),
            final(self).session_id_spec() == old(self).session_id_spec(),
            final(self).local_spec() == old(self).local_spec(),
            final(self).remote_spec() == old(self).remote_spec(),
            match decrypt_spec(
                old(self).ratchet_spec(),
                message.version,
                message.header@,
                message.ciphertext@,
                old(self).associated_data_spec(),
                fresh@,
            ).1 {
                Ok(p) => r matches Ok(q) && q@ == p,
                Err(e) => r == Err::<Vec<u8>, MessagingError>(MessagingError::Crypto(e)),
            },
    {
        match self.ratchet.decrypt_with(message, self.associated_data.as_slice(), fresh) {
            Ok(p) => Ok(p),
            Err(e) => Err(MessagingError::Crypto(e)),
        }
    }

    /// Encrypts with the binding as associated data, drawing a fresh ratchet
    /// secret should the session have no sending chain yet.
    pub fn encrypt(&mut self, plaintext: &[u8]) -> (r: Result<EncryptedMessage, MessagingError>)
        requires
            old(self).wf(),
        ensures
            final(self).wf(),
            final(self).associated_data_spec() == old(self).associated_data_spec(),
            final(self).session_id_spec() == old(self).session_id_spec(),
            final(self).local_spec() == old(self).local_spec(),
            final(self).remote_spec() == old(self).remote_spec(),
            exists|fresh: Seq<u8>| #![trigger encrypt_spec(old(self).ratchet_spec(), plaintext@, old(self).associated_data_spec(), fresh)] {
                &&& fresh.len() == 32
                &&& final(self).ratchet_spec() == encrypt_spec(old(self).ratchet_spec(), plaintext@, old(self).associated_data_spec(), fresh).0
                &&& match encrypt_spec(old(self).ratchet_spec(), plaintext@, old(self).associated_data_spec(), fresh).1 {
                    Ok((h, c)) => r matches Ok(m) && m.version == MESSAGE_VERSION && m.header@ == h && m.ciphertext@ == c,
                    Err(e) => r == Err::<EncryptedMessage, MessagingError>(MessagingError::Crypto(e)),
                }
            },
    {
        let fresh = random_bytes_32();
        self.encrypt_with(plaintext, fresh)
    }

    /// Decrypts with the binding as associated data, drawing a fresh ratchet
    /// secret should the message start a new DH ratchet step.
    pub fn decrypt(&mut self, message: &EncryptedMessage) -> (r: Result<Vec<u8>, MessagingError>)
        requires
            old(self).wf(),
        ensures
            final(self).wf(),
            final(self).associated_data_spec() == old(self).associated_data_spec(),
            final(self).session_id_spec() == old(self).session_id_spec(),
            final(self).local_spec() == old(self).local_spec(),
            final(self).remote_spec() == old(self).remote_spec(),
            exists|fresh: Seq<u8>|
                #![trigger decrypt_spec(old(self).ratchet_spec(), message.version, message.header@, message.ciphertext@, old(self).associated_data_spec(), fresh)]
                {
                    &&& fresh.len() == 32
                    &&& final(self).ratchet_spec() == decrypt_spec(old(self).ratchet_spec(), message.version, message.header@,
                        message.ciphertext@, old(self).associated_data_spec(), fresh).0
                    &&& match decrypt_spec(old(self).ratchet_spec(), message.version, message.header@, message.ciphertext@,
                        old(self).associated_data_spec(), fresh).1 {
                        Ok(p) => r matches Ok(q) && q@ == p,
                        Err(e) => r == Err::<Vec<u8>, MessagingError>(MessagingError::Crypto(e)),
                    }
                },
    {
        let fresh = random_bytes_32();
        self.decrypt_with(message, fresh)
    }
}

} // verus!
