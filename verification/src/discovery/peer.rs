//! Peer capabilities, the local announcement and discovered peers.

use vstd::prelude::*;
use crate::ids::{DeviceId, MemberId};
use crate::text::{decimal_spec, is_blank, is_blank_spec, owned, push_decimal, push_str, str_eq};

verus! {

/// Errors of discovery.
#[derive(Debug, Clone, PartialEq, Eq)]
pub enum DiscoveryError {
    InvalidTxtRecord(String),
    MissingTxtField(&'static str),
    InvalidCapability(String),
    InvalidServiceType(String),
    InvalidServicePort(u16),
    Browser(String),
    Responder(String),
}

/// A discovery error with its texts taken as character sequences.
pub enum DiscoveryErrorView {
    InvalidTxtRecord(Seq<char>),
    MissingTxtField(Seq<char>),
    InvalidCapability(Seq<char>),
    InvalidServiceType(Seq<char>),
    InvalidServicePort(u16),
    Browser(Seq<char>),
    Responder(Seq<char>),
}

impl View for DiscoveryError {
    type V = DiscoveryErrorView;

    open spec fn view(&self) -> DiscoveryErrorView {
        match self {
            DiscoveryError::InvalidTxtRecord(s) => DiscoveryErrorView::InvalidTxtRecord(s@),
            DiscoveryError::MissingTxtField(s) => DiscoveryErrorView::MissingTxtField(s@),
            DiscoveryError::InvalidCapability(s) => DiscoveryErrorView::InvalidCapability(s@),
            DiscoveryError::InvalidServiceType(s) => DiscoveryErrorView::InvalidServiceType(s@),
            DiscoveryError::InvalidServicePort(p) => DiscoveryErrorView::InvalidServicePort(*p),
            DiscoveryError::Browser(s) => DiscoveryErrorView::Browser(s@),
            DiscoveryError::Responder(s) => DiscoveryErrorView::Responder(s@),
        }
    }
}

/// The text of a discovery error.
pub open spec fn discovery_error_text_spec(e: DiscoveryErrorView) -> Seq<char> {
    match e {
        DiscoveryErrorView::InvalidTxtRecord(v) => "invalid TXT record '"@ + v + "'"@,
        DiscoveryErrorView::MissingTxtField(f) => "missing TXT field '"@ + f + "'"@,
        DiscoveryErrorView::InvalidCapability(v) => "invalid capability '"@ + v + "'"@,
        DiscoveryErrorView::InvalidServiceType(v) => "invalid service type '"@ + v + "'"@,
        DiscoveryErrorView::InvalidServicePort(p) => "invalid service port "@ + decimal_spec(p as nat),
        DiscoveryErrorView::Browser(e) => "mDNS browser error: "@ + e,
        DiscoveryErrorView::Responder(e) => "mDNS responder error: "@ + e,
    }
}

impl DiscoveryError {
    /// The error as the user reads it.
    pub fn message(&self) -> (r: String)
        ensures
            r@ == discovery_error_text_spec(self@),
    {
        let mut out = String::new();
        match self {
            DiscoveryError::InvalidTxtRecord(v) => {
                push_str(&mut out, "invalid TXT record '");
                push_str(&mut out, v.as_str());
                push_str(&mut out, "'");
            },
            DiscoveryError::MissingTxtField(f) => {
                push_str(&mut out, "missing TXT field '");
                push_str(&mut out, f);
                push_str(&mut out, "'");
            },
            DiscoveryError::InvalidCapability(v) => {
                push_str(&mut out, "invalid capability '");
                push_str(&mut out, v.as_str());
                push_str(&mut out, "'");
            },
            DiscoveryError::InvalidServiceType(v) => {
                push_str(&mut out, "invalid service type '");
                push_str(&mut out, v.as_str());
                push_str(&mut out, "'");
            },
            DiscoveryError::InvalidServicePort(p) => {
                push_str(&mut out, "invalid service port ");
                push_decimal(&mut out, *p as u64);
            },
            DiscoveryError::Browser(e) => {
                push_str(&mut out, "mDNS browser error: ");
                push_str(&mut out, e.as_str());
            },
            DiscoveryError::Responder(e) => {
                push_str(&mut out, "mDNS responder error: ");
                push_str(&mut out, e.as_str());
            },
        }
        out
    }
}

/// A feature a peer announces; their order is the order of the variants.
#[derive(Debug, Clone, Copy, PartialEq, Eq, Structural)]
pub enum PeerCapability {
    MessagingV1,
    FileTransferV1,
    VoiceNotesV1,
    PresenceV1,
}

/// The name of a capability in TXT records.
pub open spec fn capability_name_spec(c: PeerCapability) -> Seq<char> {
    match c {
        PeerCapability::MessagingV1 => "messaging-v1"@,
        PeerCapability::FileTransferV1 => "files-v1"@,
        PeerCapability::VoiceNotesV1 => "voice-v1"@,
        PeerCapability::PresenceV1 => "presence-v1"@,
    }
}

/// The capability with a given name, if any.
pub open spec fn capability_from_name_spec(s: Seq<char>) -> Option<PeerCapability> {
    if s == "messaging-v1"@ {
        Some(PeerCapability::MessagingV1)
    } else if s == "files-v1"@ {
        Some(PeerCapability::FileTransferV1)
    } else if s == "voice-v1"@ {
        Some(PeerCapability::VoiceNotesV1)
    } else if s == "presence-v1"@ {
        Some(PeerCapability::PresenceV1)
    } else {
        None
    }
}

impl PeerCapability {
    pub fn as_str(&self) -> (r: &'static str)
        ensures
            r@ == capability_name_spec(*self),
    {
        match self {
            PeerCapability::MessagingV1 => "messaging-v1",
            PeerCapability::FileTransferV1 => "files-v1",
            PeerCapability::VoiceNotesV1 => "voice-v1",
            PeerCapability::PresenceV1 => "presence-v1",
        }
    }

    /// The capability named `value`; any other name is an `InvalidCapability`.
    pub fn from_name(value: &str) -> (r: Result<PeerCapability, DiscoveryError>)
        ensures
            match capability_from_name_spec(value@) {
                Some(c) => r == Ok::<PeerCapability, DiscoveryError>(c),
                None => r matches Err(e) && e@ == DiscoveryErrorView::InvalidCapability(value@),
            },
    {
        if str_eq(value, "messaging-v1") {
            Ok(PeerCapability::MessagingV1)
        } else if str_eq(value, "files-v1") {
            Ok(PeerCapability::FileTransferV1)
        } else if str_eq(value, "voice-v1") {
            Ok(PeerCapability::VoiceNotesV1)
        } else if str_eq(value, "presence-v1") {
            Ok(PeerCapability::PresenceV1)
        } else {
            Err(DiscoveryError::InvalidCapability(owned(value)))
        }
    }
}

/// The capabilities of `caps`, each once, in the order of the variants.
pub open spec fn normalized_caps_spec(caps: Seq<PeerCapability>) -> Seq<PeerCapability> {
    (if caps.contains(PeerCapability::MessagingV1) { seq![PeerCapability::MessagingV1] } else { seq![] })
        + (if caps.contains(PeerCapability::FileTransferV1) { seq![PeerCapability::FileTransferV1] } else { seq![] })
        + (if caps.contains(PeerCapability::VoiceNotesV1) { seq![PeerCapability::VoiceNotesV1] } else { seq![] })
        + (if caps.contains(PeerCapability::PresenceV1) { seq![PeerCapability::PresenceV1] } else { seq![] })
}

fn contains_capability(caps: &Vec<PeerCapability>, c: PeerCapability) -> (r: bool)
    ensures
        r == caps@.contains(c),
{
    let mut i: usize = 0;
    while i < caps.len()
        invariant
            i <= caps@.len(),
            forall|j: int| 0 <= j < i ==> caps@[j] != c,
        decreases caps@.len() - i,
    {
        if caps[i] == c {
            return true;
        }
        i = i + 1;
    }
    false
}

fn normalize_caps(caps: &Vec<PeerCapability>) -> (r: Vec<PeerCapability>)
    ensures
        r@ == normalized_caps_spec(caps@),
{
    let mut out: Vec<PeerCapability> = Vec::new();
    if contains_capability(caps, PeerCapability::MessagingV1) {
        out.push(PeerCapability::MessagingV1);
    }
    if contains_capability(caps, PeerCapability::FileTransferV1) {
        out.push(PeerCapability::FileTransferV1);
    }
    if contains_capability(caps, PeerCapability::VoiceNotesV1) {
        out.push(PeerCapability::VoiceNotesV1);
    }
    if contains_capability(caps, PeerCapability::PresenceV1) {
        out.push(PeerCapability::PresenceV1);
    }
    assert(out@ =~= normalized_caps_spec(caps@));
    out
}

/// What this device announces on the local network.
#[derive(Debug, Clone, PartialEq, Eq)]
pub struct LocalPeerAnnouncement {
    pub member_id: MemberId,
    pub device_id: DeviceId,
    pub device_name: String,
    pub port: u16,
    pub capabilities: Vec<PeerCapability>,
}

/// The capability names joined by commas.
pub open spec fn joined_caps_spec(caps: Seq<PeerCapability>) -> Seq<char>
    decreases caps.len(),
{
    if caps.len() == 0 {
        Seq::empty()
    } else if caps.len() == 1 {
        capability_name_spec(caps[0])
    } else {
        joined_caps_spec(caps.drop_last()) + ","@ + capability_name_spec(caps.last())
    }
}

/// The TXT records of an announcement, in the order they are published.
pub open spec fn txt_records_spec(a: LocalPeerAnnouncement) -> Seq<Seq<char>> {
    seq![
        "lmv=1"@,
        "mid="@ + a.member_id@,
        "did="@ + a.device_id@,
        "name="@ + a.device_name@,
        "port="@ + decimal_spec(a.port as nat),
        "caps="@ + joined_caps_spec(a.capabilities@),
    ]
}

impl LocalPeerAnnouncement {
    /// Refuses a blank device name, then port 0; keeps each capability once,
    /// in the order of the variants.
    pub fn new(
        member_id: MemberId,
        device_id: DeviceId,
        device_name: &str,
        port: u16,
        capabilities: Vec<PeerCapability>,
    ) -> (r: Result<LocalPeerAnnouncement, DiscoveryError>)
        ensures
            is_blank_spec(device_name@) ==> (r matches Err(e) && e@ == DiscoveryErrorView::InvalidTxtRecord(
                "device_name cannot be empty"@,
            )),
            !is_blank_spec(device_name@) && port == 0 ==> (r matches Err(e) && e@
                == DiscoveryErrorView::InvalidServicePort(0)),
            !is_blank_spec(device_name@) && port != 0 ==> (r matches Ok(a) && a.member_id@
                == member_id@ && a.device_id@ == device_id@ && a.device_name@ == device_name@
                && a.port == port && a.capabilities@ == normalized_caps_spec(capabilities@)),
    {
        if is_blank(device_name) {
            return Err(DiscoveryError::InvalidTxtRecord(owned("device_name cannot be empty")));
        }
        if port == 0 {
            return Err(DiscoveryError::InvalidServicePort(port));
        }
        let capabilities = normalize_caps(&capabilities);
        Ok(LocalPeerAnnouncement {
            member_id,
            device_id,
            device_name: owned(device_name),
            port,
            capabilities,
        })
    }

    /// `<device name>-<device id>`.
    pub fn instance_name(&self) -> (r: String)
        ensures
            r@ == self.device_name@ + "-"@ + self.device_id@,
    {
        let mut out = String::new();
        push_str(&mut out, self.device_name.as_str());
        push_str(&mut out, "-");
        push_str(&mut out, self.device_id.as_str());
        out
    }

    pub fn txt_records(&self) -> (r: Vec<String>)
        ensures
            r@.len() == 6,
            forall|i: int| 0 <= i < 6 ==> (#[trigger] r@[i])@ == txt_records_spec(*self)[i],
    {
        let mut caps = String::new();
        let mut i: usize = 0;
        while i < self.capabilities.len()
            invariant
                i <= self.capabilities@.len(),
                caps@ == joined_caps_spec(self.capabilities@.take(i as int)),
            decreases self.capabilities@.len() - i,
        {
            proof {
                assert(self.capabilities@.take(i + 1).drop_last() =~= self.capabilities@.take(i as int));
            }
            if i > 0 {
                push_str(&mut caps, ",");
            }
            push_str(&mut caps, self.capabilities[i].as_str());
            i = i + 1;
        }
        proof {
            assert(self.capabilities@.take(i as int) =~= self.capabilities@);
        }
        let mut records: Vec<String> = Vec::new();
        records.push(owned("lmv=1"));
        let mut mid = owned("mid=");
        push_str(&mut mid, self.member_id.as_str());
        records.push(mid);
        let mut did = owned("did=");
        push_str(&mut did, self.device_id.as_str());
        records.push(did);
        let mut name = owned("name=");
        push_str(&mut name, self.device_name.as_str());
        records.push(name);
        let mut port = owned("port=");
        push_decimal(&mut port, self.port as u64);
        records.push(port);
        let mut caps_record = owned("caps=");
        push_str(&mut caps_record, caps.as_str());
        records.push(caps_record);
        records
    }
}

/// An IP address, version 4 or 6.
#[derive(Debug, Clone, Copy, PartialEq, Eq)]
pub enum IpAddress {
    V4([u8; 4]),
    V6([u8; 16]),
}

/// An IP address and port where a peer can be reached.
#[derive(Debug, Clone, Copy, PartialEq, Eq)]
pub struct SocketAddress {
    pub ip: IpAddress,
    pub port: u16,
}

/// A peer found on the local network.
#[derive(Debug, Clone, PartialEq, Eq)]
pub struct DiscoveredPeer {
    pub service_instance: String,
    pub member_id: MemberId,
    pub device_id: DeviceId,
    pub device_name: String,
    pub port: u16,
    pub socket_address: Option<SocketAddress>,
    pub hostname: Option<String>,
    pub capabilities: Vec<PeerCapability>,
}

impl DiscoveredPeer {
    /// Where the peer can be reached, if its address is known.
    pub fn endpoint(&self) -> (r: Option<SocketAddress>)
        ensures
            r == self.socket_address,
    {
        self.socket_address
    }
}

} // verus!
