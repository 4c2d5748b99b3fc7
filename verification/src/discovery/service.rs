//! What discovery decides around the network: which service types it
//! announces and browses, how an mDNS response becomes a peer, and which
//! events the registry's changes are reported as.
//!
//! An mDNS response is taken as plain values: its records in order (for each,
//! its name and whether it points to a service instance or names a service
//! record), its TXT values, and the host name and addresses the response
//! carries.

use vstd::prelude::*;
use crate::discovery::peer::{DiscoveredPeer, DiscoveryError, DiscoveryErrorView, IpAddress, SocketAddress};
use crate::discovery::registry::{peer_view, PeerRegistry, RegistryChange};
use crate::discovery::txt::{decode_txt_records, texts, txt_decode_spec, TxtView};
use crate::ids::DeviceId;
use crate::text::{copy_string, is_blank, is_blank_spec, owned, push_str, starts_with, starts_with_spec, str_eq};

verus! {

/// What the discovery service reports to its subscribers.
#[derive(Debug, Clone, PartialEq, Eq)]
pub enum DiscoveryEvent {
    PeerAdded(DiscoveredPeer),
    PeerUpdated(DiscoveredPeer),
    PeerExpired(DiscoveredPeer),
}

/// `s` holds a dot followed by an underscore.
pub open spec fn has_dot_underscore(s: Seq<char>) -> bool {
    exists|i: int| 0 <= i && i + 1 < s.len() && #[trigger] s[i] == '.' && s[i + 1] == '_'
}

/// A service type is announced only when it is not blank, starts with an
/// underscore and has a `._` between its labels.
pub open spec fn service_type_ok(s: Seq<char>) -> bool {
    !is_blank_spec(s) && starts_with_spec(s, "_"@) && has_dot_underscore(s)
}

fn contains_dot_underscore(s: &str) -> (r: bool)
    ensures
        r == has_dot_underscore(s@),
{
    let n = s.unicode_len();
    let mut i: usize = 0;
    while i < n
        invariant
            n == s@.len(),
            i <= n,
            forall|j: int| 0 <= j < i && j + 1 < n ==> !(#[trigger] s@[j] == '.' && s@[j + 1] == '_'),
        decreases n - i,
    {
        if i + 1 < n && s.get_char(i) == '.' && s.get_char(i + 1) == '_' {
            return true;
        }
        i = i + 1;
    }
    proof {
        assert forall|j: int| 0 <= j && j + 1 < s@.len() implies !(#[trigger] s@[j] == '.' && s@[j + 1] == '_') by {}
    }
    false
}

/// Refuses a service type that is blank, does not start with `_` or has no
/// `._`.
pub fn validate_service_type(service_type: &str) -> (r: Result<(), DiscoveryError>)
    ensures
        service_type_ok(service_type@) ==> r is Ok,
        !service_type_ok(service_type@) ==> (r matches Err(e) && e@ == DiscoveryErrorView::InvalidServiceType(
            service_type@,
        )),
{
    if is_blank(service_type) || !starts_with(service_type, "_") || !contains_dot_underscore(service_type) {
        return Err(DiscoveryError::InvalidServiceType(owned(service_type)));
    }
    Ok(())
}

/// `s` ends with `suffix`.
pub open spec fn ends_with_spec(s: Seq<char>, suffix: Seq<char>) -> bool {
    suffix.len() <= s.len() && s.subrange(s.len() - suffix.len(), s.len() as int) == suffix
}

/// The name browsed for a service type: the type itself when it already
/// ends in `.local`, else the type with `.local` appended.
pub open spec fn browse_name_spec(service_type: Seq<char>) -> Seq<char> {
    if ends_with_spec(service_type, ".local"@) {
        service_type
    } else {
        service_type + ".local"@
    }
}

pub fn browse_service_name(service_type: &str) -> (r: String)
    ensures
        r@ == browse_name_spec(service_type@),
{
    proof {
        reveal_strlit(".local");
    }
    let n = service_type.unicode_len();
    let ends = n >= 6 && str_eq(service_type.substring_char(n - 6, n), ".local");
    if ends {
        owned(service_type)
    } else {
        let mut out = owned(service_type);
        push_str(&mut out, ".local");
        out
    }
}

/// The text without its trailing dots.
pub open spec fn trim_dots_spec(s: Seq<char>) -> Seq<char>
    decreases s.len(),
{
    if s.len() > 0 && s.last() == '.' {
        trim_dots_spec(s.drop_last())
    } else {
        s
    }
}

proof fn lemma_trim_dots(s: Seq<char>, end: int)
    requires
        0 <= end <= s.len(),
        forall|j: int| end <= j < s.len() ==> s[j] == '.',
    ensures
        trim_dots_spec(s) == trim_dots_spec(s.subrange(0, end)),
    decreases s.len() - end,
{
    if end < s.len() {
        assert(s.last() == '.');
        assert(s.drop_last().subrange(0, end) =~= s.subrange(0, end));
        lemma_trim_dots(s.drop_last(), end);
    } else {
        assert(s.subrange(0, end) =~= s);
    }
}

/// The text without its trailing dots.
pub fn trim_trailing_dot(value: &str) -> (r: String)
    ensures
        r@ == trim_dots_spec(value@),
{
    let mut end = value.unicode_len();
    while end > 0 && value.get_char(end - 1) == '.'
        invariant
            end <= value@.len(),
            forall|j: int| end <= j < value@.len() ==> value@[j] == '.',
        decreases end,
    {
        end = end - 1;
    }
    proof {
        lemma_trim_dots(value@, end as int);
        let t = value@.subrange(0, end as int);
        if end > 0 {
            assert(t.last() != '.');
        }
    }
    owned(value.substring_char(0, end))
}

/// What an mDNS record says of a service instance.
#[derive(Debug, Clone, PartialEq, Eq)]
pub enum MdnsRecordKind {
    /// A pointer to a service instance, by name.
    Ptr(String),
    /// A service record of the instance the record is named after.
    Srv,
    /// Any other record.
    Other,
}

/// An mDNS record: its name and what it says.
#[derive(Debug, Clone, PartialEq, Eq)]
pub struct MdnsRecord {
    pub name: String,
    pub kind: MdnsRecordKind,
}

/// An mDNS response as plain values.
#[derive(Debug, Clone, PartialEq, Eq)]
pub struct MdnsResponse {
    pub records: Vec<MdnsRecord>,
    pub txt_records: Vec<String>,
    pub hostname: Option<String>,
    pub socket_address: Option<SocketAddress>,
    pub ip_addr: Option<IpAddress>,
}

/// The service instance the first pointer or service record names, without
/// trailing dots.
pub open spec fn first_instance(records: Seq<MdnsRecord>) -> Option<Seq<char>>
    decreases records.len(),
{
    if records.len() == 0 {
        None
    } else {
        match records[0].kind {
            MdnsRecordKind::Ptr(v) => Some(trim_dots_spec(v@)),
            MdnsRecordKind::Srv => Some(trim_dots_spec(records[0].name@)),
            MdnsRecordKind::Other => first_instance(records.drop_first()),
        }
    }
}

/// The service instance of a response (see `first_instance`).
pub fn service_instance_from_response(response: &MdnsResponse) -> (r: Option<String>)
    ensures
        match first_instance(response.records@) {
            Some(s) => r matches Some(x) && x@ == s,
            None => r is None,
        },
{
    let records = &response.records;
    let mut i: usize = 0;
    assert(records@.skip(0) =~= records@);
    while i < records.len()
        invariant
            i <= records@.len(),
            records@ == response.records@,
            first_instance(records@) == first_instance(records@.skip(i as int)),
        decreases records@.len() - i,
    {
        proof {
            assert(records@.skip(i as int)[0] == records@[i as int]);
            assert(records@.skip(i as int).drop_first() =~= records@.skip(i + 1));
        }
        match &records[i].kind {
            MdnsRecordKind::Ptr(v) => {
                assert(first_instance(records@.skip(i as int)) == Some(trim_dots_spec(v@)));
                return Some(trim_trailing_dot(v.as_str()));
            },
            MdnsRecordKind::Srv => {
                assert(first_instance(records@.skip(i as int)) == Some(trim_dots_spec(records@[i as int].name@)));
                return Some(trim_trailing_dot(records[i].name.as_str()));
            },
            MdnsRecordKind::Other => {
                assert(first_instance(records@.skip(i as int)) == first_instance(records@.skip(i + 1)));
            },
        }
        i = i + 1;
    }
    proof {
        assert(records@.skip(i as int).len() == 0);
    }
    None
}

fn copy_texts(v: &Vec<String>) -> (r: Vec<String>)
    ensures
        texts(r@) == texts(v@),
{
    let mut out: Vec<String> = Vec::new();
    let mut i: usize = 0;
    while i < v.len()
        invariant
            i <= v@.len(),
            out@.len() == i,
            forall|j: int| 0 <= j < i ==> (#[trigger] out@[j])@ == v@[j]@,
        decreases v@.len() - i,
    {
        out.push(copy_string(&v[i]));
        i = i + 1;
    }
    assert(texts(out@) =~= texts(v@));
    out
}

/// The peer an mDNS response describes. A response without TXT values is no
/// peer. Otherwise its TXT values are read (their error is the response's);
/// the peer's service instance is the response's (see `first_instance`), or
/// its host name, or the device id; its address is the response's socket
/// address, or its IP address at the announced port.
pub fn peer_from_response(response: &MdnsResponse) -> (r: Result<Option<DiscoveredPeer>, DiscoveryError>)
    ensures
        response.txt_records@.len() == 0 ==> r matches Ok(None),
        response.txt_records@.len() > 0 ==> match txt_decode_spec(texts(response.txt_records@)) {
            Err(e) => r matches Err(x) && x@ == e,
            Ok(p) => r matches Ok(Some(peer)) && peer_view(&peer).service_instance == (match first_instance(
                response.records@,
            ) {
                Some(s) => s,
                None => match response.hostname {
                    Some(h) => h@,
                    None => p.device_id,
                },
            }) && peer_view(&peer).member_id == p.member_id && peer_view(&peer).device_id == p.device_id
                && peer_view(&peer).device_name == p.device_name && peer_view(&peer).port == p.port
                && peer_view(&peer).capabilities == p.capabilities && peer_view(&peer).socket_address == (
            match response.socket_address {
                Some(a) => Some(a),
                None => match response.ip_addr {
                    Some(ip) => Some(SocketAddress { ip, port: p.port }),
                    None => None,
                },
            }) && peer_view(&peer).hostname == (match response.hostname {
                Some(h) => Some(h@),
                None => None,
            }),
        },
{
    if response.txt_records.len() == 0 {
        return Ok(None);
    }
    let payload = match decode_txt_records(copy_texts(&response.txt_records)) {
        Err(e) => return Err(e),
        Ok(p) => p,
    };
    let service_instance = match service_instance_from_response(response) {
        Some(s) => s,
        None => match &response.hostname {
            Some(h) => copy_string(h),
            None => owned(payload.device_id.as_str()),
        },
    };
    let socket_address = match response.socket_address {
        Some(a) => Some(a),
        None => match response.ip_addr {
            Some(ip) => Some(SocketAddress { ip, port: payload.port }),
            None => None,
        },
    };
    let hostname = match &response.hostname {
        Some(h) => Some(copy_string(h)),
        None => None,
    };
    Ok(Some(payload.into_peer(service_instance, socket_address, hostname)))
}

/// What browsing does with a peer it found: the local device itself is
/// skipped; any other peer is recorded as seen at `now`, and its addition or
/// change is reported.
pub fn browse_step(registry: &mut PeerRegistry, local_device_id: &DeviceId, peer: DiscoveredPeer, now_ms: u64) -> (r: Option<DiscoveryEvent>)
    requires
        old(registry).wf(),
    ensures
        final(registry).wf(),
        final(registry).stale_after() == old(registry).stale_after(),
        peer.device_id@ == local_device_id@ ==> r is None && final(registry).entries() == old(registry).entries(),
        peer.device_id@ != local_device_id@ ==> {
            let d = peer_view(&peer).device_id;
            &&& final(registry).map() == old(registry).map().insert(
                d,
                crate::discovery::registry::EntryView { peer: peer_view(&peer), last_seen: now_ms },
            )
            &&& !old(registry).map().contains_key(d) ==> (r matches Some(DiscoveryEvent::PeerAdded(p)) && peer_view(&p)
                == peer_view(&peer))
            &&& (old(registry).map().contains_key(d) && old(registry).map()[d].peer != peer_view(&peer)) ==> (
            r matches Some(DiscoveryEvent::PeerUpdated(p)) && peer_view(&p) == peer_view(&peer))
            &&& (old(registry).map().contains_key(d) && old(registry).map()[d].peer == peer_view(&peer)) ==> r is None
        },
{
    if peer.device_id.same_as(local_device_id) {
        return None;
    }
    match registry.upsert_at(peer, now_ms) {
        RegistryChange::Added(p) => Some(DiscoveryEvent::PeerAdded(p)),
        RegistryChange::Updated(p) => Some(DiscoveryEvent::PeerUpdated(p)),
        _ => None,
    }
}

/// The events that expiring peers are reported as: one per expired peer, in
/// order; other changes report nothing.
pub open spec fn expiry_events_spec(changes: Seq<RegistryChange>) -> Seq<DiscoveryEvent>
    decreases changes.len(),
{
    if changes.len() == 0 {
        Seq::empty()
    } else {
        let rest = expiry_events_spec(changes.drop_last());
        match changes.last() {
            RegistryChange::Expired(p) => rest.push(DiscoveryEvent::PeerExpired(p)),
            _ => rest,
        }
    }
}

pub fn expiry_events(changes: Vec<RegistryChange>) -> (r: Vec<DiscoveryEvent>)
    ensures
        r@ == expiry_events_spec(changes@),
{
    let ghost all = changes@;
    let mut out: Vec<DiscoveryEvent> = Vec::new();
    let mut rest = changes;
    let n = rest.len();
    let mut i: usize = 0;
    while i < n
        invariant
            n == all.len(),
            i <= n,
            rest@ == all.skip(i as int),
            out@ == expiry_events_spec(all.take(i as int)),
        decreases n - i,
    {
        let change = rest.remove(0);
        proof {
            assert(change == all[i as int]);
            assert(all.take(i + 1).drop_last() =~= all.take(i as int));
            assert(all.take(i + 1).last() == all[i as int]);
            assert(rest@ =~= all.skip(i + 1));
        }
        match change {
            RegistryChange::Expired(p) => out.push(DiscoveryEvent::PeerExpired(p)),
            _ => {},
        }
        i = i + 1;
    }
    assert(all.take(n as int) =~= all);
    out
}

} // verus!
