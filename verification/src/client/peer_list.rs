//! The peer list the client shows: every device of every contact, with what
//! its chat runtime knows of it, then the peers discovered on the network
//! that no contact owns.

use vstd::prelude::*;
use crate::client::trust::{contact_device, contact_views, locate_device};
use crate::client::verification::flat_devices;
use crate::client::views::{PeerStateCode, PeerView};
use crate::device::{Device, DeviceView, VerificationStatus};
use crate::discovery::address::{socket_address_string, socket_address_text};
use crate::discovery::peer::{capability_name_spec, DiscoveredPeer, PeerCapability};
use crate::member::{MemberProfile, MemberProfileView};
use crate::text::{copy_string, owned, str_eq};

verus! {

/// The texts of a list of strings.
pub open spec fn string_views(v: Seq<String>) -> Seq<Seq<char>> {
    v.map_values(|s: String| s@)
}

/// The names of capabilities.
pub open spec fn capability_names(c: Seq<PeerCapability>) -> Seq<Seq<char>> {
    c.map_values(|x: PeerCapability| capability_name_spec(x))
}

/// An owned string's view, if there is one.
pub open spec fn opt_view(o: Option<String>) -> Option<Seq<char>> {
    match o {
        Some(s) => Some(s@),
        None => None,
    }
}

/// The peer a chat runtime reaches for a device id: the first entry of the
/// device id.
pub open spec fn runtime_peer(runtimes: Seq<(String, DiscoveredPeer)>, device_id: Seq<char>) -> Option<DiscoveredPeer>
    decreases runtimes.len(),
{
    if runtimes.len() == 0 {
        None
    } else if runtimes[0].0@ == device_id {
        Some(runtimes[0].1)
    } else {
        runtime_peer(runtimes.drop_first(), device_id)
    }
}

/// The text of where a peer can be reached, or `fallback` when unknown.
pub open spec fn endpoint_text(p: DiscoveredPeer, fallback: Seq<char>) -> Seq<char> {
    match p.socket_address {
        Some(a) => socket_address_text(a),
        None => fallback,
    }
}

/// How a contact's device is listed: with its runtime's endpoint, host name
/// and capabilities when a runtime reaches it, live when it is also
/// verified; dormant without a runtime.
pub open spec fn contact_peer_entry(v: PeerView, m: MemberProfileView, d: DeviceView, runtime: Option<DiscoveredPeer>) -> bool {
    let verified = d.verification_status is Verified;
    &&& v.member_id@ == m.member_id
    &&& v.device_id@ == d.device_id
    &&& v.device_name@ == d.device_name
    &&& v.trust_label@ == (if verified { "verified"@ } else { "pending"@ })
    &&& match runtime {
        Some(p) => {
            &&& v.endpoint@ == endpoint_text(p, "unknown endpoint"@)
            &&& opt_view(v.hostname) == opt_view(p.hostname)
            &&& string_views(v.capabilities@) == capability_names(p.capabilities@)
            &&& v.state == (if verified { PeerStateCode::Live } else { PeerStateCode::Reconnecting })
            &&& v.last_seen_label@ == (if verified {
                "runtime session active"@
            } else {
                "runtime reachable, verification pending"@
            })
        },
        None => {
            &&& v.endpoint@ == "unknown endpoint"@
            &&& v.hostname is None
            &&& v.capabilities@.len() == 0
            &&& v.state == PeerStateCode::Dormant
            &&& v.last_seen_label@ == "no active runtime"@
        },
    }
}

/// How a peer discovered on the network is listed.
pub open spec fn discovered_peer_entry(v: PeerView, p: DiscoveredPeer) -> bool {
    &&& v.member_id@ == p.member_id@
    &&& v.device_id@ == p.device_id@
    &&& v.device_name@ == p.device_name@
    &&& v.endpoint@ == endpoint_text(p, "discovering..."@)
    &&& opt_view(v.hostname) == opt_view(p.hostname)
    &&& string_views(v.capabilities@) == capability_names(p.capabilities@)
    &&& v.state == PeerStateCode::Dormant
    &&& v.trust_label@ == "new peer"@
    &&& v.last_seen_label@ == "discovered via mDNS"@
}

/// The discovered peers no contact owns, in order.
pub open spec fn new_peers(discovered: Seq<DiscoveredPeer>, contacts: Seq<MemberProfileView>) -> Seq<DiscoveredPeer>
    decreases discovered.len(),
{
    if discovered.len() == 0 {
        Seq::empty()
    } else {
        let rest = new_peers(discovered.drop_last(), contacts);
        if contact_device(contacts, discovered.last().device_id@) is None {
            rest.push(discovered.last())
        } else {
            rest
        }
    }
}

fn find_runtime_peer(runtimes: &Vec<(String, DiscoveredPeer)>, device_id: &str) -> (r: Option<usize>)
    ensures
        match runtime_peer(runtimes@, device_id@) {
            Some(p) => r matches Some(i) && i < runtimes@.len() && runtimes@[i as int].1 == p,
            None => r is None,
        },
{
    let mut i: usize = 0;
    assert(runtimes@.skip(0) =~= runtimes@);
    while i < runtimes.len()
        invariant
            i <= runtimes@.len(),
            runtime_peer(runtimes@, device_id@) == runtime_peer(runtimes@.skip(i as int), device_id@),
        decreases runtimes@.len() - i,
    {
        proof {
            assert(runtimes@.skip(i as int)[0] == runtimes@[i as int]);
            assert(runtimes@.skip(i as int).drop_first() =~= runtimes@.skip(i + 1));
        }
        if str_eq(runtimes[i].0.as_str(), device_id) {
            return Some(i);
        }
        i = i + 1;
    }
    None
}

fn capability_strings(c: &Vec<PeerCapability>) -> (r: Vec<String>)
    ensures
        string_views(r@) == capability_names(c@),
{
    let mut out: Vec<String> = Vec::new();
    let mut i: usize = 0;
    while i < c.len()
        invariant
            i <= c@.len(),
            out@.len() == i,
            forall|k: int| 0 <= k < i ==> (#[trigger] out@[k])@ == capability_name_spec(c@[k]),
        decreases c@.len() - i,
    {
        out.push(owned(c[i].as_str()));
        i = i + 1;
    }
    assert(string_views(out@) =~= capability_names(c@));
    out
}

fn copy_opt(o: &Option<String>) -> (r: Option<String>)
    ensures
        opt_view(r) == opt_view(*o),
{
    match o {
        Some(s) => Some(copy_string(s)),
        None => None,
    }
}

fn contact_entry(member: &MemberProfile, device: &Device, runtime: Option<&DiscoveredPeer>) -> (r: PeerView)
    ensures
        contact_peer_entry(r, member@, device@, match runtime {
            Some(p) => Some(*p),
            None => None,
        }),
{
    let verified = device.is_verified();
    let trust_label = if verified { owned("verified") } else { owned("pending") };
    match runtime {
        Some(p) => PeerView {
            member_id: owned(member.member_id().as_str()),
            device_id: owned(device.device_id().as_str()),
            device_name: owned(device.device_name()),
            endpoint: match p.endpoint() {
                Some(a) => socket_address_string(&a),
                None => owned("unknown endpoint"),
            },
            hostname: copy_opt(&p.hostname),
            capabilities: capability_strings(&p.capabilities),
            state: if verified { PeerStateCode::Live } else { PeerStateCode::Reconnecting },
            trust_label,
            last_seen_label: if verified {
                owned("runtime session active")
            } else {
                owned("runtime reachable, verification pending")
            },
        },
        None => PeerView {
            member_id: owned(member.member_id().as_str()),
            device_id: owned(device.device_id().as_str()),
            device_name: owned(device.device_name()),
            endpoint: owned("unknown endpoint"),
            hostname: None,
            capabilities: Vec::new(),
            state: PeerStateCode::Dormant,
            trust_label,
            last_seen_label: owned("no active runtime"),
        },
    }
}

fn discovered_entry(p: &DiscoveredPeer) -> (r: PeerView)
    ensures
        discovered_peer_entry(r, *p),
{
    PeerView {
        member_id: owned(p.member_id.as_str()),
        device_id: owned(p.device_id.as_str()),
        device_name: copy_string(&p.device_name),
        endpoint: match p.socket_address {
            Some(a) => socket_address_string(&a),
            None => owned("discovering..."),
        },
        hostname: copy_opt(&p.hostname),
        capabilities: capability_strings(&p.capabilities),
        state: PeerStateCode::Dormant,
        trust_label: owned("new peer"),
        last_seen_label: owned("discovered via mDNS"),
    }
}

/// The peer list: every contact's device in order (see
/// `contact_peer_entry`), each with the runtime of its device id if any,
/// then every discovered peer that no contact owns (see
/// `discovered_peer_entry`).
pub fn peer_views(
    contacts: &Vec<MemberProfile>,
    runtimes: &Vec<(String, DiscoveredPeer)>,
    discovered: &Vec<DiscoveredPeer>,
) -> (r: Vec<PeerView>)
    ensures
        ({
            let flat = flat_devices(contact_views(contacts@));
            let fresh = new_peers(discovered@, contact_views(contacts@));
            &&& r@.len() == flat.len() + fresh.len()
            &&& forall|k: int| 0 <= k < flat.len() ==> contact_peer_entry(
                #[trigger] r@[k],
                flat[k].0,
                flat[k].1,
                runtime_peer(runtimes@, flat[k].1.device_id),
            )
            &&& forall|k: int| 0 <= k < fresh.len() ==> discovered_peer_entry(#[trigger] r@[flat.len() + k], fresh[k])
        }),
{
    let ghost cs = contact_views(contacts@);
    let mut out: Vec<PeerView> = Vec::new();
    let mut i: usize = 0;
    assert(cs.take(0) =~= Seq::<MemberProfileView>::empty());
    while i < contacts.len()
        invariant
            i <= contacts@.len(),
            cs == contact_views(contacts@),
            out@.len() == flat_devices(cs.take(i as int)).len(),
            forall|k: int| 0 <= k < out@.len() ==> contact_peer_entry(
                #[trigger] out@[k],
                flat_devices(cs.take(i as int))[k].0,
                flat_devices(cs.take(i as int))[k].1,
                runtime_peer(runtimes@, flat_devices(cs.take(i as int))[k].1.device_id),
            ),
        decreases contacts@.len() - i,
    {
        let member = &contacts[i];
        let member_devices = member.devices();
        let ghost base = out@.len();
        let ghost prev = flat_devices(cs.take(i as int));
        let ghost m = cs[i as int];
        assert(m == member@);
        let mut j: usize = 0;
        while j < member_devices.len()
            invariant
                j <= member_devices@.len(),
                m == member@,
                member_devices@.map_values(|d: Device| d@) == m.devices,
                out@.len() == base + j,
                base == prev.len(),
                forall|k: int| 0 <= k < base ==> contact_peer_entry(
                    #[trigger] out@[k],
                    prev[k].0,
                    prev[k].1,
                    runtime_peer(runtimes@, prev[k].1.device_id),
                ),
                forall|k: int| 0 <= k < j ==> contact_peer_entry(
                    #[trigger] out@[base + k],
                    m,
                    m.devices[k],
                    runtime_peer(runtimes@, m.devices[k].device_id),
                ),
            decreases member_devices@.len() - j,
        {
            let device = &member_devices[j];
            proof {
                assert(m.devices[j as int] == member_devices@[j as int]@);
            }
            let entry = match find_runtime_peer(runtimes, device.device_id().as_str()) {
                Some(ri) => contact_entry(member, device, Some(&runtimes[ri].1)),
                None => contact_entry(member, device, None),
            };
            out.push(entry);
            j = j + 1;
        }
        proof {
            let next = cs.take(i + 1);
            assert(next.drop_last() =~= cs.take(i as int));
            assert(next.last() == m);
            let added = m.devices.map_values(|d: DeviceView| (m, d));
            assert(flat_devices(next) == prev + added);
            assert forall|k: int| 0 <= k < out@.len() implies contact_peer_entry(
                #[trigger] out@[k],
                flat_devices(next)[k].0,
                flat_devices(next)[k].1,
                runtime_peer(runtimes@, flat_devices(next)[k].1.device_id),
            ) by {
                if k < base {
                    assert(flat_devices(next)[k] == prev[k]);
                } else {
                    assert(flat_devices(next)[k] == added[k - base]);
                    assert(out@[k] == out@[base + (k - base)]);
                }
            }
        }
        i = i + 1;
    }
    assert(cs.take(i as int) =~= cs);
    let ghost flat = flat_devices(cs);
    let ghost base = out@.len();
    let mut d: usize = 0;
    assert(discovered@.take(0) =~= Seq::<DiscoveredPeer>::empty());
    while d < discovered.len()
        invariant
            d <= discovered@.len(),
            cs == contact_views(contacts@),
            flat == flat_devices(cs),
            base == flat.len(),
            out@.len() == base + new_peers(discovered@.take(d as int), cs).len(),
            forall|k: int| 0 <= k < base ==> contact_peer_entry(
                #[trigger] out@[k],
                flat[k].0,
                flat[k].1,
                runtime_peer(runtimes@, flat[k].1.device_id),
            ),
            forall|k: int| 0 <= k < new_peers(discovered@.take(d as int), cs).len() ==> discovered_peer_entry(
                #[trigger] out@[base + k],
                new_peers(discovered@.take(d as int), cs)[k],
            ),
        decreases discovered@.len() - d,
    {
        let peer = &discovered[d];
        let known = locate_device(contacts, peer.device_id.as_str()).is_some();
        proof {
            assert(discovered@.take(d + 1).drop_last() =~= discovered@.take(d as int));
            assert(discovered@.take(d + 1).last() == discovered@[d as int]);
        }
        if !known {
            out.push(discovered_entry(peer));
            proof {
                let np = new_peers(discovered@.take(d + 1), cs);
                assert forall|k: int| 0 <= k < np.len() implies discovered_peer_entry(#[trigger] out@[base + k], np[k]) by {
                    if k < np.len() - 1 {
                        assert(np[k] == new_peers(discovered@.take(d as int), cs)[k]);
                    }
                }
            }
        }
        d = d + 1;
    }
    assert(discovered@.take(d as int) =~= discovered@);
    out
}

} // verus!
