//! The peers a device currently sees on the local network, by device id,
//! with the time each was last seen; peers not seen for long enough expire.
//! Times are milliseconds on the caller's monotonic clock.

use vstd::prelude::*;
use crate::bytes::bytes_eq;
use crate::device::{compare_chars, lemma_lex_antisymmetric, lemma_lex_transitive, lex_order_chars};
use crate::discovery::peer::{DiscoveredPeer, IpAddress, PeerCapability, SocketAddress};
use crate::member::lemma_lex_order_zero_equal;
use crate::text::{copy_string, owned, str_eq};

verus! {

/// The service type peers announce.
pub const DEFAULT_SERVICE_TYPE: &'static str = "_localmsg._udp";

/// How discovery browses and when peers expire, in milliseconds.
#[derive(Debug, Clone)]
pub struct DiscoveryConfig {
    pub service_type: String,
    pub browse_interval_ms: u64,
    pub stale_after_ms: u64,
    pub prune_interval_ms: u64,
    pub event_channel_capacity: usize,
}

impl DiscoveryConfig {
    /// Browse every 15 s, expire after 45 s, prune every 5 s, 64 queued events.
    pub fn default_config() -> (r: DiscoveryConfig)
        ensures
            r.service_type@ == DEFAULT_SERVICE_TYPE@,
            r.browse_interval_ms == 15_000,
            r.stale_after_ms == 45_000,
            r.prune_interval_ms == 5_000,
            r.event_channel_capacity == 64,
    {
        DiscoveryConfig {
            service_type: owned(DEFAULT_SERVICE_TYPE),
            browse_interval_ms: 15_000,
            stale_after_ms: 45_000,
            prune_interval_ms: 5_000,
            event_channel_capacity: 64,
        }
    }
}

/// A discovered peer as plain values.
pub struct PeerView {
    pub service_instance: Seq<char>,
    pub member_id: Seq<char>,
    pub device_id: Seq<char>,
    pub device_name: Seq<char>,
    pub port: u16,
    pub socket_address: Option<SocketAddress>,
    pub hostname: Option<Seq<char>>,
    pub capabilities: Seq<PeerCapability>,
}

pub open spec fn peer_view(p: &DiscoveredPeer) -> PeerView {
    PeerView {
        service_instance: p.service_instance@,
        member_id: p.member_id@,
        device_id: p.device_id@,
        device_name: p.device_name@,
        port: p.port,
        socket_address: p.socket_address,
        hostname: match p.hostname {
            Some(h) => Some(h@),
            None => None,
        },
        capabilities: p.capabilities@,
    }
}

fn same_ip(a: &IpAddress, b: &IpAddress) -> (r: bool)
    ensures
        r == (*a == *b),
{
    match (a, b) {
        (IpAddress::V4(x), IpAddress::V4(y)) => {
            let e = bytes_eq(x, y);
            proof {
                if e {
                    assert(x@ =~= y@);
                    assert(*x == *y);
                }
            }
            e
        },
        (IpAddress::V6(x), IpAddress::V6(y)) => {
            let e = bytes_eq(x, y);
            proof {
                if e {
                    assert(x@ =~= y@);
                    assert(*x == *y);
                }
            }
            e
        },
        _ => false,
    }
}

fn same_socket(a: &Option<SocketAddress>, b: &Option<SocketAddress>) -> (r: bool)
    ensures
        r == (*a == *b),
{
    match (a, b) {
        (Some(x), Some(y)) => x.port == y.port && same_ip(&x.ip, &y.ip),
        (None, None) => true,
        _ => false,
    }
}

/// Whether two discovered peers are the same in every field.
pub fn same_peer(a: &DiscoveredPeer, b: &DiscoveredPeer) -> (r: bool)
    ensures
        r == (peer_view(a) == peer_view(b)),
{
    if !str_eq(a.service_instance.as_str(), b.service_instance.as_str()) || !a.member_id.same_as(&b.member_id)
        || !a.device_id.same_as(&b.device_id) || !str_eq(a.device_name.as_str(), b.device_name.as_str())
        || a.port != b.port || !same_socket(&a.socket_address, &b.socket_address) {
        return false;
    }
    let hosts_equal = match (&a.hostname, &b.hostname) {
        (Some(x), Some(y)) => str_eq(x.as_str(), y.as_str()),
        (None, None) => true,
        _ => false,
    };
    if !hosts_equal {
        return false;
    }
    if a.capabilities.len() != b.capabilities.len() {
        return false;
    }
    let mut i: usize = 0;
    while i < a.capabilities.len()
        invariant
            i <= a.capabilities@.len(),
            a.capabilities@.len() == b.capabilities@.len(),
            forall|j: int| 0 <= j < i ==> a.capabilities@[j] == b.capabilities@[j],
        decreases a.capabilities@.len() - i,
    {
        if a.capabilities[i] != b.capabilities[i] {
            return false;
        }
        i = i + 1;
    }
    assert(a.capabilities@ =~= b.capabilities@);
    true
}

/// A copy of a discovered peer.
pub fn copy_peer(p: &DiscoveredPeer) -> (r: DiscoveredPeer)
    ensures
        peer_view(&r) == peer_view(p),
{
    let mut caps: Vec<PeerCapability> = Vec::new();
    let mut i: usize = 0;
    while i < p.capabilities.len()
        invariant
            i <= p.capabilities@.len(),
            caps@ == p.capabilities@.subrange(0, i as int),
        decreases p.capabilities@.len() - i,
    {
        caps.push(p.capabilities[i]);
        i = i + 1;
        assert(caps@ =~= p.capabilities@.subrange(0, i as int));
    }
    assert(p.capabilities@.subrange(0, i as int) =~= p.capabilities@);
    DiscoveredPeer {
        service_instance: copy_string(&p.service_instance),
        member_id: p.member_id.duplicate(),
        device_id: p.device_id.duplicate(),
        device_name: copy_string(&p.device_name),
        port: p.port,
        socket_address: p.socket_address,
        hostname: match &p.hostname {
            Some(h) => Some(copy_string(h)),
            None => None,
        },
        capabilities: caps,
    }
}

/// What a change to the registry was.
#[derive(Debug, Clone, PartialEq, Eq)]
pub enum RegistryChange {
    Added(DiscoveredPeer),
    Updated(DiscoveredPeer),
    Expired(DiscoveredPeer),
    Unchanged,
}

/// A peer and when it was last seen.
pub struct EntryView {
    pub peer: PeerView,
    pub last_seen: u64,
}

struct PeerEntry {
    peer: DiscoveredPeer,
    last_seen: u64,
}

/// The peers seen, by device id in ascending order.
pub struct PeerRegistry {
    stale_after_ms: u64,
    entries: Vec<PeerEntry>,
}

spec fn entry_view(e: PeerEntry) -> EntryView {
    EntryView { peer: peer_view(&e.peer), last_seen: e.last_seen }
}

/// Entries in strictly ascending device-id order.
pub open spec fn sorted_entries(s: Seq<EntryView>) -> bool {
    forall|i: int, j: int| 0 <= i < j < s.len() ==> lex_order_chars(#[trigger] s[i].peer.device_id, #[trigger] s[j].peer.device_id) < 0
}

/// The entry of each device id.
pub open spec fn entry_map(s: Seq<EntryView>) -> Map<Seq<char>, EntryView> {
    Map::new(
        |d: Seq<char>| exists|i: int| 0 <= i < s.len() && #[trigger] s[i].peer.device_id == d,
        |d: Seq<char>| s[choose|i: int| 0 <= i < s.len() && #[trigger] s[i].peer.device_id == d],
    )
}

/// Whether an entry has not been seen for `stale_after` by `now`; a clock
/// that went backwards counts as no time passed.
pub open spec fn is_stale(e: EntryView, now: u64, stale_after: u64) -> bool {
    (if now >= e.last_seen { now - e.last_seen } else { 0 }) >= stale_after
}

/// The entries that stay, in order.
pub open spec fn kept_entries(s: Seq<EntryView>, now: u64, stale_after: u64) -> Seq<EntryView>
    decreases s.len(),
{
    if s.len() == 0 {
        Seq::empty()
    } else if is_stale(s.last(), now, stale_after) {
        kept_entries(s.drop_last(), now, stale_after)
    } else {
        kept_entries(s.drop_last(), now, stale_after).push(s.last())
    }
}

/// The entries that expire, in order.
pub open spec fn expired_entries(s: Seq<EntryView>, now: u64, stale_after: u64) -> Seq<EntryView>
    decreases s.len(),
{
    if s.len() == 0 {
        Seq::empty()
    } else if is_stale(s.last(), now, stale_after) {
        expired_entries(s.drop_last(), now, stale_after).push(s.last())
    } else {
        expired_entries(s.drop_last(), now, stale_after)
    }
}

impl PeerRegistry {
    pub closed spec fn entries(&self) -> Seq<EntryView> {
        self.entries@.map_values(|e: PeerEntry| entry_view(e))
    }

    pub closed spec fn stale_after(&self) -> u64 {
        self.stale_after_ms
    }

    pub closed spec fn wf(&self) -> bool {
        sorted_entries(self.entries())
    }

    /// The entry of each device id.
    pub open spec fn map(&self) -> Map<Seq<char>, EntryView> {
        entry_map(self.entries())
    }

    pub fn new(stale_after_ms: u64) -> (r: PeerRegistry)
        ensures
            r.wf(),
            r.stale_after() == stale_after_ms,
            r.entries() == Seq::<EntryView>::empty(),
    {
        let r = PeerRegistry { stale_after_ms, entries: Vec::new() };
        assert(r.entries() =~= Seq::<EntryView>::empty());
        r
    }

    proof fn lemma_absent(&self, d: Seq<char>, k: int)
        requires
            0 <= k <= self.entries().len(),
            forall|i: int| 0 <= i < k ==> lex_order_chars(#[trigger] self.entries()[i].peer.device_id, d) < 0,
            forall|i: int| k <= i < self.entries().len() ==> lex_order_chars(d, #[trigger] self.entries()[i].peer.device_id) < 0,
        ensures
            !self.map().contains_key(d),
    {
        if self.map().contains_key(d) {
            let i = choose|i: int| 0 <= i < self.entries().len() && #[trigger] self.entries()[i].peer.device_id == d;
            lemma_lex_order_zero_equal(self.entries()[i].peer.device_id, d);
            lemma_lex_order_zero_equal(d, self.entries()[i].peer.device_id);
        }
    }

    proof fn lemma_map_index(&self, i: int)
        requires
            self.wf(),
            0 <= i < self.entries().len(),
        ensures
            self.map().contains_key(self.entries()[i].peer.device_id),
            self.map()[self.entries()[i].peer.device_id] == self.entries()[i],
    {
        let d = self.entries()[i].peer.device_id;
        assert(exists|j: int| 0 <= j < self.entries().len() && #[trigger] self.entries()[j].peer.device_id == d);
        let j = choose|j: int| 0 <= j < self.entries().len() && #[trigger] self.entries()[j].peer.device_id == d;
        if j != i {
            lemma_lex_order_zero_equal(self.entries()[i].peer.device_id, self.entries()[j].peer.device_id);
            lemma_lex_order_zero_equal(self.entries()[j].peer.device_id, self.entries()[i].peer.device_id);
        }
    }

    /// Where the device is, or where it would go.
    fn locate(&self, device_id: &str) -> (r: (usize, bool))
        requires
            self.wf(),
        ensures
            r.0 <= self.entries().len(),
            r.1 ==> r.0 < self.entries().len() && self.entries()[r.0 as int].peer.device_id == device_id@,
            !r.1 ==> !self.map().contains_key(device_id@),
            !r.1 ==> forall|i: int| 0 <= i < r.0 ==> lex_order_chars(#[trigger] self.entries()[i].peer.device_id, device_id@) < 0,
            !r.1 ==> forall|i: int| r.0 <= i < self.entries().len() ==> lex_order_chars(device_id@, #[trigger] self.entries()[i].peer.device_id) < 0,
    {
        let n = self.entries.len();
        let mut i: usize = 0;
        while i < n
            invariant
                n == self.entries().len(),
                n == self.entries@.len(),
                i <= n,
                self.wf(),
                forall|j: int| 0 <= j < i ==> lex_order_chars(#[trigger] self.entries()[j].peer.device_id, device_id@) < 0,
            decreases n - i,
        {
            let c = compare_chars(self.entries[i].peer.device_id.as_str(), device_id);
            proof {
                assert(self.entries()[i as int] == entry_view(self.entries@[i as int]));
            }
            if c == 0 {
                proof {
                    lemma_lex_order_zero_equal(self.entries()[i as int].peer.device_id, device_id@);
                }
                return (i, true);
            }
            if c > 0 {
                proof {
                    lemma_lex_antisymmetric(self.entries()[i as int].peer.device_id, device_id@);
                    assert forall|j: int| i <= j < self.entries().len() implies lex_order_chars(device_id@, #[trigger] self.entries()[j].peer.device_id) < 0 by {
                        if j > i {
                            lemma_lex_transitive(device_id@, self.entries()[i as int].peer.device_id, self.entries()[j].peer.device_id);
                        }
                    }
                    self.lemma_absent(device_id@, i as int);
                }
                return (i, false);
            }
            proof {
                lemma_lex_antisymmetric(self.entries()[i as int].peer.device_id, device_id@);
            }
            i = i + 1;
        }
        proof {
            self.lemma_absent(device_id@, n as int);
        }
        (n, false)
    }
}

impl PeerRegistry {
    /// Records that a peer was seen: a new device is added, a changed peer
    /// replaces the old one, and an unchanged one only has its time updated.
    pub fn upsert_at(&mut self, peer: DiscoveredPeer, seen_at_ms: u64) -> (r: RegistryChange)
        requires
            old(self).wf(),
        ensures
            final(self).wf(),
            final(self).stale_after() == old(self).stale_after(),
            final(self).map() == old(self).map().insert(
                peer_view(&peer).device_id,
                EntryView { peer: peer_view(&peer), last_seen: seen_at_ms },
            ),
            old(self).map().contains_key(peer_view(&peer).device_id) && old(self).map()[peer_view(&peer).device_id].peer
                == peer_view(&peer) ==> (r matches RegistryChange::Unchanged) && final(self).entries().len()
                == old(self).entries().len(),
            old(self).map().contains_key(peer_view(&peer).device_id) && old(self).map()[peer_view(&peer).device_id].peer
                != peer_view(&peer) ==> (r matches RegistryChange::Updated(p) && peer_view(&p) == peer_view(&peer))
                && final(self).entries().len() == old(self).entries().len(),
            !old(self).map().contains_key(peer_view(&peer).device_id) ==> (r matches RegistryChange::Added(p)
                && peer_view(&p) == peer_view(&peer)) && final(self).entries().len() == old(self).entries().len() + 1,
    {
        let ghost pv = peer_view(&peer);
        let ghost d = pv.device_id;
        let ghost ev = EntryView { peer: pv, last_seen: seen_at_ms };
        let ghost before = self.entries();
        let (k, found) = self.locate(peer.device_id.as_str());
        if found {
            proof {
                self.lemma_map_index(k as int);
                assert(self.entries()[k as int] == entry_view(self.entries@[k as int]));
            }
            let unchanged = same_peer(&self.entries[k].peer, &peer);
            let copy = copy_peer(&peer);
            self.entries.set(k, PeerEntry { peer, last_seen: seen_at_ms });
            proof {
                assert(self.entries() =~= before.update(k as int, ev));
                assert forall|i: int, j: int| 0 <= i < j < self.entries().len() implies lex_order_chars(#[trigger] self.entries()[i].peer.device_id, #[trigger] self.entries()[j].peer.device_id) < 0 by {
                    assert(before[i].peer.device_id == self.entries()[i].peer.device_id);
                    assert(before[j].peer.device_id == self.entries()[j].peer.device_id);
                }
                assert(self.wf());
                assert forall|x: Seq<char>| #[trigger] self.map().contains_key(x) == old(self).map().insert(d, ev).contains_key(x) by {
                    if self.map().contains_key(x) {
                        let i = choose|i: int| 0 <= i < self.entries().len() && #[trigger] self.entries()[i].peer.device_id == x;
                        assert(before[i].peer.device_id == x);
                    }
                    if old(self).map().contains_key(x) {
                        let i = choose|i: int| 0 <= i < before.len() && #[trigger] before[i].peer.device_id == x;
                        assert(self.entries()[i].peer.device_id == x);
                    }
                    if x == d {
                        assert(self.entries()[k as int].peer.device_id == x);
                    }
                }
                assert forall|x: Seq<char>| #[trigger] self.map().contains_key(x) implies self.map()[x] == old(self).map().insert(d, ev)[x] by {
                    let i = choose|i: int| 0 <= i < self.entries().len() && #[trigger] self.entries()[i].peer.device_id == x;
                    self.lemma_map_index(i);
                    if i != k {
                        old(self).lemma_map_index(i);
                        assert(before[i] == self.entries()[i]);
                        if x == d {
                            lemma_lex_order_zero_equal(self.entries()[i].peer.device_id, self.entries()[k as int].peer.device_id);
                            lemma_lex_order_zero_equal(self.entries()[k as int].peer.device_id, self.entries()[i].peer.device_id);
                        }
                    } else {
                        assert(self.entries()[k as int] == ev);
                    }
                }
                assert(self.map() =~= old(self).map().insert(d, ev));
            }
            if unchanged {
                RegistryChange::Unchanged
            } else {
                RegistryChange::Updated(copy)
            }
        } else {
            let copy = copy_peer(&peer);
            self.entries.insert(k, PeerEntry { peer, last_seen: seen_at_ms });
            proof {
                assert(self.entries() =~= before.insert(k as int, ev));
                assert forall|i: int, j: int| 0 <= i < j < self.entries().len() implies lex_order_chars(#[trigger] self.entries()[i].peer.device_id, #[trigger] self.entries()[j].peer.device_id) < 0 by {
                    if j < k {
                        assert(self.entries()[i] == before[i] && self.entries()[j] == before[j]);
                    } else if j == k {
                        assert(self.entries()[i] == before[i]);
                    } else if i == k {
                        assert(self.entries()[j] == before[j - 1]);
                    } else if i < k {
                        assert(self.entries()[i] == before[i] && self.entries()[j] == before[j - 1]);
                        lemma_lex_transitive(before[i].peer.device_id, d, before[j - 1].peer.device_id);
                    } else {
                        assert(self.entries()[i] == before[i - 1] && self.entries()[j] == before[j - 1]);
                    }
                }
                assert(self.wf());
                assert forall|x: Seq<char>| #[trigger] self.map().contains_key(x) == old(self).map().insert(d, ev).contains_key(x) by {
                    if self.map().contains_key(x) {
                        let i = choose|i: int| 0 <= i < self.entries().len() && #[trigger] self.entries()[i].peer.device_id == x;
                        if i < k {
                            assert(before[i].peer.device_id == x);
                        } else if i > k {
                            assert(before[i - 1].peer.device_id == x);
                        }
                    }
                    if old(self).map().contains_key(x) {
                        let i = choose|i: int| 0 <= i < before.len() && #[trigger] before[i].peer.device_id == x;
                        if i < k {
                            assert(self.entries()[i].peer.device_id == x);
                        } else {
                            assert(self.entries()[i + 1].peer.device_id == x);
                        }
                    }
                    if x == d {
                        assert(self.entries()[k as int].peer.device_id == x);
                    }
                }
                assert forall|x: Seq<char>| #[trigger] self.map().contains_key(x) implies self.map()[x] == old(self).map().insert(d, ev)[x] by {
                    let i = choose|i: int| 0 <= i < self.entries().len() && #[trigger] self.entries()[i].peer.device_id == x;
                    self.lemma_map_index(i);
                    if i < k {
                        old(self).lemma_map_index(i);
                    } else if i > k {
                        old(self).lemma_map_index(i - 1);
                    }
                }
                assert(self.map() =~= old(self).map().insert(d, ev));
            }
            RegistryChange::Added(copy)
        }
    }

    /// Removes every peer not seen for the stale period by `now_ms`, and
    /// reports each, in device-id order.
    pub fn expire_stale_at(&mut self, now_ms: u64) -> (r: Vec<RegistryChange>)
        requires
            old(self).wf(),
        ensures
            final(self).wf(),
            final(self).stale_after() == old(self).stale_after(),
            final(self).entries() == kept_entries(old(self).entries(), now_ms, old(self).stale_after()),
            r@.len() == expired_entries(old(self).entries(), now_ms, old(self).stale_after()).len(),
            forall|i: int| 0 <= i < r@.len() ==> (#[trigger] r@[i] matches RegistryChange::Expired(p) && peer_view(&p)
                == expired_entries(old(self).entries(), now_ms, old(self).stale_after())[i].peer),
    {
        let ghost s = old(self).entries();
        let ghost stale = self.stale_after_ms;
        let mut old_entries: Vec<PeerEntry> = Vec::new();
        std::mem::swap(&mut old_entries, &mut self.entries);
        assert(old_entries@.map_values(|e: PeerEntry| entry_view(e)) == s);
        let mut kept: Vec<PeerEntry> = Vec::new();
        let mut expired: Vec<RegistryChange> = Vec::new();
        let n = old_entries.len();
        let mut i: usize = 0;
        assert(s.take(0) =~= Seq::<EntryView>::empty());
        while i < n
            invariant
                n == s.len(),
                n == old_entries@.len(),
                i <= n,
                stale == old(self).stale_after(),
                self.stale_after_ms == stale,
                sorted_entries(s),
                forall|j: int| 0 <= j < n ==> #[trigger] entry_view(old_entries@[j]) == s[j],
                kept@.map_values(|e: PeerEntry| entry_view(e)) == kept_entries(s.take(i as int), now_ms, stale),
                sorted_entries(kept_entries(s.take(i as int), now_ms, stale)),
                kept@.len() > 0 && i < n ==> lex_order_chars(entry_view(kept@.last()).peer.device_id, s[i as int].peer.device_id) < 0,
                expired@.len() == expired_entries(s.take(i as int), now_ms, stale).len(),
                forall|j: int| 0 <= j < expired@.len() ==> (#[trigger] expired@[j] matches RegistryChange::Expired(p)
                    && peer_view(&p) == expired_entries(s.take(i as int), now_ms, stale)[j].peer),
            decreases n - i,
        {
            let e = &old_entries[i];
            let ghost ks = kept_entries(s.take(i as int), now_ms, stale);
            proof {
                assert(s.take(i + 1).drop_last() =~= s.take(i as int));
                assert(s.take(i + 1).last() == s[i as int]);
                assert(entry_view(*e) == s[i as int]);
            }
            let age = if now_ms >= e.last_seen { now_ms - e.last_seen } else { 0 };
            if age >= self.stale_after_ms {
                expired.push(RegistryChange::Expired(copy_peer(&e.peer)));
                proof {
                    if kept@.len() > 0 && i + 1 < n {
                        lemma_lex_transitive(entry_view(kept@.last()).peer.device_id, s[i as int].peer.device_id, s[i + 1].peer.device_id);
                    }
                }
            } else {
                let ghost before_kept = kept@;
                kept.push(PeerEntry { peer: copy_peer(&e.peer), last_seen: e.last_seen });
                proof {
                    assert(kept@.map_values(|e: PeerEntry| entry_view(e)) =~= ks.push(s[i as int]));
                    assert forall|a: int, b: int| 0 <= a < b < ks.len() + 1 implies lex_order_chars(#[trigger] ks.push(s[i as int])[a].peer.device_id, #[trigger] ks.push(s[i as int])[b].peer.device_id) < 0 by {
                        if b == ks.len() {
                            let last = ks.last();
                            assert(last == entry_view(before_kept.last()));
                            if a < ks.len() - 1 {
                                lemma_lex_transitive(ks[a].peer.device_id, last.peer.device_id, s[i as int].peer.device_id);
                            }
                        }
                    }
                }
            }
            i = i + 1;
        }
        assert(s.take(n as int) =~= s);
        self.entries = kept;
        expired
    }

    /// The peers in device-id order.
    pub fn snapshot(&self) -> (r: Vec<DiscoveredPeer>)
        ensures
            r@.len() == self.entries().len(),
            forall|i: int| 0 <= i < r@.len() ==> peer_view(&#[trigger] r@[i]) == self.entries()[i].peer,
    {
        let mut out: Vec<DiscoveredPeer> = Vec::new();
        let mut i: usize = 0;
        while i < self.entries.len()
            invariant
                i <= self.entries@.len(),
                self.entries() == self.entries@.map_values(|e: PeerEntry| entry_view(e)),
                out@.len() == i,
                forall|j: int| 0 <= j < i ==> peer_view(&#[trigger] out@[j]) == self.entries()[j].peer,
            decreases self.entries@.len() - i,
        {
            out.push(copy_peer(&self.entries[i].peer));
            i = i + 1;
        }
        out
    }

    /// How many peers are known.
    pub fn len(&self) -> (r: usize)
        ensures
            r == self.entries().len(),
    {
        self.entries.len()
    }
}

} // verus!
