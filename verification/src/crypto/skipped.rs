//! The message keys a Double Ratchet keeps for messages that have not arrived
//! yet, by the sender's ratchet key and the message number.

use vstd::prelude::*;
use crate::bytes::bytes_eq;
use crate::crypto::kdf::{MessageKeyMaterial, MessageKeyView};

verus! {

/// Which message a skipped key opens: the sender's ratchet key and the number.
pub type SkipId = (Seq<u8>, u32);

/// No two entries of the list share a key.
pub open spec fn unique_ids(s: Seq<(SkipId, MessageKeyView)>) -> bool {
    forall|i: int, j: int| 0 <= i < s.len() && 0 <= j < s.len() && i != j ==> #[trigger] s[i].0 != #[trigger] s[j].0
}

/// The map an association list with unique keys denotes.
pub open spec fn id_map(s: Seq<(SkipId, MessageKeyView)>) -> Map<SkipId, MessageKeyView> {
    Map::new(
        |k: SkipId| exists|i: int| 0 <= i < s.len() && #[trigger] s[i].0 == k,
        |k: SkipId| s[choose|i: int| 0 <= i < s.len() && #[trigger] s[i].0 == k].1,
    )
}

proof fn lemma_id_map_index(s: Seq<(SkipId, MessageKeyView)>, i: int)
    requires
        unique_ids(s),
        0 <= i < s.len(),
    ensures
        id_map(s).contains_key(s[i].0),
        id_map(s)[s[i].0] == s[i].1,
{
    let k = s[i].0;
    assert(exists|j: int| 0 <= j < s.len() && #[trigger] s[j].0 == k);
}

proof fn lemma_id_dom_len(s: Seq<(SkipId, MessageKeyView)>)
    requires
        unique_ids(s),
    ensures
        id_map(s).dom().len() == s.len(),
        id_map(s).dom().finite(),
    decreases s.len(),
{
    if s.len() == 0 {
        assert(id_map(s).dom() =~= Set::<SkipId>::empty());
    } else {
        let t = s.drop_last();
        assert(unique_ids(t));
        lemma_id_dom_len(t);
        let k = s.last().0;
        assert(id_map(s).dom() =~= id_map(t).dom().insert(k)) by {
            assert forall|x: SkipId| #[trigger] id_map(s).dom().contains(x) == id_map(t).dom().insert(k).contains(x) by {
                if id_map(s).dom().contains(x) && x != k {
                    let i = choose|i: int| 0 <= i < s.len() && s[i].0 == x;
                    assert(t[i].0 == x);
                }
                if id_map(t).dom().contains(x) {
                    let i = choose|i: int| 0 <= i < t.len() && t[i].0 == x;
                    assert(s[i].0 == x);
                }
                if x == k {
                    assert(s[s.len() - 1].0 == k);
                }
            }
        }
        if id_map(t).dom().contains(k) {
            let i = choose|i: int| 0 <= i < t.len() && t[i].0 == k;
            assert(s[i].0 == s[s.len() - 1].0);
        }
    }
}

/// Skipped message keys.
pub struct SkippedKeys {
    entries: Vec<([u8; 32], u32, MessageKeyMaterial)>,
}

impl SkippedKeys {
    pub closed spec fn list(&self) -> Seq<(SkipId, MessageKeyView)> {
        self.entries@.map_values(|e: ([u8; 32], u32, MessageKeyMaterial)| ((e.0@, e.1), e.2@))
    }

    pub open spec fn map(&self) -> Map<SkipId, MessageKeyView> {
        id_map(self.list())
    }

    pub closed spec fn wf(&self) -> bool {
        unique_ids(self.list())
    }

    pub fn new() -> (r: SkippedKeys)
        ensures
            r.wf(),
            r.map() == Map::<SkipId, MessageKeyView>::empty(),
    {
        let r = SkippedKeys { entries: Vec::new() };
        assert(r.list() =~= Seq::<(SkipId, MessageKeyView)>::empty());
        assert(r.map() =~= Map::<SkipId, MessageKeyView>::empty());
        r
    }

    pub fn len(&self) -> (r: usize)
        requires
            self.wf(),
        ensures
            r == self.map().len(),
    {
        proof {
            lemma_id_dom_len(self.list());
        }
        self.entries.len()
    }

    fn find(&self, ratchet_public: &[u8; 32], message_number: u32) -> (r: Option<usize>)
        requires
            self.wf(),
        ensures
            self.list().len() == self.entries@.len(),
            match r {
                Some(i) => i < self.list().len() && self.list()[i as int].0 == (ratchet_public@, message_number),
                None => forall|i: int| 0 <= i < self.list().len() ==> #[trigger] self.list()[i].0 != (
                    ratchet_public@,
                    message_number,
                ),
            },
    {
        let n = self.entries.len();
        let mut i: usize = 0;
        while i < n
            invariant
                n == self.entries@.len(),
                i <= n,
                forall|j: int| 0 <= j < i ==> #[trigger] self.list()[j].0 != (ratchet_public@, message_number),
            decreases n - i,
        {
            if self.entries[i].1 == message_number && bytes_eq(&self.entries[i].0, ratchet_public) {
                return Some(i);
            }
            i = i + 1;
        }
        None
    }

    /// Removes and gives the key of a message, if kept.
    #[verifier::rlimit(40)]
    pub fn take(&mut self, ratchet_public: &[u8; 32], message_number: u32) -> (r: Option<MessageKeyMaterial>)
        requires
            old(self).wf(),
        ensures
            final(self).wf(),
            final(self).map() == old(self).map().remove((ratchet_public@, message_number)),
            match r {
                Some(v) => old(self).map().contains_key((ratchet_public@, message_number))
                    && old(self).map()[(ratchet_public@, message_number)] == v@,
                None => !old(self).map().contains_key((ratchet_public@, message_number)),
            },
    {
        let ghost old_list = self.list();
        let ghost k = (ratchet_public@, message_number);
        match self.find(ratchet_public, message_number) {
            None => {
                assert(self.map() =~= old(self).map().remove(k));
                None
            },
            Some(i) => {
                proof { lemma_id_map_index(old_list, i as int); }
                let (_, _, v) = self.entries.remove(i);
                proof {
                    let l = self.list();
                    assert(l =~= old_list.remove(i as int));
                    assert forall|a: int, b: int| 0 <= a < l.len() && 0 <= b < l.len() && a != b implies #[trigger] l[a].0 != #[trigger] l[b].0 by {
                        let aa = if a < i { a } else { a + 1 };
                        let bb = if b < i { b } else { b + 1 };
                        assert(old_list[aa].0 != old_list[bb].0);
                    }
                    assert forall|key: SkipId| #[trigger] self.map().contains_key(key) == old(self).map().remove(k).contains_key(key) by {
                        if self.map().contains_key(key) {
                            let j = choose|j: int| 0 <= j < l.len() && l[j].0 == key;
                            let jj = if j < i { j } else { j + 1 };
                            assert(old_list[jj].0 == key);
                            assert(jj != i);
                        }
                        if old(self).map().contains_key(key) && key != k {
                            let j = choose|j: int| 0 <= j < old_list.len() && old_list[j].0 == key;
                            let jj = if j < i { j } else { j - 1 };
                            assert(l[jj].0 == key);
                        }
                    }
                    assert forall|key: SkipId| #[trigger] self.map().contains_key(key) implies self.map()[key] == old(self).map().remove(k)[key] by {
                        let j = choose|j: int| 0 <= j < l.len() && l[j].0 == key;
                        let jj = if j < i { j } else { j + 1 };
                        lemma_id_map_index(l, j);
                        lemma_id_map_index(old_list, jj);
                    }
                    assert(self.map() =~= old(self).map().remove(k));
                }
                Some(v)
            },
        }
    }

    /// Keeps the key of a message, replacing one kept for the same message.
    #[verifier::rlimit(40)]
    pub fn insert(&mut self, ratchet_public: [u8; 32], message_number: u32, key: MessageKeyMaterial)
        requires
            old(self).wf(),
        ensures
            final(self).wf(),
            final(self).map() == old(self).map().insert((ratchet_public@, message_number), key@),
    {
        let ghost old_list = self.list();
        let ghost kv = (ratchet_public@, message_number);
        let ghost vv = key@;
        let ghost mut pos: int = 0;
        match self.find(&ratchet_public, message_number) {
            Some(i) => {
                self.entries.remove(i);
                self.entries.insert(i, (ratchet_public, message_number, key));
                proof {
                    pos = i as int;
                    assert(self.list() =~= old_list.update(i as int, (kv, vv)));
                }
            },
            None => {
                self.entries.push((ratchet_public, message_number, key));
                proof {
                    pos = old_list.len() as int;
                    assert(self.list() =~= old_list.push((kv, vv)));
                }
            },
        }
        proof {
            let l = self.list();
            assert forall|a: int, b: int| 0 <= a < l.len() && 0 <= b < l.len() && a != b implies #[trigger] l[a].0 != #[trigger] l[b].0 by {
                if a < old_list.len() && b < old_list.len() && l[a] == old_list[a] && l[b] == old_list[b] {
                    assert(old_list[a].0 != old_list[b].0);
                }
            }
            assert forall|k: SkipId| #[trigger] self.map().contains_key(k) == old(self).map().insert(kv, vv).contains_key(k) by {
                if self.map().contains_key(k) && k != kv {
                    let j = choose|j: int| 0 <= j < l.len() && l[j].0 == k;
                    assert(j != pos);
                    assert(old_list[j].0 == k);
                }
                if old(self).map().contains_key(k) {
                    let j = choose|j: int| 0 <= j < old_list.len() && old_list[j].0 == k;
                    if k != kv {
                        assert(l[j].0 == k);
                    }
                }
                if k == kv {
                    assert(l[pos].0 == kv);
                }
            }
            assert forall|k: SkipId| #[trigger] self.map().contains_key(k) implies self.map()[k] == old(self).map().insert(kv, vv)[k] by {
                let j = choose|j: int| 0 <= j < l.len() && l[j].0 == k;
                lemma_id_map_index(l, j);
                if k != kv {
                    assert(old_list[j].0 == k);
                    lemma_id_map_index(old_list, j);
                }
            }
            assert(self.map() =~= old(self).map().insert(kv, vv));
        }
    }
}

} // verus!
