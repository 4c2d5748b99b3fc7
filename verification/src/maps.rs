//! Small association maps: one keyed by `u64` in ascending key order, one
//! keyed by strings.  Their abstract values are `Map`s.

use vstd::prelude::*;

verus! {

/// The keys of an association list are strictly ascending.
pub open spec fn ascending<V>(s: Seq<(u64, V)>) -> bool {
    forall|i: int, j: int| 0 <= i < j < s.len() ==> #[trigger] s[i].0 < #[trigger] s[j].0
}

/// The map an association list with unique keys denotes.
pub open spec fn list_map<V>(s: Seq<(u64, V)>) -> Map<u64, V> {
    Map::new(
        |k: u64| exists|i: int| 0 <= i < s.len() && #[trigger] s[i].0 == k,
        |k: u64| s[choose|i: int| 0 <= i < s.len() && #[trigger] s[i].0 == k].1,
    )
}

/// The view of each stored value.
pub open spec fn view_entries<V: View>(s: Seq<(u64, V)>) -> Seq<(u64, V::V)> {
    s.map_values(|e: (u64, V)| (e.0, e.1@))
}

pub proof fn lemma_list_map_index<V>(s: Seq<(u64, V)>, i: int)
    requires
        ascending(s),
        0 <= i < s.len(),
    ensures
        list_map(s).contains_key(s[i].0),
        list_map(s)[s[i].0] == s[i].1,
{
    let k = s[i].0;
    assert(exists|j: int| 0 <= j < s.len() && #[trigger] s[j].0 == k);
    let j = choose|j: int| 0 <= j < s.len() && #[trigger] s[j].0 == k;
    if j < i {
        assert(s[j].0 < s[i].0);
    } else if j > i {
        assert(s[i].0 < s[j].0);
    }
}

/// A map from `u64` keys, stored in ascending key order.
pub struct OrderMap<V> {
    entries: Vec<(u64, V)>,
}

impl<V: View> OrderMap<V> {
    /// Entries in ascending key order, each value by its view.
    pub closed spec fn list(&self) -> Seq<(u64, V::V)> {
        view_entries(self.entries@)
    }

    pub open spec fn map(&self) -> Map<u64, V::V> {
        list_map(self.list())
    }

    pub closed spec fn wf(&self) -> bool {
        ascending(self.entries@)
    }

    pub proof fn lemma_wf(&self)
        requires
            self.wf(),
        ensures
            ascending(self.list()),
            self.list().len() == self.map().dom().len(),
            forall|i: int| 0 <= i < self.list().len() ==> self.map().contains_key(#[trigger] self.list()[i].0)
                && self.map()[self.list()[i].0] == self.list()[i].1,
            forall|k: u64| #[trigger] self.map().contains_key(k) ==> exists|i: int| 0 <= i < self.list().len() && self.list()[i].0 == k,
    {
        assert forall|i: int| 0 <= i < self.list().len() implies self.map().contains_key(#[trigger] self.list()[i].0)
            && self.map()[self.list()[i].0] == self.list()[i].1 by {
            lemma_list_map_index(self.list(), i);
        }
        lemma_dom_len(self.list());
    }

    pub fn new() -> (r: OrderMap<V>)
        ensures
            r.wf(),
            r.list() == Seq::<(u64, V::V)>::empty(),
            r.map() == Map::<u64, V::V>::empty(),
    {
        let r = OrderMap { entries: Vec::new() };
        assert(r.list() =~= Seq::<(u64, V::V)>::empty());
        assert(r.map() =~= Map::<u64, V::V>::empty());
        r
    }

    pub fn len(&self) -> (r: usize)
        requires
            self.wf(),
        ensures
            r == self.map().len(),
            r == self.list().len(),
    {
        proof { self.lemma_wf(); }
        self.entries.len()
    }

    /// The position of `k`, or where it would go.
    fn position(&self, k: u64) -> (r: (usize, bool))
        requires
            self.wf(),
        ensures
            r.0 <= self.list().len(),
            self.list().len() == self.entries@.len(),
            forall|i: int| 0 <= i < self.entries@.len() ==> #[trigger] self.list()[i].0 == self.entries@[i].0,
            forall|i: int| 0 <= i < r.0 ==> #[trigger] self.entries@[i].0 < k,
            r.1 <==> (r.0 < self.entries@.len() && self.entries@[r.0 as int].0 == k),
            !r.1 ==> forall|i: int| r.0 <= i < self.entries@.len() ==> #[trigger] self.entries@[i].0 > k,
    {
        let n = self.entries.len();
        let mut i: usize = 0;
        while i < n && self.entries[i].0 < k
            invariant
                n == self.entries@.len(),
                i <= n,
                forall|j: int| 0 <= j < i ==> #[trigger] self.entries@[j].0 < k,
            decreases n - i,
        {
            i = i + 1;
        }
        let found = i < n && self.entries[i].0 == k;
        proof {
            if !found && i < n {
                assert forall|j: int| i <= j < self.entries@.len() implies #[trigger] self.entries@[j].0 > k by {
                    if j > i {
                        assert(self.entries@[i as int].0 < self.entries@[j].0);
                    }
                }
            }
        }
        (i, found)
    }

    pub fn get(&self, k: u64) -> (r: Option<&V>)
        requires
            self.wf(),
        ensures
            match r {
                Some(v) => self.map().contains_key(k) && self.map()[k] == v@,
                None => !self.map().contains_key(k),
            },
    {
        let (i, found) = self.position(k);
        proof { self.lemma_wf(); }
        if found {
            proof { lemma_list_map_index(self.list(), i as int); }
            Some(&self.entries[i].1)
        } else {
            proof {
                if self.map().contains_key(k) {
                    let j = choose|j: int| 0 <= j < self.list().len() && self.list()[j].0 == k;
                    if j < i {
                        assert(self.list()[j].0 < k);
                    } else {
                        assert(self.list()[j].0 > k);
                    }
                }
            }
            None
        }
    }

    pub fn contains(&self, k: u64) -> (r: bool)
        requires
            self.wf(),
        ensures
            r == self.map().contains_key(k),
    {
        self.get(k).is_some()
    }

    /// Inserts or replaces the value of `k`.
    #[verifier::rlimit(60)]
    pub fn insert(&mut self, k: u64, v: V)
        requires
            old(self).wf(),
        ensures
            final(self).wf(),
            final(self).map() == old(self).map().insert(k, v@),
    {
        let ghost old_entries = self.entries@;
        let (i, found) = self.position(k);
        let ghost vv = v@;
        if found {
            self.entries.remove(i);
            self.entries.insert(i, (k, v));
            assert(self.entries@ =~= old_entries.update(i as int, (k, v)));
        } else {
            self.entries.insert(i, (k, v));
            assert(self.entries@ =~= old_entries.insert(i as int, (k, v)));
        }
        proof {
            assert forall|a: int, b: int| 0 <= a < b < self.entries@.len() implies #[trigger] self.entries@[a].0 < #[trigger] self.entries@[b].0 by {
                if found {
                    if a == i {
                        assert(old_entries[a].0 == k);
                    } else if b == i {
                        assert(old_entries[b].0 == k);
                    }
                } else {
                    if a == i {
                        assert(old_entries[b - 1].0 > k);
                    } else if b == i {
                        assert(old_entries[a].0 < k);
                    } else if a < i && b > i {
                        assert(old_entries[a].0 < k && old_entries[b - 1].0 > k);
                    } else if a > i {
                        assert(old_entries[a - 1].0 < old_entries[b - 1].0);
                    }
                }
            }
            self.lemma_wf();
            old(self).lemma_wf();
            assert forall|key: u64| #[trigger] self.map().contains_key(key) == old(self).map().insert(k, vv).contains_key(key) by {
                if self.map().contains_key(key) {
                    let j = choose|j: int| 0 <= j < self.list().len() && self.list()[j].0 == key;
                    if key != k {
                        let jj = if found || j < i { j } else { j - 1 };
                        assert(old(self).list()[jj].0 == key);
                    }
                }
                if old(self).map().contains_key(key) && key != k {
                    let j = choose|j: int| 0 <= j < old(self).list().len() && old(self).list()[j].0 == key;
                    let jj = if found || j < i { j } else { j + 1 };
                    assert(self.list()[jj].0 == key);
                }
                if key == k {
                    assert(self.list()[i as int].0 == k);
                }
            }
            assert forall|key: u64| #[trigger] self.map().contains_key(key) implies self.map()[key] == old(self).map().insert(k, vv)[key] by {
                let j = choose|j: int| 0 <= j < self.list().len() && self.list()[j].0 == key;
                if key == k {
                    assert(self.list()[i as int].0 == k);
                    if j != i {
                        if j < i { assert(self.entries@[j].0 < self.entries@[i as int].0); } else { assert(self.entries@[i as int].0 < self.entries@[j].0); }
                    }
                } else {
                    let jj = if found || j < i { j } else { j - 1 };
                    assert(old(self).list()[jj].0 == key);
                }
            }
            assert(self.map() =~= old(self).map().insert(k, vv));
        }
    }

    /// Removes `k`, giving back its value if it was present.
    pub fn remove(&mut self, k: u64) -> (r: Option<V>)
        requires
            old(self).wf(),
        ensures
            final(self).wf(),
            final(self).map() == old(self).map().remove(k),
            match r {
                Some(v) => old(self).map().contains_key(k) && old(self).map()[k] == v@,
                None => !old(self).map().contains_key(k),
            },
    {
        let ghost old_entries = self.entries@;
        let (i, found) = self.position(k);
        proof { self.lemma_wf(); }
        if !found {
            proof {
                if self.map().contains_key(k) {
                    let j = choose|j: int| 0 <= j < self.list().len() && self.list()[j].0 == k;
                    if j < i { assert(self.list()[j].0 < k); } else { assert(self.list()[j].0 > k); }
                }
                assert(self.map() =~= old(self).map().remove(k));
            }
            return None;
        }
        let (_, v) = self.entries.remove(i);
        proof {
            assert(self.entries@ =~= old_entries.remove(i as int));
            assert forall|a: int, b: int| 0 <= a < b < self.entries@.len() implies #[trigger] self.entries@[a].0 < #[trigger] self.entries@[b].0 by {
                let aa = if a < i { a } else { a + 1 };
                let bb = if b < i { b } else { b + 1 };
                assert(old_entries[aa].0 < old_entries[bb].0);
            }
            self.lemma_wf();
            old(self).lemma_wf();
            lemma_list_map_index(old(self).list(), i as int);
            assert forall|key: u64| #[trigger] self.map().contains_key(key) == old(self).map().remove(k).contains_key(key) by {
                if self.map().contains_key(key) {
                    let j = choose|j: int| 0 <= j < self.list().len() && self.list()[j].0 == key;
                    let jj = if j < i { j } else { j + 1 };
                    assert(old(self).list()[jj].0 == key);
                    if key == k {
                        assert(old_entries[jj].0 == old_entries[i as int].0);
                        if jj < i { assert(old_entries[jj].0 < old_entries[i as int].0); } else { assert(old_entries[i as int].0 < old_entries[jj].0); }
                    }
                }
                if old(self).map().contains_key(key) && key != k {
                    let j = choose|j: int| 0 <= j < old(self).list().len() && old(self).list()[j].0 == key;
                    assert(j != i);
                    let jj = if j < i { j } else { j - 1 };
                    assert(self.list()[jj].0 == key);
                }
            }
            assert forall|key: u64| #[trigger] self.map().contains_key(key) implies self.map()[key] == old(self).map().remove(k)[key] by {
                let j = choose|j: int| 0 <= j < self.list().len() && self.list()[j].0 == key;
                let jj = if j < i { j } else { j + 1 };
                lemma_list_map_index(old(self).list(), jj);
            }
            assert(self.map() =~= old(self).map().remove(k));
        }
        Some(v)
    }

    /// The smallest key, if any.
    pub fn first_key(&self) -> (r: Option<u64>)
        requires
            self.wf(),
        ensures
            match r {
                Some(k) => self.map().contains_key(k) && forall|j: u64| #[trigger] self.map().contains_key(j) ==> k <= j,
                None => self.map().len() == 0,
            },
    {
        proof { self.lemma_wf(); }
        if self.entries.len() == 0 {
            return None;
        }
        let k = self.entries[0].0;
        proof {
            lemma_list_map_index(self.list(), 0);
            assert(self.list()[0].0 == k);
            assert forall|j: u64| #[trigger] self.map().contains_key(j) implies k <= j by {
                let i = choose|i: int| 0 <= i < self.list().len() && self.list()[i].0 == j;
                if i > 0 {
                    assert(self.entries@[0].0 < self.entries@[i].0);
                }
            }
        }
        Some(k)
    }

    /// The values in ascending key order.
    pub fn values(&self) -> (r: Vec<&V>)
        requires
            self.wf(),
        ensures
            r@.len() == self.list().len(),
            forall|i: int| 0 <= i < r@.len() ==> #[trigger] r@[i]@ == self.list()[i].1,
    {
        let mut out: Vec<&V> = Vec::new();
        let n = self.entries.len();
        let mut i: usize = 0;
        while i < n
            invariant
                n == self.entries@.len(),
                i <= n,
                out@.len() == i,
                forall|j: int| 0 <= j < i ==> #[trigger] out@[j]@ == self.list()[j].1,
            decreases n - i,
        {
            out.push(&self.entries[i].1);
            i = i + 1;
        }
        out
    }

    /// The keys in ascending order.
    pub fn keys(&self) -> (r: Vec<u64>)
        requires
            self.wf(),
        ensures
            r@.len() == self.list().len(),
            forall|i: int| 0 <= i < r@.len() ==> #[trigger] r@[i] == self.list()[i].0,
    {
        let mut out: Vec<u64> = Vec::new();
        let n = self.entries.len();
        let mut i: usize = 0;
        while i < n
            invariant
                n == self.entries@.len(),
                i <= n,
                out@.len() == i,
                forall|j: int| 0 <= j < i ==> #[trigger] out@[j] == self.list()[j].0,
            decreases n - i,
        {
            out.push(self.entries[i].0);
            i = i + 1;
        }
        out
    }
}

/// The number of distinct keys of an ascending list is its length.
pub proof fn lemma_dom_len<V>(s: Seq<(u64, V)>)
    requires
        ascending(s),
    ensures
        list_map(s).dom().len() == s.len(),
        list_map(s).dom().finite(),
    decreases s.len(),
{
    if s.len() == 0 {
        assert(list_map(s).dom() =~= Set::<u64>::empty());
    } else {
        let t = s.drop_last();
        assert(ascending(t));
        lemma_dom_len(t);
        let k = s.last().0;
        assert forall|j: int| 0 <= j < t.len() implies #[trigger] t[j].0 < k by {
            assert(s[j].0 < s[s.len() - 1].0);
        }
        assert(list_map(s).dom() =~= list_map(t).dom().insert(k)) by {
            assert forall|x: u64| #[trigger] list_map(s).dom().contains(x) == list_map(t).dom().insert(k).contains(x) by {
                if list_map(s).dom().contains(x) && x != k {
                    let i = choose|i: int| 0 <= i < s.len() && s[i].0 == x;
                    assert(t[i].0 == x);
                }
                if list_map(t).dom().contains(x) {
                    let i = choose|i: int| 0 <= i < t.len() && t[i].0 == x;
                    assert(s[i].0 == x);
                }
                if x == k {
                    assert(s[s.len() - 1].0 == k);
                }
            }
        }
        assert(!list_map(t).dom().contains(k));
    }
}


/// Keys of a string-keyed association list are unique.
pub open spec fn unique_keys<V>(s: Seq<(Seq<char>, V)>) -> bool {
    forall|i: int, j: int| 0 <= i < s.len() && 0 <= j < s.len() && i != j ==> #[trigger] s[i].0 != #[trigger] s[j].0
}

/// The map a string-keyed association list with unique keys denotes.
pub open spec fn str_list_map<V>(s: Seq<(Seq<char>, V)>) -> Map<Seq<char>, V> {
    Map::new(
        |k: Seq<char>| exists|i: int| 0 <= i < s.len() && #[trigger] s[i].0 == k,
        |k: Seq<char>| s[choose|i: int| 0 <= i < s.len() && #[trigger] s[i].0 == k].1,
    )
}

pub proof fn lemma_str_list_map_index<V>(s: Seq<(Seq<char>, V)>, i: int)
    requires
        unique_keys(s),
        0 <= i < s.len(),
    ensures
        str_list_map(s).contains_key(s[i].0),
        str_list_map(s)[s[i].0] == s[i].1,
{
    let k = s[i].0;
    assert(exists|j: int| 0 <= j < s.len() && #[trigger] s[j].0 == k);
}

/// A map keyed by strings.
pub struct StrMap<V> {
    entries: Vec<(String, V)>,
}

impl<V: View> StrMap<V> {
    pub closed spec fn list(&self) -> Seq<(Seq<char>, V::V)> {
        self.entries@.map_values(|e: (String, V)| (e.0@, e.1@))
    }

    pub open spec fn map(&self) -> Map<Seq<char>, V::V> {
        str_list_map(self.list())
    }

    pub closed spec fn wf(&self) -> bool {
        unique_keys(self.list())
    }

    pub fn new() -> (r: StrMap<V>)
        ensures
            r.wf(),
            r.map() == Map::<Seq<char>, V::V>::empty(),
    {
        let r = StrMap { entries: Vec::new() };
        assert(r.list() =~= Seq::<(Seq<char>, V::V)>::empty());
        assert(r.map() =~= Map::<Seq<char>, V::V>::empty());
        r
    }

    fn find(&self, k: &str) -> (r: Option<usize>)
        requires
            self.wf(),
        ensures
            self.list().len() == self.entries@.len(),
            match r {
                Some(i) => i < self.list().len() && self.list()[i as int].0 == k@,
                None => forall|i: int| 0 <= i < self.list().len() ==> #[trigger] self.list()[i].0 != k@,
            },
    {
        let n = self.entries.len();
        let mut i: usize = 0;
        while i < n
            invariant
                n == self.entries@.len(),
                i <= n,
                forall|j: int| 0 <= j < i ==> #[trigger] self.list()[j].0 != k@,
            decreases n - i,
        {
            if crate::text::str_eq(self.entries[i].0.as_str(), k) {
                return Some(i);
            }
            i = i + 1;
        }
        None
    }

    pub fn len(&self) -> (r: usize)
        requires
            self.wf(),
        ensures
            r == self.map().len(),
    {
        proof { lemma_str_dom_len(self.list()); }
        self.entries.len()
    }

    pub fn get(&self, k: &str) -> (r: Option<&V>)
        requires
            self.wf(),
        ensures
            match r {
                Some(v) => self.map().contains_key(k@) && self.map()[k@] == v@,
                None => !self.map().contains_key(k@),
            },
    {
        match self.find(k) {
            Some(i) => {
                proof { lemma_str_list_map_index(self.list(), i as int); }
                Some(&self.entries[i].1)
            },
            None => None,
        }
    }

    pub fn contains(&self, k: &str) -> (r: bool)
        requires
            self.wf(),
        ensures
            r == self.map().contains_key(k@),
    {
        self.find(k).is_some()
    }

    /// Inserts or replaces the value of `k`.
    #[verifier::rlimit(40)]
    pub fn insert(&mut self, k: String, v: V)
        requires
            old(self).wf(),
        ensures
            final(self).wf(),
            final(self).map() == old(self).map().insert(k@, v@),
    {
        let ghost old_list = self.list();
        let ghost kv = k@;
        let ghost vv = v@;
        let ghost mut pos: int = 0;
        let ghost mut existed = false;
        match self.find(k.as_str()) {
            Some(i) => {
                self.entries.remove(i);
                self.entries.insert(i, (k, v));
                proof {
                    pos = i as int;
                    existed = true;
                    assert(self.list() =~= old_list.update(i as int, (kv, vv)));
                }
            },
            None => {
                self.entries.push((k, v));
                proof {
                    pos = old_list.len() as int;
                    assert(self.list() =~= old_list.push((kv, vv)));
                }
            },
        }
        proof {
            let l = self.list();
            assert forall|a: int, b: int| 0 <= a < l.len() && 0 <= b < l.len() && a != b implies #[trigger] l[a].0 != #[trigger] l[b].0 by {
                if a < old_list.len() && b < old_list.len() && l[a] == old_list[a] && l[b] == old_list[b] {
                    assert(old_list[a].0 != old_list[b].0);
                }
            }
            assert forall|key: Seq<char>| #[trigger] self.map().contains_key(key) == old(self).map().insert(kv, vv).contains_key(key) by {
                if self.map().contains_key(key) && key != kv {
                    let j = choose|j: int| 0 <= j < l.len() && l[j].0 == key;
                    assert(j != pos);
                    assert(old_list[j].0 == key);
                }
                if old(self).map().contains_key(key) {
                    let j = choose|j: int| 0 <= j < old_list.len() && old_list[j].0 == key;
                    if key != kv {
                        assert(l[j].0 == key);
                    }
                }
                if key == kv {
                    assert(l[pos].0 == kv);
                }
            }
            assert forall|key: Seq<char>| #[trigger] self.map().contains_key(key) implies self.map()[key] == old(self).map().insert(kv, vv)[key] by {
                let j = choose|j: int| 0 <= j < l.len() && l[j].0 == key;
                lemma_str_list_map_index(l, j);
                if key != kv {
                    assert(old_list[j].0 == key);
                    lemma_str_list_map_index(old_list, j);
                }
            }
            assert(self.map() =~= old(self).map().insert(kv, vv));
        }
    }

    /// Removes `k`, giving back its value if it was present.
    #[verifier::rlimit(40)]
    pub fn remove(&mut self, k: &str) -> (r: Option<V>)
        requires
            old(self).wf(),
        ensures
            final(self).wf(),
            final(self).map() == old(self).map().remove(k@),
            match r {
                Some(v) => old(self).map().contains_key(k@) && old(self).map()[k@] == v@,
                None => !old(self).map().contains_key(k@),
            },
    {
        let ghost old_list = self.list();
        match self.find(k) {
            None => {
                assert(self.map() =~= old(self).map().remove(k@));
                None
            },
            Some(i) => {
                proof { lemma_str_list_map_index(old_list, i as int); }
                let (_, v) = self.entries.remove(i);
                proof {
                    let l = self.list();
                    assert(l =~= old_list.remove(i as int));
                    assert forall|a: int, b: int| 0 <= a < l.len() && 0 <= b < l.len() && a != b implies #[trigger] l[a].0 != #[trigger] l[b].0 by {
                        let aa = if a < i { a } else { a + 1 };
                        let bb = if b < i { b } else { b + 1 };
                        assert(old_list[aa].0 != old_list[bb].0);
                    }
                    assert forall|key: Seq<char>| #[trigger] self.map().contains_key(key) == old(self).map().remove(k@).contains_key(key) by {
                        if self.map().contains_key(key) {
                            let j = choose|j: int| 0 <= j < l.len() && l[j].0 == key;
                            let jj = if j < i { j } else { j + 1 };
                            assert(old_list[jj].0 == key);
                            assert(jj != i);
                        }
                        if old(self).map().contains_key(key) && key != k@ {
                            let j = choose|j: int| 0 <= j < old_list.len() && old_list[j].0 == key;
                            let jj = if j < i { j } else { j - 1 };
                            assert(l[jj].0 == key);
                        }
                    }
                    assert forall|key: Seq<char>| #[trigger] self.map().contains_key(key) implies self.map()[key] == old(self).map().remove(k@)[key] by {
                        let j = choose|j: int| 0 <= j < l.len() && l[j].0 == key;
                        let jj = if j < i { j } else { j + 1 };
                        lemma_str_list_map_index(l, j);
                        lemma_str_list_map_index(old_list, jj);
                    }
                    assert(self.map() =~= old(self).map().remove(k@));
                }
                Some(v)
            },
        }
    }
}

pub proof fn lemma_str_dom_len<V>(s: Seq<(Seq<char>, V)>)
    requires
        unique_keys(s),
    ensures
        str_list_map(s).dom().len() == s.len(),
        str_list_map(s).dom().finite(),
    decreases s.len(),
{
    if s.len() == 0 {
        assert(str_list_map(s).dom() =~= Set::<Seq<char>>::empty());
    } else {
        let t = s.drop_last();
        assert(unique_keys(t));
        lemma_str_dom_len(t);
        let k = s.last().0;
        assert(str_list_map(s).dom() =~= str_list_map(t).dom().insert(k)) by {
            assert forall|x: Seq<char>| #[trigger] str_list_map(s).dom().contains(x) == str_list_map(t).dom().insert(k).contains(x) by {
                if str_list_map(s).dom().contains(x) && x != k {
                    let i = choose|i: int| 0 <= i < s.len() && s[i].0 == x;
                    assert(t[i].0 == x);
                }
                if str_list_map(t).dom().contains(x) {
                    let i = choose|i: int| 0 <= i < t.len() && t[i].0 == x;
                    assert(s[i].0 == x);
                }
                if x == k {
                    assert(s[s.len() - 1].0 == k);
                }
            }
        }
        if str_list_map(t).dom().contains(k) {
            let i = choose|i: int| 0 <= i < t.len() && t[i].0 == k;
            assert(s[i].0 == s[s.len() - 1].0);
        }
    }
}

} // verus!
