//! The table of running browser environments, keyed by environment id.
//!
//! Each id occurs at most once; the table reads as a map from id to record.

use vstd::prelude::*;

verus! {

/// What the runtime remembers of a running environment.
#[derive(Debug)]
pub struct EnvInfo {
    pub name: String,
    pub status: String,
    pub cdp_port: u16,
}

/// An environment record, with its strings as character sequences.
pub struct EnvRecord {
    pub name: Seq<char>,
    pub status: Seq<char>,
    pub cdp_port: u16,
}

impl View for EnvInfo {
    type V = EnvRecord;

    open spec fn view(&self) -> EnvRecord {
        EnvRecord { name: self.name@, status: self.status@, cdp_port: self.cdp_port }
    }
}

struct EnvEntry {
    key: String,
    info: EnvInfo,
}

/// Whether some entry has this key.
spec fn has_key(s: Seq<EnvEntry>, k: Seq<char>) -> bool {
    exists|i: int| 0 <= i < s.len() && #[trigger] s[i].key@ == k
}

/// The index of the entry with this key.
spec fn index_of(s: Seq<EnvEntry>, k: Seq<char>) -> int {
    choose|i: int| 0 <= i < s.len() && #[trigger] s[i].key@ == k
}

spec fn distinct_keys(s: Seq<EnvEntry>) -> bool {
    forall|i: int, j: int|
        0 <= i < s.len() && 0 <= j < s.len() && i != j ==> #[trigger] s[i].key@ != #[trigger] s[j].key@
}

spec fn as_map(s: Seq<EnvEntry>) -> Map<Seq<char>, EnvRecord> {
    Map::new(|k: Seq<char>| has_key(s, k), |k: Seq<char>| s[index_of(s, k)].info@)
}


spec fn ids_of(s: Seq<EnvEntry>) -> Seq<Seq<char>> {
    s.map_values(|e: EnvEntry| e.key@)
}

proof fn lemma_ids_of(s: Seq<EnvEntry>)
    requires
        distinct_keys(s),
    ensures
        ids_of(s).len() == s.len(),
        ids_of(s).no_duplicates(),
        forall|k: Seq<char>| as_map(s).contains_key(k) <==> ids_of(s).contains(k),
        as_map(s).dom().finite(),
        as_map(s).dom().len() == s.len(),
{
    let ids = ids_of(s);
    assert forall|i: int, j: int| 0 <= i < ids.len() && 0 <= j < ids.len() && i != j implies ids[i]
        != ids[j] by {
        assert(s[i].key@ != s[j].key@);
    }
    assert forall|k: Seq<char>| as_map(s).contains_key(k) <==> ids.contains(k) by {
        if as_map(s).contains_key(k) {
            let i = index_of(s, k);
            assert(ids[i] == k);
        }
        if ids.contains(k) {
            let i = choose|i: int| 0 <= i < ids.len() && ids[i] == k;
            assert(s[i].key@ == k);
        }
    }
    assert(as_map(s).dom() =~= ids.to_set());
    ids.unique_seq_to_set();
}

/// The running environments.
pub struct EnvironmentTable {
    entries: Vec<EnvEntry>,
}

impl View for EnvironmentTable {
    type V = Map<Seq<char>, EnvRecord>;

    closed spec fn view(&self) -> Map<Seq<char>, EnvRecord> {
        as_map(self.entries@)
    }
}

proof fn lemma_lookup(s: Seq<EnvEntry>, i: int)
    requires
        distinct_keys(s),
        0 <= i < s.len(),
    ensures
        as_map(s).contains_key(s[i].key@),
        as_map(s)[s[i].key@] == s[i].info@,
{
    assert(has_key(s, s[i].key@));
    let j = index_of(s, s[i].key@);
    assert(s[j].key@ == s[i].key@);
}

impl EnvironmentTable {
    #[verifier::type_invariant]
    spec fn well_formed(&self) -> bool {
        distinct_keys(self.entries@)
    }

    /// The number of environments.
    pub closed spec fn count(&self) -> nat {
        self.entries@.len()
    }

    /// The ids in table order.
    pub closed spec fn ids(&self) -> Seq<Seq<char>> {
        ids_of(self.entries@)
    }

    /// An empty table.
    pub fn new() -> (t: Self)
        ensures
            t@ == Map::<Seq<char>, EnvRecord>::empty(),
            t.count() == 0,
    {
        let t = EnvironmentTable { entries: Vec::new() };
        assert(t@ =~= Map::<Seq<char>, EnvRecord>::empty());
        t
    }

    /// The number of environments.
    pub fn len(&self) -> (n: usize)
        ensures
            n == self.count(),
            n == self@.dom().len(),
    {
        proof {
            use_type_invariant(self);
            lemma_ids_of(self.entries@);
        }
        self.entries.len()
    }

    fn find(&self, key: &String) -> (r: Option<usize>)
        ensures
            match r {
                Some(i) => i < self.entries@.len() && self.entries@[i as int].key@ == key@,
                None => !has_key(self.entries@, key@),
            },
    {
        let mut i: usize = 0;
        while i < self.entries.len()
            invariant
                i <= self.entries@.len(),
                forall|j: int| 0 <= j < i ==> self.entries@[j].key@ != key@,
            decreases self.entries@.len() - i,
        {
            if self.entries[i].key == *key {
                return Some(i);
            }
            i = i + 1;
        }
        None
    }

    /// The CDP port of the environment with this id, if it runs.
    pub fn port_of(&self, key: &String) -> (r: Option<u16>)
        ensures
            match r {
                Some(p) => self@.contains_key(key@) && self@[key@].cdp_port == p,
                None => !self@.contains_key(key@),
            },
    {
        proof {
            use_type_invariant(self);
        }
        match self.find(key) {
            Some(i) => {
                proof {
                    lemma_lookup(self.entries@, i as int);
                }
                Some(self.entries[i].info.cdp_port)
            },
            None => None,
        }
    }

    /// Records an environment, replacing the record of the same id if there is one.
    pub fn insert(&mut self, key: String, info: EnvInfo)
        ensures
            final(self)@ == old(self)@.insert(key@, info@),
    {
        proof {
            use_type_invariant(&*self);
        }
        let ghost old_s = self.entries@;
        let ghost k = key@;
        let ghost rec = info@;
        match self.find(&key) {
            Some(i) => {
                let mut entries: Vec<EnvEntry> = Vec::new();
                std::mem::swap(&mut entries, &mut self.entries);
                entries.set(i, EnvEntry { key, info });
                let ghost s = entries@;
                assert(distinct_keys(s)) by {
                    assert forall|a: int, b: int|
                        0 <= a < s.len() && 0 <= b < s.len() && a != b implies #[trigger] s[a].key@
                        != #[trigger] s[b].key@ by {
                        assert(old_s[a].key@ != old_s[b].key@);
                    }
                }
                assert(as_map(s) =~= as_map(old_s).insert(k, rec)) by {
                    assert forall|q: Seq<char>| #[trigger] as_map(s).contains_key(q) <==> as_map(
                        old_s,
                    ).insert(k, rec).contains_key(q) by {
                        if has_key(old_s, q) {
                            let j = index_of(old_s, q);
                            assert(s[j].key@ == q);
                        }
                        if has_key(s, q) {
                            let j = index_of(s, q);
                            assert(old_s[j].key@ == q);
                        }
                    }
                    assert forall|q: Seq<char>| #[trigger] as_map(s).contains_key(q) implies as_map(
                        s,
                    )[q] == as_map(old_s).insert(k, rec)[q] by {
                        let j = index_of(s, q);
                        lemma_lookup(s, j);
                        if q != k {
                            lemma_lookup(old_s, j);
                        }
                    }
                }
                self.entries = entries;
            },
            None => {
                let mut entries: Vec<EnvEntry> = Vec::new();
                std::mem::swap(&mut entries, &mut self.entries);
                entries.push(EnvEntry { key, info });
                let ghost s = entries@;
                assert(distinct_keys(s)) by {
                    assert forall|a: int, b: int|
                        0 <= a < s.len() && 0 <= b < s.len() && a != b implies #[trigger] s[a].key@
                        != #[trigger] s[b].key@ by {
                        if a < old_s.len() && b < old_s.len() {
                            assert(old_s[a].key@ != old_s[b].key@);
                        } else if a < old_s.len() {
                            assert(old_s[a].key@ != k);
                        } else {
                            assert(old_s[b].key@ != k);
                        }
                    }
                }
                assert(as_map(s) =~= as_map(old_s).insert(k, rec)) by {
                    assert forall|q: Seq<char>| #[trigger] as_map(s).contains_key(q) <==> as_map(
                        old_s,
                    ).insert(k, rec).contains_key(q) by {
                        if has_key(old_s, q) {
                            let j = index_of(old_s, q);
                            assert(s[j].key@ == q);
                        }
                        if q == k {
                            assert(s[old_s.len() as int].key@ == q);
                        }
                        if has_key(s, q) {
                            let j = index_of(s, q);
                            if j < old_s.len() {
                                assert(old_s[j].key@ == q);
                            }
                        }
                    }
                    assert forall|q: Seq<char>| #[trigger] as_map(s).contains_key(q) implies as_map(
                        s,
                    )[q] == as_map(old_s).insert(k, rec)[q] by {
                        let j = index_of(s, q);
                        lemma_lookup(s, j);
                        if q != k {
                            lemma_lookup(old_s, j);
                        }
                    }
                }
                self.entries = entries;
            },
        }
    }

    /// Forgets the environment with this id, if there is one.
    pub fn remove(&mut self, key: &String)
        ensures
            final(self)@ == old(self)@.remove(key@),
    {
        proof {
            use_type_invariant(&*self);
        }
        let ghost old_s = self.entries@;
        let ghost k = key@;
        match self.find(key) {
            Some(i) => {
                let mut entries: Vec<EnvEntry> = Vec::new();
                std::mem::swap(&mut entries, &mut self.entries);
                entries.remove(i);
                let ghost s = entries@;
                assert(forall|a: int| 0 <= a < s.len() ==> #[trigger] s[a] == old_s[if a < i {
                    a
                } else {
                    a + 1
                }]);
                assert(distinct_keys(s)) by {
                    assert forall|a: int, b: int|
                        0 <= a < s.len() && 0 <= b < s.len() && a != b implies #[trigger] s[a].key@
                        != #[trigger] s[b].key@ by {
                        let a2 = if a < i {
                            a
                        } else {
                            a + 1
                        };
                        let b2 = if b < i {
                            b
                        } else {
                            b + 1
                        };
                        assert(old_s[a2].key@ != old_s[b2].key@);
                    }
                }
                assert(as_map(s) =~= as_map(old_s).remove(k)) by {
                    assert forall|q: Seq<char>| #[trigger] as_map(s).contains_key(q) <==> as_map(
                        old_s,
                    ).remove(k).contains_key(q) by {
                        if has_key(old_s, q) && q != k {
                            let j = index_of(old_s, q);
                            assert(j != i);
                            let j2 = if j < i {
                                j
                            } else {
                                j - 1
                            };
                            assert(s[j2].key@ == q);
                        }
                        if has_key(s, q) {
                            let j = index_of(s, q);
                            let j2 = if j < i {
                                j
                            } else {
                                j + 1
                            };
                            assert(old_s[j2].key@ == q);
                            assert(j2 != i);
                        }
                    }
                    assert forall|q: Seq<char>| #[trigger] as_map(s).contains_key(q) implies as_map(
                        s,
                    )[q] == as_map(old_s).remove(k)[q] by {
                        let j = index_of(s, q);
                        lemma_lookup(s, j);
                        let j2 = if j < i {
                            j
                        } else {
                            j + 1
                        };
                        lemma_lookup(old_s, j2);
                    }
                }
                self.entries = entries;
            },
            None => {
                assert(as_map(old_s) =~= as_map(old_s).remove(k));
            },
        }
    }

    /// Forgets every environment.
    pub fn clear(&mut self)
        ensures
            final(self)@ == Map::<Seq<char>, EnvRecord>::empty(),
    {
        self.entries = Vec::new();
        assert(as_map(self.entries@) =~= Map::<Seq<char>, EnvRecord>::empty());
    }

    /// The ids of all environments, each once.
    pub fn ids_vec(&self) -> (r: Vec<String>)
        ensures
            r@.len() == self.count(),
            forall|i: int| 0 <= i < r@.len() ==> #[trigger] r@[i]@ == self.ids()[i],
            self.ids().len() == self.count(),
            self.ids().no_duplicates(),
            forall|k: Seq<char>| self@.contains_key(k) <==> self.ids().contains(k),
            self@.dom().len() == self.count(),
    {
        proof {
            use_type_invariant(self);
            lemma_ids_of(self.entries@);
        }
        let mut r: Vec<String> = Vec::new();
        let mut i: usize = 0;
        while i < self.entries.len()
            invariant
                i <= self.entries@.len(),
                r@.len() == i,
                forall|j: int| 0 <= j < i ==> #[trigger] r@[j]@ == self.entries@[j].key@,
            decreases self.entries@.len() - i,
        {
            r.push(self.entries[i].key.clone());
            i = i + 1;
        }
        r
    }
}

} // verus!
