//! A map from provider name to snapshot, in which no name occurs twice.
use vstd::prelude::*;

use crate::usage::{UsageSnapshot, UsageSnapshotView};

verus! {

/// The map that a sequence of entries denotes; a later entry wins over an earlier one.
pub open spec fn entries_map(s: Seq<(String, UsageSnapshot)>) -> Map<Seq<char>, UsageSnapshotView>
    decreases s.len(),
{
    if s.len() == 0 {
        Map::empty()
    } else {
        entries_map(s.drop_last()).insert(s.last().0@, s.last().1@)
    }
}

/// No two entries have the same name.
pub open spec fn keys_unique(s: Seq<(String, UsageSnapshot)>) -> bool {
    forall|i: int, j: int| 0 <= i < j < s.len() ==> s[i].0@ != s[j].0@
}

proof fn lemma_entries_map_dom(s: Seq<(String, UsageSnapshot)>, k: Seq<char>)
    ensures
        entries_map(s).contains_key(k) <==> exists|i: int| 0 <= i < s.len() && s[i].0@ == k,
    decreases s.len(),
{
    if s.len() > 0 {
        lemma_entries_map_dom(s.drop_last(), k);
        if entries_map(s).contains_key(k) && k != s.last().0@ {
            let i = choose|i: int| 0 <= i < s.len() - 1 && s.drop_last()[i].0@ == k;
            assert(s[i].0@ == k);
        }
        if exists|i: int| 0 <= i < s.len() && s[i].0@ == k {
            let i = choose|i: int| 0 <= i < s.len() && s[i].0@ == k;
            if i < s.len() - 1 {
                assert(s.drop_last()[i].0@ == k);
            }
        }
    }
}

proof fn lemma_entries_map_get(s: Seq<(String, UsageSnapshot)>, i: int)
    requires
        keys_unique(s),
        0 <= i < s.len(),
    ensures
        entries_map(s).contains_key(s[i].0@),
        entries_map(s)[s[i].0@] == s[i].1@,
    decreases s.len(),
{
    if i < s.len() - 1 {
        let t = s.drop_last();
        assert(t[i] == s[i]);
        assert(keys_unique(t)) by {
            assert forall|a: int, b: int| 0 <= a < b < t.len() implies t[a].0@ != t[b].0@ by {
                assert(t[a] == s[a] && t[b] == s[b]);
            }
        }
        lemma_entries_map_get(t, i);
        assert(s[i].0@ != s.last().0@);
    }
}

proof fn lemma_entries_map_update(s: Seq<(String, UsageSnapshot)>, i: int, e: (String, UsageSnapshot))
    requires
        keys_unique(s),
        0 <= i < s.len(),
        s[i].0@ == e.0@,
    ensures
        keys_unique(s.update(i, e)),
        entries_map(s.update(i, e)) == entries_map(s).insert(e.0@, e.1@),
    decreases s.len(),
{
    let u = s.update(i, e);
    assert(keys_unique(u)) by {
        assert forall|a: int, b: int| 0 <= a < b < u.len() implies u[a].0@ != u[b].0@ by {
            assert(s[a].0@ != s[b].0@);
        }
    }
    if i == s.len() - 1 {
        assert(u.drop_last() =~= s.drop_last());
        assert(entries_map(u) =~= entries_map(s).insert(e.0@, e.1@));
    } else {
        let t = s.drop_last();
        assert(keys_unique(t)) by {
            assert forall|a: int, b: int| 0 <= a < b < t.len() implies t[a].0@ != t[b].0@ by {
                assert(t[a] == s[a] && t[b] == s[b]);
            }
        }
        assert(t[i] == s[i]);
        lemma_entries_map_update(t, i, e);
        assert(u.drop_last() =~= t.update(i, e));
        assert(s.last().0@ != e.0@);
        assert(entries_map(u) =~= entries_map(s).insert(e.0@, e.1@));
    }
}

/// Provider snapshots keyed by provider name.
pub struct ProviderMap {
    entries: Vec<(String, UsageSnapshot)>,
}

impl ProviderMap {
    #[verifier::type_invariant]
    spec fn names_unique(self) -> bool {
        keys_unique(self.entries@)
    }

    /// The entries, in the order in which their names were first inserted.
    pub closed spec fn entry_seq(self) -> Seq<(String, UsageSnapshot)> {
        self.entries@
    }

    /// The empty map.
    pub fn new() -> (r: ProviderMap)
        ensures
            r@ == Map::<Seq<char>, UsageSnapshotView>::empty(),
    {
        let r = ProviderMap { entries: Vec::new() };
        assert(entries_map(r.entries@) =~= Map::<Seq<char>, UsageSnapshotView>::empty());
        r
    }

    /// The entries, each name once.
    pub fn entries(&self) -> (r: &Vec<(String, UsageSnapshot)>)
        ensures
            r@ == self.entry_seq(),
            keys_unique(r@),
            entries_map(r@) == self@,
    {
        proof {
            use_type_invariant(self);
        }
        &self.entries
    }

    /// The snapshot stored under `key`, if any.
    pub fn get(&self, key: &str) -> (r: Option<&UsageSnapshot>)
        ensures
            r matches Some(v) ==> self@.contains_key(key@) && v@ == self@[key@],
            r is None ==> !self@.contains_key(key@),
    {
        proof {
            use_type_invariant(self);
        }
        let k = String::from_str(key);
        let mut i: usize = 0;
        while i < self.entries.len()
            invariant
                i <= self.entries@.len(),
                keys_unique(self.entries@),
                k@ == key@,
                forall|j: int| 0 <= j < i ==> self.entries@[j].0@ != key@,
            decreases self.entries@.len() - i,
        {
            if self.entries[i].0 == k {
                proof {
                    lemma_entries_map_get(self.entries@, i as int);
                }
                return Some(&self.entries[i].1);
            }
            i += 1;
        }
        proof {
            lemma_entries_map_dom(self.entries@, key@);
        }
        None
    }

    /// Stores `value` under `key`, replacing what was stored there.
    pub fn insert(&mut self, key: String, value: UsageSnapshot)
        ensures
            final(self)@ == old(self)@.insert(key@, value@),
    {
        proof {
            use_type_invariant(&*self);
        }
        let mut entries: Vec<(String, UsageSnapshot)> = Vec::new();
        std::mem::swap(&mut entries, &mut self.entries);
        let ghost old_entries = entries@;
        let mut i: usize = 0;
        while i < entries.len()
            invariant
                entries@ == old_entries,
                entries_map(old_entries) == old(self)@,
                i <= entries@.len(),
                keys_unique(entries@),
                forall|j: int| 0 <= j < i ==> entries@[j].0@ != key@,
            decreases entries@.len() - i,
        {
            if entries[i].0 == key {
                let ghost e = (key, value);
                proof {
                    lemma_entries_map_update(entries@, i as int, e);
                }
                entries.set(i, (key, value));
                assert(entries@ == old_entries.update(i as int, e));
                self.entries = entries;
                assert(entries_map(self.entries@) == entries_map(old_entries).insert(e.0@, e.1@));
                return;
            }
            i += 1;
        }
        let ghost k = key@;
        let ghost v = value@;
        entries.push((key, value));
        assert(entries@.drop_last() =~= old_entries);
        assert(keys_unique(entries@)) by {
            assert forall|a: int, b: int| 0 <= a < b < entries@.len() implies entries@[a].0@
                != entries@[b].0@ by {
                if b < entries@.len() - 1 {
                    assert(entries@[a] == old_entries[a] && entries@[b] == old_entries[b]);
                }
            }
        }
        self.entries = entries;
    }
}

proof fn lemma_entries_map_take(s: Seq<(String, UsageSnapshot)>, i: int)
    requires
        0 <= i < s.len(),
    ensures
        entries_map(s.take(i + 1)) == entries_map(s.take(i)).insert(s[i].0@, s[i].1@),
{
    assert(s.take(i + 1).drop_last() =~= s.take(i));
}

impl ProviderMap {
    /// A copy of the map.
    pub fn duplicate(&self) -> (r: ProviderMap)
        ensures
            r@ == self@,
    {
        let entries = self.entries();
        let mut out = ProviderMap::new();
        let mut i: usize = 0;
        while i < entries.len()
            invariant
                i <= entries@.len(),
                entries_map(entries@) == self@,
                out@ == entries_map(entries@.take(i as int)),
            decreases entries@.len() - i,
        {
            let name = entries[i].0.clone();
            let snapshot = entries[i].1.duplicate();
            proof {
                lemma_entries_map_take(entries@, i as int);
            }
            out.insert(name, snapshot);
            i += 1;
        }
        assert(entries@.take(entries@.len() as int) =~= entries@);
        out
    }
}

impl View for ProviderMap {
    type V = Map<Seq<char>, UsageSnapshotView>;

    closed spec fn view(&self) -> Map<Seq<char>, UsageSnapshotView> {
        entries_map(self.entries@)
    }
}


/// What a read gives back after a write: the written snapshot under its name,
/// and every other name as it was.
pub proof fn law_status_map_read_after_write(
    before: Map<Seq<char>, UsageSnapshotView>,
    name: Seq<char>,
    snapshot: UsageSnapshotView,
    other: Seq<char>,
)
    ensures
        before.insert(name, snapshot).contains_key(name),
        before.insert(name, snapshot)[name] == snapshot,
        other != name ==> (before.insert(name, snapshot).contains_key(other) == before.contains_key(
            other,
        ) && (before.contains_key(other) ==> before.insert(name, snapshot)[other] == before[other])),
{
}

} // verus!
