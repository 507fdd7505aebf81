use vstd::pervasive::VecAdditionalExecFns;
use vstd::prelude::*;

use crate::exchange::TemporaryCredentials;

verus! {

/// One section of the persisted store: a profile name and its credentials.
#[derive(Debug, PartialEq, Eq)]
pub struct StoreEntry {
    pub name: String,
    pub credentials: TemporaryCredentials,
}

/// No two entries carry one name.
pub open spec fn distinct_names(entries: Seq<StoreEntry>) -> bool {
    forall|a: int, b: int|
        0 <= a < b < entries.len() ==> entries[a].name@ != entries[b].name@
}

/// The mapping a sequence of entries means; a later entry would win, though
/// a well-formed store never holds a name twice.
pub open spec fn map_of(entries: Seq<StoreEntry>) -> Map<Seq<char>, TemporaryCredentials>
    decreases entries.len(),
{
    if entries.len() == 0 {
        Map::empty()
    } else {
        map_of(entries.drop_last()).insert(entries.last().name@, entries.last().credentials)
    }
}

/// A key is in the mapping exactly where some entry carries it.
pub proof fn lemma_map_of_domain(entries: Seq<StoreEntry>, key: Seq<char>)
    ensures
        map_of(entries).contains_key(key) <==> exists|i: int|
            0 <= i < entries.len() && entries[i].name@ == key,
    decreases entries.len(),
{
    if entries.len() > 0 {
        lemma_map_of_domain(entries.drop_last(), key);
        if entries.last().name@ == key {
            assert(entries[entries.len() - 1].name@ == key);
        } else {
            if map_of(entries).contains_key(key) {
                let i = choose|i: int|
                    0 <= i < entries.drop_last().len() && entries.drop_last()[i].name@ == key;
                assert(entries[i].name@ == key);
            }
            if exists|i: int| 0 <= i < entries.len() && entries[i].name@ == key {
                let i = choose|i: int| 0 <= i < entries.len() && entries[i].name@ == key;
                assert(entries.drop_last()[i].name@ == key);
            }
        }
    }
}

/// With distinct names, the entry carrying a key gives the mapping's value.
pub proof fn lemma_map_of_value(entries: Seq<StoreEntry>, i: int)
    requires
        distinct_names(entries),
        0 <= i < entries.len(),
    ensures
        map_of(entries).contains_key(entries[i].name@),
        map_of(entries)[entries[i].name@] == entries[i].credentials,
    decreases entries.len(),
{
    if i < entries.len() - 1 {
        assert(distinct_names(entries.drop_last())) by {
            assert(forall|a: int, b: int|
                0 <= a < b < entries.drop_last().len() ==> entries.drop_last()[a]
                    == entries[a] && entries.drop_last()[b] == entries[b]);
        }
        lemma_map_of_value(entries.drop_last(), i);
        assert(entries[i].name@ != entries.last().name@);
    }
}

/// Replacing the entry that carries a key changes just that key's value.
pub proof fn lemma_map_of_update(entries: Seq<StoreEntry>, i: int, entry: StoreEntry)
    requires
        distinct_names(entries),
        0 <= i < entries.len(),
        entries[i].name@ == entry.name@,
    ensures
        map_of(entries.update(i, entry)) == map_of(entries).insert(
            entry.name@,
            entry.credentials,
        ),
    decreases entries.len(),
{
    let updated = entries.update(i, entry);
    if i == entries.len() - 1 {
        assert(updated.drop_last() =~= entries.drop_last());
        assert(updated.last() == entry);
        assert(map_of(entries).insert(entry.name@, entry.credentials) =~= map_of(
            entries.drop_last(),
        ).insert(entry.name@, entry.credentials));
    } else {
        assert(distinct_names(entries.drop_last())) by {
            assert(forall|a: int, b: int|
                0 <= a < b < entries.drop_last().len() ==> entries.drop_last()[a]
                    == entries[a] && entries.drop_last()[b] == entries[b]);
        }
        assert(updated.drop_last() =~= entries.drop_last().update(i, entry));
        lemma_map_of_update(entries.drop_last(), i, entry);
        assert(updated.last() == entries.last());
        assert(entries[i].name@ != entries.last().name@);
        assert(map_of(updated) =~= map_of(entries).insert(entry.name@, entry.credentials));
    }
}

/// The in-memory store of every resolved profile's credentials, keyed by the
/// profile's unique name.  Entries loaded from disk for untouched profiles
/// stay; a resolution for profile `P` overwrites exactly `P`'s entry.  Many
/// concurrent resolutions hand their completions to one store under
/// exclusive access; the merge below is what each completion does while it
/// alone holds the store.
#[derive(Debug)]
pub struct CredentialStore {
    pub entries: Vec<StoreEntry>,
}

impl CredentialStore {
    /// No two entries carry one name.
    pub open spec fn wf(self) -> bool {
        distinct_names(self.entries@)
    }

    /// The mapping this store holds.
    pub open spec fn as_map(self) -> Map<Seq<char>, TemporaryCredentials> {
        map_of(self.entries@)
    }

    /// An empty store: what loading finds where nothing was persisted yet —
    /// a missing persisted store is no error.
    pub fn new() -> (r: CredentialStore)
        ensures
            r.wf(),
            r.as_map() == Map::<Seq<char>, TemporaryCredentials>::empty(),
    {
        CredentialStore { entries: Vec::new() }
    }

    /// The position of the entry carrying this name.
    fn position(&self, name: &String) -> (r: Option<usize>)
        ensures
            r matches Some(i) ==> i < self.entries@.len() && self.entries@[i as int].name@
                == name@,
            r is None ==> forall|i: int|
                0 <= i < self.entries@.len() ==> self.entries@[i].name@ != name@,
    {
        let n = self.entries.len();
        let mut i: usize = 0;
        while i < n
            invariant
                n == self.entries@.len(),
                i <= n,
                forall|j: int| 0 <= j < i ==> self.entries@[j].name@ != name@,
            decreases n - i,
        {
            if self.entries[i].name == *name {
                return Some(i);
            }
            i += 1;
        }
        None
    }

    /// Overwrites or inserts this profile's entry: afterwards the store maps
    /// `name` to `credentials` and every other name exactly as before.  The
    /// caller holds the store under exclusive access for just this mutation.
    pub fn set(&mut self, name: String, credentials: TemporaryCredentials)
        requires
            old(self).wf(),
        ensures
            final(self).wf(),
            final(self).as_map() == old(self).as_map().insert(name@, credentials),
    {
        match self.position(&name) {
            Some(i) => {
                let ghost before = self.entries@;
                let ghost entry_spec = (StoreEntry { name: name, credentials: credentials });
                self.entries.set(i, StoreEntry { name, credentials });
                proof {
                    lemma_map_of_update(before, i as int, entry_spec);
                    assert forall|a: int, b: int|
                        0 <= a < b < self.entries@.len() implies self.entries@[a].name@
                        != self.entries@[b].name@ by {
                        assert(before[a].name@ != before[b].name@);
                    }
                }
            },
            None => {
                let ghost before = self.entries@;
                self.entries.push(StoreEntry { name, credentials });
                proof {
                    assert(self.entries@.drop_last() =~= before);
                    assert forall|a: int, b: int|
                        0 <= a < b < self.entries@.len() implies self.entries@[a].name@
                        != self.entries@[b].name@ by {
                        if b < before.len() {
                            assert(before[a].name@ != before[b].name@);
                        }
                    }
                }
            },
        }
    }

    /// The credentials this store holds for the profile name, if any.
    pub fn get(&self, name: &String) -> (r: Option<TemporaryCredentials>)
        requires
            self.wf(),
        ensures
            r is Some <==> self.as_map().contains_key(name@),
            r matches Some(c) ==> self.as_map().contains_key(name@) && c == self.as_map()[name@],
    {
        match self.position(name) {
            Some(i) => {
                proof {
                    lemma_map_of_value(self.entries@, i as int);
                }
                Some(self.entries[i].credentials.duplicate())
            },
            None => {
                proof {
                    lemma_map_of_domain(self.entries@, name@);
                }
                None
            },
        }
    }

    /// How many profiles the store holds.
    pub fn len(&self) -> (r: usize)
        ensures
            r == self.entries@.len(),
    {
        self.entries.len()
    }

    /// The entries in insertion order, for persisting the store as a unit.
    pub fn entry_list(&self) -> (r: &Vec<StoreEntry>)
        ensures
            r@ == self.entries@,
    {
        &self.entries
    }
}

/// The store's mapping after a run's completions have merged into it, one
/// after another.
pub open spec fn merge_all(
    m: Map<Seq<char>, TemporaryCredentials>,
    completions: Seq<(Seq<char>, TemporaryCredentials)>,
) -> Map<Seq<char>, TemporaryCredentials>
    decreases completions.len(),
{
    if completions.len() == 0 {
        m
    } else {
        merge_all(m, completions.drop_last()).insert(
            completions.last().0,
            completions.last().1,
        )
    }
}

/// A run that completes distinct profiles yields exactly those entries, each
/// with its own resolution's credentials, merged over the pre-existing
/// mapping: no completion is lost or duplicated, and an untouched name keeps
/// its old entry.
pub proof fn lemma_merge_all(
    m: Map<Seq<char>, TemporaryCredentials>,
    completions: Seq<(Seq<char>, TemporaryCredentials)>,
)
    requires
        forall|a: int, b: int|
            0 <= a < b < completions.len() ==> completions[a].0 != completions[b].0,
    ensures
        forall|i: int|
            0 <= i < completions.len() ==> #[trigger] merge_all(m, completions).contains_key(
                completions[i].0,
            ) && merge_all(m, completions)[completions[i].0] == completions[i].1,
        forall|k: Seq<char>|
            (forall|i: int| 0 <= i < completions.len() ==> completions[i].0 != k) ==> ((
            #[trigger] merge_all(m, completions).contains_key(k) <==> m.contains_key(k)) && (
            m.contains_key(k) ==> merge_all(m, completions)[k] == m[k])),
    decreases completions.len(),
{
    if completions.len() > 0 {
        let prefix = completions.drop_last();
        let last = completions.last();
        assert(forall|a: int, b: int|
            0 <= a < b < prefix.len() ==> prefix[a] == completions[a] && prefix[b]
                == completions[b]);
        lemma_merge_all(m, prefix);
        assert(merge_all(m, completions) == merge_all(m, prefix).insert(last.0, last.1));
        assert forall|i: int| 0 <= i < completions.len() implies #[trigger] merge_all(
            m,
            completions,
        ).contains_key(completions[i].0) && merge_all(m, completions)[completions[i].0]
            == completions[i].1 by {
            if i < completions.len() - 1 {
                assert(prefix[i] == completions[i]);
                assert(completions[i].0 != last.0);
                assert(merge_all(m, prefix).contains_key(prefix[i].0) && merge_all(m, prefix)[
                    prefix[i].0
                ] == prefix[i].1);
            } else {
                assert(completions[i] == last);
            }
        }
        assert forall|k: Seq<char>|
            (forall|i: int| 0 <= i < completions.len() ==> completions[i].0 != k) implies ((
        #[trigger] merge_all(m, completions).contains_key(k) <==> m.contains_key(k)) && (
        m.contains_key(k) ==> merge_all(m, completions)[k] == m[k])) by {
            assert forall|i: int| 0 <= i < prefix.len() implies prefix[i].0 != k by {
                assert(prefix[i] == completions[i]);
                assert(completions[i].0 != k);
            }
            assert(merge_all(m, prefix).contains_key(k) <==> m.contains_key(k));
            assert(m.contains_key(k) ==> merge_all(m, prefix)[k] == m[k]);
            assert(completions[completions.len() - 1].0 != k);
        }
    }
}

/// Completions for two distinct profile names merge order-independently:
/// whichever resolution finishes first, the final store is the same — no
/// lost update.
pub proof fn lemma_set_commutes(
    m: Map<Seq<char>, TemporaryCredentials>,
    n1: Seq<char>,
    c1: TemporaryCredentials,
    n2: Seq<char>,
    c2: TemporaryCredentials,
)
    requires
        n1 != n2,
    ensures
        m.insert(n1, c1).insert(n2, c2) == m.insert(n2, c2).insert(n1, c1),
{
    assert(m.insert(n1, c1).insert(n2, c2) =~= m.insert(n2, c2).insert(n1, c1));
}

/// A completion's merge touches exactly its own profile's entry: every other
/// name keeps its mapping, dropped never, duplicated never.
pub proof fn lemma_set_preserves_untouched(
    m: Map<Seq<char>, TemporaryCredentials>,
    name: Seq<char>,
    credentials: TemporaryCredentials,
    other: Seq<char>,
)
    requires
        other != name,
    ensures
        m.insert(name, credentials).contains_key(other) <==> m.contains_key(other),
        m.contains_key(other) ==> m.insert(name, credentials)[other] == m[other],
{
}

} // verus!
