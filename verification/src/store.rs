//! Entity store: deterministic-address-derived account storage reproduced
//! as an explicit table. A record is addressed by its content key — entity
//! type, owner, instrument, nonce — and each address holds at most one
//! record.

use vstd::prelude::*;

verus! {

/// Content address of an entity record.
#[derive(Clone, Copy, Debug, PartialEq, Eq, Structural)]
pub struct EntityKey {
    /// Which kind of entity lives at this address (markets, positions,
    /// rounds, bets and vaults each use a tag of their own).
    pub entity_type: u8,
    /// Identity of the owning party, zero for protocol-owned entities.
    pub owner_id: u64,
    /// Identity of the instrument the entity belongs to.
    pub instrument_id: u64,
    /// Distinguishes repeated entities of one owner and instrument.
    pub nonce: i64,
}

/// The mapping a sequence of entries denotes; a later entry would shadow
/// an earlier one, though a well-formed table never has two entries with
/// one key.
pub open spec fn map_of<V>(s: Seq<(EntityKey, V)>) -> Map<EntityKey, V>
    decreases s.len(),
{
    if s.len() == 0 {
        Map::empty()
    } else {
        map_of(s.drop_last()).insert(s.last().0, s.last().1)
    }
}

/// An explicit table of entity records with unique keys.
pub struct EntityTable<V> {
    entries: Vec<(EntityKey, V)>,
}

/// No two entries share a key.
pub open spec fn unique_keys<V>(s: Seq<(EntityKey, V)>) -> bool {
    forall|p: int, q: int|
        0 <= p < q < s.len() ==> (#[trigger] s[p]).0 != (#[trigger] s[q]).0
}

/// A key is in the denoted mapping exactly when some entry carries it.
proof fn lemma_map_of_contains<V>(s: Seq<(EntityKey, V)>, key: EntityKey)
    ensures
        map_of(s).contains_key(key) <==> exists|i: int| 0 <= i < s.len() && (#[trigger] s[i]).0
            == key,
    decreases s.len(),
{
    if s.len() > 0 {
        let prefix = s.drop_last();
        lemma_map_of_contains(prefix, key);
        if s.last().0 == key {
            assert((s[s.len() - 1]).0 == key);
        } else {
            if exists|i: int| 0 <= i < prefix.len() && (#[trigger] prefix[i]).0 == key {
                let i = choose|i: int| 0 <= i < prefix.len() && (#[trigger] prefix[i]).0 == key;
                assert((s[i]).0 == key);
            }
            if exists|i: int| 0 <= i < s.len() && (#[trigger] s[i]).0 == key {
                let i = choose|i: int| 0 <= i < s.len() && (#[trigger] s[i]).0 == key;
                assert((prefix[i]).0 == key);
            }
        }
    }
}

/// Under unique keys, the mapping sends each entry's key to its value.
proof fn lemma_map_of_index<V>(s: Seq<(EntityKey, V)>, i: int)
    requires
        0 <= i < s.len(),
        unique_keys(s),
    ensures
        map_of(s).contains_key((s[i]).0),
        map_of(s)[(s[i]).0] == (s[i]).1,
    decreases s.len(),
{
    let last = s.len() - 1;
    if i < last {
        let prefix = s.drop_last();
        assert((s[i]).0 != (s[last]).0);
        assert(unique_keys(prefix)) by {
            assert(forall|p: int, q: int|
                0 <= p < q < prefix.len() ==> (#[trigger] prefix[p]).0 != (#[trigger] prefix[q]).0)
                by {
                assert(forall|p: int| 0 <= p < prefix.len() ==> prefix[p] == s[p]);
            }
        }
        lemma_map_of_index(prefix, i);
    }
}

/// Appending a fresh entry inserts its binding.
proof fn lemma_map_of_push<V>(s: Seq<(EntityKey, V)>, key: EntityKey, value: V)
    ensures
        map_of(s.push((key, value))) == map_of(s).insert(key, value),
{
    assert(s.push((key, value)).drop_last() =~= s);
    assert(s.push((key, value)).last() == (key, value));
}

/// Overwriting the entry that carries a key updates its binding.
proof fn lemma_map_of_update<V>(s: Seq<(EntityKey, V)>, i: int, key: EntityKey, value: V)
    requires
        0 <= i < s.len(),
        (s[i]).0 == key,
        unique_keys(s),
    ensures
        map_of(s.update(i, (key, value))) == map_of(s).insert(key, value),
    decreases s.len(),
{
    let s2 = s.update(i, (key, value));
    let last = s.len() - 1;
    let prefix = s.drop_last();
    if i == last {
        assert(s2.drop_last() =~= prefix);
        assert(s2.last() == (key, value));
        assert(map_of(prefix).insert(key, s.last().1).insert(key, value) =~= map_of(
            prefix,
        ).insert(key, value));
    } else {
        assert(s2.drop_last() =~= prefix.update(i, (key, value)));
        assert(s2.last() == s.last());
        assert(unique_keys(prefix)) by {
            assert(forall|p: int| 0 <= p < prefix.len() ==> prefix[p] == s[p]);
        }
        assert((prefix[i]).0 == key);
        lemma_map_of_update(prefix, i, key, value);
        assert((s[i]).0 != (s[last]).0);
        assert(map_of(prefix).insert(key, value).insert(s.last().0, s.last().1) =~= map_of(
            prefix,
        ).insert(s.last().0, s.last().1).insert(key, value));
    }
}

impl<V> EntityTable<V> {
    /// The mapping this table holds.
    pub closed spec fn as_map(&self) -> Map<EntityKey, V> {
        map_of(self.entries@)
    }

    /// Each address holds at most one record.
    pub closed spec fn wf(&self) -> bool {
        unique_keys(self.entries@)
    }

    /// An empty store.
    pub fn new() -> (t: Self)
        ensures
            t.wf(),
            t.as_map() == Map::<EntityKey, V>::empty(),
    {
        EntityTable { entries: Vec::new() }
    }

    /// The index of the entry carrying a key, if any.
    fn find(&self, key: &EntityKey) -> (r: Option<usize>)
        ensures
            match r {
                Some(i) => i < self.entries@.len() && (self.entries@[i as int]).0 == *key,
                None => forall|j: int|
                    0 <= j < self.entries@.len() ==> (#[trigger] self.entries@[j]).0 != *key,
            },
    {
        let n = self.entries.len();
        let mut i: usize = 0;
        while i < n
            invariant
                i <= n,
                n == self.entries@.len(),
                forall|j: int| 0 <= j < i ==> (#[trigger] self.entries@[j]).0 != *key,
            decreases n - i,
        {
            if self.entries[i].0 == *key {
                return Some(i);
            }
            i = i + 1;
        }
        None
    }

    /// Whether a record lives at this address.
    pub fn contains_key(&self, key: &EntityKey) -> (r: bool)
        requires
            self.wf(),
        ensures
            r == self.as_map().contains_key(*key),
    {
        proof {
            lemma_map_of_contains(self.entries@, *key);
        }
        match self.find(key) {
            Some(i) => true,
            None => false,
        }
    }

    /// The record at an address, if one exists.
    pub fn get(&self, key: &EntityKey) -> (r: Option<&V>)
        requires
            self.wf(),
        ensures
            match r {
                Some(v) => self.as_map().contains_key(*key) && *v == self.as_map()[*key],
                None => !self.as_map().contains_key(*key),
            },
    {
        proof {
            lemma_map_of_contains(self.entries@, *key);
        }
        match self.find(key) {
            Some(i) => {
                proof {
                    lemma_map_of_index(self.entries@, i as int);
                }
                Some(&self.entries[i].1)
            },
            None => None,
        }
    }

    /// Stores a record at an address, replacing whatever was there.
    pub fn insert(&mut self, key: EntityKey, value: V)
        requires
            old(self).wf(),
        ensures
            final(self).wf(),
            final(self).as_map() == old(self).as_map().insert(key, value),
    {
        match self.find(&key) {
            Some(i) => {
                proof {
                    lemma_map_of_update(self.entries@, i as int, key, value);
                }
                let ghost s_old = self.entries@;
                self.entries[i] = (key, value);
                proof {
                    assert(self.entries@ =~= s_old.update(i as int, (key, value)));
                    assert(unique_keys(self.entries@)) by {
                        assert(forall|j: int|
                            0 <= j < self.entries@.len() ==> (#[trigger] self.entries@[j]).0 == (
                            s_old[j]).0);
                    }
                }
            },
            None => {
                proof {
                    lemma_map_of_push(self.entries@, key, value);
                }
                let ghost s_old = self.entries@;
                self.entries.push((key, value));
                proof {
                    assert(self.entries@ =~= s_old.push((key, value)));
                }
            },
        }
    }
}

} // verus!
