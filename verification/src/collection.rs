//! The collection that a refresh publishes: entries by key, where a later
//! entry for a key replaces an earlier one.

use vstd::prelude::*;

verus! {

/// The mapping that a run of entries stands for: each entry is put in turn,
/// so the last one for a key is the one that stays.
pub open spec fn map_of<Val>(entries: Seq<(Vec<u8>, Val)>) -> Map<Seq<u8>, Val>
    decreases entries.len(),
{
    if entries.len() == 0 {
        Map::empty()
    } else {
        map_of(entries.drop_last()).insert(entries.last().0@, entries.last().1)
    }
}

/// Whether two byte strings hold the same bytes.
pub fn same_bytes(a: &[u8], b: &[u8]) -> (r: bool)
    ensures
        r == (a@ == b@),
{
    if a.len() != b.len() {
        return false;
    }
    let mut i: usize = 0;
    while i < a.len()
        invariant
            i <= a.len(),
            a.len() == b.len(),
            forall|j: int| 0 <= j < i ==> a@[j] == b@[j],
        decreases a.len() - i,
    {
        if a[i] != b[i] {
            return false;
        }
        i = i + 1;
    }
    assert(a@ =~= b@);
    true
}

/// Entries by key. Its view is the mapping from each key to its value.
pub struct EntryMap<Val> {
    entries: Vec<(Vec<u8>, Val)>,
}

impl<Val> View for EntryMap<Val> {
    type V = Map<Seq<u8>, Val>;

    closed spec fn view(&self) -> Map<Seq<u8>, Val> {
        map_of(self.entries@)
    }
}

impl<Val> EntryMap<Val> {
    /// The collection without entries.
    pub fn new() -> (r: EntryMap<Val>)
        ensures
            r@ == Map::<Seq<u8>, Val>::empty(),
    {
        EntryMap { entries: Vec::new() }
    }

    /// Puts `value` under `key`, in place of what was there.
    pub fn insert(&mut self, key: Vec<u8>, value: Val)
        ensures
            final(self)@ == old(self)@.insert(key@, value),
    {
        proof {
            assert(self.entries@.push((key, value)).drop_last() =~= self.entries@);
        }
        self.entries.push((key, value));
    }

    /// The value under `key`, if there is one.
    pub fn get(&self, key: &[u8]) -> (r: Option<&Val>)
        ensures
            r.is_some() == self@.contains_key(key@),
            r matches Some(v) ==> *v == self@[key@],
    {
        let mut i: usize = self.entries.len();
        proof {
            assert(self.entries@.take(i as int) =~= self.entries@);
        }
        while i > 0
            invariant
                i <= self.entries.len(),
                self@.contains_key(key@) == map_of(self.entries@.take(i as int)).contains_key(
                    key@,
                ),
                self@.contains_key(key@) ==> self@[key@] == map_of(
                    self.entries@.take(i as int),
                )[key@],
            decreases i,
        {
            proof {
                assert(self.entries@.take(i as int).drop_last() =~= self.entries@.take(i - 1));
            }
            i = i - 1;
            if same_bytes(self.entries[i].0.as_slice(), key) {
                return Some(&self.entries[i].1);
            }
        }
        assert(self.entries@.take(0) =~= Seq::<(Vec<u8>, Val)>::empty());
        None
    }

    /// Whether there is a value under `key`.
    pub fn contains_key(&self, key: &[u8]) -> (r: bool)
        ensures
            r == self@.contains_key(key@),
    {
        self.get(key).is_some()
    }
}

} // verus!
