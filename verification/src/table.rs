//! A string-keyed table whose key index lives in a `DashMap`.

use vstd::prelude::*;
use dashmap::DashMap;

verus! {

#[verifier::external_type_specification]
#[verifier::external_body]
#[verifier::reject_recursive_types(K)]
#[verifier::reject_recursive_types(V)]
#[verifier::reject_recursive_types(S)]
pub struct ExDashMap<K, V, S>(DashMap<K, V, S>);

/// What a key index holds: each key with the slot it names.
pub uninterp spec fn index_slots(m: DashMap<String, usize>) -> Map<Seq<char>, usize>;

/// `DashMap::new`: a map with no entries.
#[verifier::external_body]
fn index_new() -> (fresh: DashMap<String, usize>)
    ensures
        index_slots(fresh) =~= Map::empty(),
{
    DashMap::new()
}

/// `DashMap::get`: the slot stored under `key`, if any (the value is copied out of the guard).
#[verifier::external_body]
fn index_get(m: &DashMap<String, usize>, key: &str) -> (r: Option<usize>)
    ensures
        r == index_slots(*m).get(key@),
{
    m.get(key).map(|e| *e.value())
}

/// `DashMap::insert`: afterwards `key` maps to `slot`, all other keys are unchanged.
#[verifier::external_body]
fn index_insert(m: &mut DashMap<String, usize>, key: String, slot: usize)
    ensures
        index_slots(*final(m)) == index_slots(*old(m)).insert(key@, slot),
{
    m.insert(key, slot);
}

/// `DashMap::remove`: afterwards `key` is absent, all other keys are unchanged.
#[verifier::external_body]
fn index_remove(m: &mut DashMap<String, usize>, key: &str)
    ensures
        index_slots(*final(m)) == index_slots(*old(m)).remove(key@),
{
    m.remove(key);
}

/// A map from strings to values. Entries sit in a vector; a `DashMap`
/// indexes each key to its entry's position.
pub struct Table<V> {
    index: DashMap<String, usize>,
    entries: Vec<(String, V)>,
}

impl<V> Table<V> {
    /// The entries, in storage order.
    pub closed spec fn entry_seq(&self) -> Seq<(String, V)> {
        self.entries@
    }

    /// The keys, in storage order.
    pub closed spec fn key_seq(&self) -> Seq<Seq<char>> {
        self.entries@.map_values(|e: (String, V)| e.0@)
    }

    pub closed spec fn wf(&self) -> bool {
        &&& forall|i: int|
            #![trigger self.entries@[i]]
            0 <= i < self.entries@.len() ==> index_slots(self.index).contains_key(self.entries@[i].0@)
                && index_slots(self.index)[self.entries@[i].0@] == i
        &&& forall|k: Seq<char>|
            #![trigger index_slots(self.index).contains_key(k)]
            index_slots(self.index).contains_key(k) ==> index_slots(self.index)[k] < self.entries@.len()
                && self.entries@[index_slots(self.index)[k] as int].0@ == k
    }

    /// The table as a map from keys to values.
    pub closed spec fn view(&self) -> Map<Seq<char>, V> {
        Map::new(
            |k: Seq<char>| index_slots(self.index).contains_key(k),
            |k: Seq<char>| self.entries@[index_slots(self.index)[k] as int].1,
        )
    }

    pub fn new() -> (t: Self)
        ensures
            t.wf(),
            t.view() == Map::<Seq<char>, V>::empty(),
            t.key_seq() == Seq::<Seq<char>>::empty(),
    {
        let t = Table { index: index_new(), entries: Vec::new() };
        assert(t.view() =~= Map::<Seq<char>, V>::empty());
        assert(t.key_seq() =~= Seq::<Seq<char>>::empty());
        t
    }

    pub fn len(&self) -> (n: usize)
        requires
            self.wf(),
        ensures
            n == self.view().len(),
            n == self.key_seq().len(),
            n == self.entry_seq().len(),
    {
        proof { self.lemma_dom_is_keys(); }
        self.entries.len()
    }

    /// The keys form the domain, with no key twice.
    pub proof fn lemma_dom_is_keys(&self)
        requires
            self.wf(),
        ensures
            self.view().dom() == self.key_seq().to_set(),
            self.key_seq().no_duplicates(),
            self.view().dom().finite(),
            self.view().len() == self.key_seq().len(),
    {
        let ks = self.key_seq();
        assert forall|k: Seq<char>| self.view().dom().contains(k) <==> ks.to_set().contains(k) by {
            if self.view().dom().contains(k) {
                let i = index_slots(self.index)[k] as int;
                assert(ks[i] == k);
            }
            if ks.to_set().contains(k) {
                let i = choose|i: int| 0 <= i < ks.len() && ks[i] == k;
                assert(self.entries@[i].0@ == k);
            }
        }
        assert(self.view().dom() =~= ks.to_set());
        assert forall|i: int, j: int| 0 <= i < ks.len() && 0 <= j < ks.len() && i != j implies ks[i] != ks[j] by {
            assert(self.entries@[i].0@ == ks[i]);
            assert(self.entries@[j].0@ == ks[j]);
        }
        ks.unique_seq_to_set();
    }

    pub fn contains_key(&self, key: &str) -> (b: bool)
        requires
            self.wf(),
        ensures
            b == self.view().contains_key(key@),
    {
        index_get(&self.index, key).is_some()
    }

    pub fn get(&self, key: &str) -> (r: Option<&V>)
        requires
            self.wf(),
        ensures
            r == (if self.view().contains_key(key@) { Some(&self.view()[key@]) } else { None }),
    {
        match index_get(&self.index, key) {
            Some(slot) => Some(&self.entries[slot].1),
            None => None,
        }
    }

    /// The entry stored at position `i`.
    pub fn entry_at(&self, i: usize) -> (r: (&String, &V))
        requires
            self.wf(),
            i < self.entry_seq().len(),
        ensures
            *r.0 == self.entry_seq()[i as int].0,
            *r.1 == self.entry_seq()[i as int].1,
    {
        let e = &self.entries[i];
        (&e.0, &e.1)
    }

    /// Each stored entry is the table's value at its key.
    pub proof fn lemma_entries_agree(&self, i: int)
        requires
            self.wf(),
            0 <= i < self.entry_seq().len(),
        ensures
            self.key_seq()[i] == self.entry_seq()[i].0@,
            self.view().contains_key(self.entry_seq()[i].0@),
            self.view()[self.entry_seq()[i].0@] == self.entry_seq()[i].1,
    {
        assert(self.entries@[i] == self.entry_seq()[i]);
    }

    /// Stores `value` under `key`, replacing any earlier value.
    pub fn insert(&mut self, key: String, value: V)
        requires
            old(self).wf(),
        ensures
            final(self).wf(),
            final(self).view() == old(self).view().insert(key@, value),
            old(self).view().contains_key(key@) ==> final(self).key_seq() == old(self).key_seq(),
            !old(self).view().contains_key(key@) ==> final(self).key_seq() == old(self).key_seq().push(key@),
    {
        match index_get(&self.index, key.as_str()) {
            Some(slot) => {
                proof {
                    assert(index_slots(self.index).contains_key(key@));
                }
                self.entries.set(slot, (key, value));
                assert(self.view() =~= old(self).view().insert(key@, value));
                assert(self.key_seq() =~= old(self).key_seq());
            },
            None => {
                let n = self.entries.len();
                let k2 = key.clone();
                self.entries.push((key, value));
                index_insert(&mut self.index, k2, n);
                assert forall|k: Seq<char>|
                    #![trigger index_slots(self.index).contains_key(k)]
                    index_slots(self.index).contains_key(k) implies index_slots(self.index)[k] < self.entries@.len()
                        && self.entries@[index_slots(self.index)[k] as int].0@ == k by {
                    if k != key@ {
                        assert(index_slots(old(self).index).contains_key(k));
                    }
                }
                assert forall|i: int|
                    #![trigger self.entries@[i]]
                    0 <= i < self.entries@.len() implies index_slots(self.index).contains_key(self.entries@[i].0@)
                        && index_slots(self.index)[self.entries@[i].0@] == i by {
                    if i < n {
                        assert(old(self).entries@[i] == self.entries@[i]);
                        assert(index_slots(old(self).index).contains_key(self.entries@[i].0@));
                    }
                }
                assert(self.view() =~= old(self).view().insert(key@, value));
                assert(self.key_seq() =~= old(self).key_seq().push(key@));
            },
        }
    }

    /// Replaces the value under a key that is present, giving back the old value.
    pub fn replace(&mut self, key: &str, value: V) -> (prev: Option<V>)
        requires
            old(self).wf(),
        ensures
            final(self).wf(),
            old(self).view().contains_key(key@) ==> {
                &&& final(self).view() == old(self).view().insert(key@, value)
                &&& prev == Some(old(self).view()[key@])
            },
            !old(self).view().contains_key(key@) ==> final(self).view() == old(self).view() && prev is None,
            final(self).key_seq() == old(self).key_seq(),
    {
        match index_get(&self.index, key) {
            Some(slot) => {
                proof {
                    assert(index_slots(self.index).contains_key(key@));
                }
                let k = self.entries[slot].0.clone();
                let mut tmp = (k, value);
                self.entries.set_and_swap(slot, &mut tmp);
                assert(self.view() =~= old(self).view().insert(key@, value));
                assert(self.key_seq() =~= old(self).key_seq());
                Some(tmp.1)
            },
            None => {
                None
            },
        }
    }

    /// Removes `key`, giving back its value. The last entry moves into the freed position.
    pub fn remove(&mut self, key: &str) -> (prev: Option<V>)
        requires
            old(self).wf(),
        ensures
            final(self).wf(),
            final(self).view() == old(self).view().remove(key@),
            prev == (if old(self).view().contains_key(key@) { Some(old(self).view()[key@]) } else { None }),
    {
        match index_get(&self.index, key) {
            None => {
                assert(self.view() =~= old(self).view().remove(key@));
                None
            },
            Some(slot) => {
                proof {
                    assert(index_slots(self.index).contains_key(key@));
                }
                let ghost old_entries = self.entries@;
                let ghost last = (old_entries.len() - 1) as int;
                let removed = self.entries.swap_remove(slot);
                index_remove(&mut self.index, key);
                if slot < self.entries.len() {
                    let moved = self.entries[slot].0.clone();
                    proof {
                        assert(old_entries[last].0@ == moved@);
                        assert(index_slots(old(self).index).contains_key(moved@));
                        assert(moved@ != key@);
                    }
                    index_insert(&mut self.index, moved, slot);
                }
                let ghost ix = index_slots(self.index);
                let ghost oix = index_slots(old(self).index);
                assert forall|k: Seq<char>|
                    #![trigger index_slots(self.index).contains_key(k)]
                    index_slots(self.index).contains_key(k) implies index_slots(self.index)[k] < self.entries@.len()
                        && self.entries@[index_slots(self.index)[k] as int].0@ == k by {
                    assert(oix.contains_key(k));
                    assert(k != key@);
                    if oix[k] == last {
                        assert(old_entries[last].0@ == k);
                    } else {
                        assert(oix[k] != slot);
                    }
                }
                assert forall|i: int|
                    #![trigger self.entries@[i]]
                    0 <= i < self.entries@.len() implies index_slots(self.index).contains_key(self.entries@[i].0@)
                        && index_slots(self.index)[self.entries@[i].0@] == i by {
                    if i == slot {
                        assert(self.entries@[i] == old_entries[last]);
                    } else {
                        assert(self.entries@[i] == old_entries[i]);
                        assert(oix.contains_key(old_entries[i].0@));
                        assert(old_entries[i].0@ != key@);
                        assert(old_entries[i].0@ != old_entries[last].0@);
                    }
                }
                assert(self.view() =~= old(self).view().remove(key@)) by {
                    assert forall|k: Seq<char>| #[trigger] self.view().contains_key(k) implies
                        self.view()[k] == old(self).view()[k] by {
                        assert(oix.contains_key(k));
                        if oix[k] == last {
                            assert(old_entries[last].0@ == k);
                        }
                    }
                }
                Some(removed.1)
            },
        }
    }

    /// Removes every entry.
    pub fn clear(&mut self)
        requires
            old(self).wf(),
        ensures
            final(self).wf(),
            final(self).view() == Map::<Seq<char>, V>::empty(),
            final(self).key_seq() == Seq::<Seq<char>>::empty(),
    {
        self.index = index_new();
        self.entries.clear();
        assert(self.view() =~= Map::<Seq<char>, V>::empty());
        assert(self.key_seq() =~= Seq::<Seq<char>>::empty());
    }

    /// The keys, in storage order.
    pub fn keys(&self) -> (ks: Vec<String>)
        requires
            self.wf(),
        ensures
            ks@.map_values(|s: String| s@) == self.key_seq(),
    {
        let mut ks: Vec<String> = Vec::new();
        let mut i: usize = 0;
        while i < self.entries.len()
            invariant
                i <= self.entries@.len(),
                ks@.len() == i,
                forall|j: int| 0 <= j < i ==> #[trigger] ks@[j]@ == self.key_seq()[j],
            decreases self.entries@.len() - i,
        {
            ks.push(self.entries[i].0.clone());
            i = i + 1;
        }
        assert(ks@.map_values(|s: String| s@) =~= self.key_seq());
        ks
    }
}

} // verus!
