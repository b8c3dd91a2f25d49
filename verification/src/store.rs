//! Values found by text key: a concurrent-map index over a slab of slots.

use dashmap::DashMap;
use vstd::prelude::*;

verus! {

/// A concurrent hash map.
#[verifier::external_type_specification]
#[verifier::external_body]
#[verifier::reject_recursive_types(K)]
#[verifier::reject_recursive_types(V)]
#[verifier::reject_recursive_types(S)]
pub struct ExDashMap<K, V, S>(DashMap<K, V, S>);

/// What an index holds: for each key in it, the slot it points at.
pub uninterp spec fn index_entries(index: DashMap<String, usize>) -> Map<Seq<char>, usize>;

/// `DashMap::new`: an empty map.
#[verifier::external_body]
pub(crate) fn index_new() -> (index: DashMap<String, usize>)
    ensures
        index_entries(index).dom() == Set::<Seq<char>>::empty(),
{
    DashMap::new()
}

/// `DashMap::get`: the value under the key, if any. The lock that the lookup takes is released
/// before this returns.
#[verifier::external_body]
pub(crate) fn index_get(index: &DashMap<String, usize>, key: &str) -> (slot: Option<usize>)
    ensures
        slot is Some <==> index_entries(*index).contains_key(key@),
        slot is Some ==> slot->0 == index_entries(*index)[key@],
{
    index.get(key).map(|e| *e.value())
}

/// `DashMap::insert`: the key maps to the value afterwards, whatever it mapped to before.
#[verifier::external_body]
pub(crate) fn index_insert(index: &mut DashMap<String, usize>, key: String, slot: usize)
    ensures
        index_entries(*final(index)) == index_entries(*old(index)).insert(key@, slot),
{
    index.insert(key, slot);
}

/// `DashMap::remove`: the key is gone afterwards; returns what it mapped to.
#[verifier::external_body]
pub(crate) fn index_remove(index: &mut DashMap<String, usize>, key: &str) -> (slot: Option<usize>)
    ensures
        index_entries(*final(index)) == index_entries(*old(index)).remove(key@),
        slot is Some <==> index_entries(*old(index)).contains_key(key@),
        slot is Some ==> slot->0 == index_entries(*old(index))[key@],
{
    index.remove(key).map(|e| e.1)
}

/// `DashMap::clear`: nothing is left.
#[verifier::external_body]
pub(crate) fn index_clear(index: &mut DashMap<String, usize>)
    ensures
        index_entries(*final(index)).dom() == Set::<Seq<char>>::empty(),
{
    index.clear()
}

/// `DashMap::len`: the number of keys.
#[verifier::external_body]
pub(crate) fn index_len(index: &DashMap<String, usize>) -> (n: usize)
    ensures
        n == index_entries(*index).dom().len(),
{
    index.len()
}

/// `DashMap::iter`, first item: some key of the map, unless it is empty. Which one is up to the
/// hasher and the shard layout.
#[verifier::external_body]
pub(crate) fn index_any_key(index: &DashMap<String, usize>) -> (key: Option<String>)
    ensures
        key is None <==> index_entries(*index).dom() =~= Set::<Seq<char>>::empty(),
        key is Some ==> index_entries(*index).contains_key(key->0@),
{
    index.iter().next().map(|e| e.key().clone())
}

/// Values in numbered slots. A slot keeps its number until it is freed.
pub struct Slab<T> {
    slots: Vec<Option<T>>,
}

impl<T> View for Slab<T> {
    type V = Map<usize, T>;

    closed spec fn view(&self) -> Map<usize, T> {
        Map::new(
            |i: usize| i < self.slots@.len() && self.slots@[i as int] is Some,
            |i: usize| self.slots@[i as int]->0,
        )
    }
}

impl<T> Slab<T> {
    pub fn new() -> (s: Self)
        ensures
            s@ == Map::<usize, T>::empty(),
    {
        let s = Slab { slots: Vec::new() };
        assert(s@ =~= Map::<usize, T>::empty());
        s
    }

    /// Puts `value` into a free slot.
    pub fn insert(&mut self, value: T) -> (i: usize)
        ensures
            !old(self)@.contains_key(i),
            final(self)@ == old(self)@.insert(i, value),
    {
        let ghost before = self@;
        let mut i: usize = 0;
        while i < self.slots.len() && self.slots[i].is_some()
            invariant
                i <= self.slots.len(),
            decreases self.slots.len() - i,
        {
            i = i + 1;
        }
        if i < self.slots.len() {
            self.slots.set(i, Some(value));
        } else {
            self.slots.push(Some(value));
        }
        assert(self@ =~= before.insert(i, value));
        i
    }

    pub fn get(&self, i: usize) -> (value: &T)
        requires
            self@.contains_key(i),
        ensures
            *value == self@[i],
    {
        match &self.slots[i] {
            Some(value) => value,
            None => vstd::pervasive::unreached(),
        }
    }

    /// The value in slot `i`, where it is occupied.
    pub fn find(&self, i: usize) -> (value: Option<&T>)
        ensures
            value is Some <==> self@.contains_key(i),
            value is Some ==> *value->0 == self@[i],
    {
        if i < self.slots.len() {
            self.slots[i].as_ref()
        } else {
            None
        }
    }

    /// A number above that of every occupied slot.
    pub fn bound(&self) -> (n: usize)
        ensures
            forall|i: usize| #[trigger] self@.contains_key(i) ==> i < n,
    {
        self.slots.len()
    }

    /// Replaces the value in an occupied slot; returns the value that was there.
    pub fn replace(&mut self, i: usize, value: T) -> (before: T)
        requires
            old(self)@.contains_key(i),
        ensures
            before == old(self)@[i],
            final(self)@ == old(self)@.insert(i, value),
    {
        let ghost map = self@;
        let mut slot = Some(value);
        self.slots.set_and_swap(i, &mut slot);
        assert(self@ =~= map.insert(i, value));
        slot.unwrap()
    }

    /// Frees an occupied slot; returns the value that was there.
    pub fn remove(&mut self, i: usize) -> (before: T)
        requires
            old(self)@.contains_key(i),
        ensures
            before == old(self)@[i],
            final(self)@ == old(self)@.remove(i),
    {
        let ghost map = self@;
        let mut slot: Option<T> = None;
        self.slots.set_and_swap(i, &mut slot);
        assert(self@ =~= map.remove(i));
        slot.unwrap()
    }

    /// Frees every slot.
    pub fn clear(&mut self)
        ensures
            final(self)@ == Map::<usize, T>::empty(),
    {
        self.slots.clear();
        assert(self@ =~= Map::<usize, T>::empty());
    }
}

/// Values found by text key.
pub struct KeyedStore<T> {
    index: DashMap<String, usize>,
    slab: Slab<T>,
}

impl<T> View for KeyedStore<T> {
    type V = Map<Seq<char>, T>;

    closed spec fn view(&self) -> Map<Seq<char>, T> {
        Map::new(
            |k: Seq<char>| index_entries(self.index).contains_key(k),
            |k: Seq<char>| self.slab@[index_entries(self.index)[k]],
        )
    }
}

impl<T> KeyedStore<T> {
    /// Every key points at an occupied slot of its own.
    pub closed spec fn wf(&self) -> bool {
        let entries = index_entries(self.index);
        &&& entries.dom().finite()
        &&& forall|k: Seq<char>| #[trigger]
            entries.contains_key(k) ==> self.slab@.contains_key(entries[k])
        &&& forall|j: Seq<char>, k: Seq<char>|
            #![trigger entries[j], entries[k]]
            entries.contains_key(j) && entries.contains_key(k) && entries[j] == entries[k] ==> j
                == k
    }

    pub fn new() -> (s: Self)
        ensures
            s.wf(),
            s@ == Map::<Seq<char>, T>::empty(),
    {
        let s = KeyedStore { index: index_new(), slab: Slab::new() };
        assert(s@ =~= Map::<Seq<char>, T>::empty());
        s
    }

    pub fn get(&self, key: &str) -> (value: Option<&T>)
        requires
            self.wf(),
        ensures
            value is Some <==> self@.contains_key(key@),
            value is Some ==> *value->0 == self@[key@],
    {
        match index_get(&self.index, key) {
            Some(slot) => Some(self.slab.get(slot)),
            None => None,
        }
    }

    /// Sets the value under `key`, replacing what was there.
    pub fn insert(&mut self, key: String, value: T)
        requires
            old(self).wf(),
        ensures
            final(self).wf(),
            final(self)@ == old(self)@.insert(key@, value),
    {
        let ghost before = self@;
        let ghost k = key@;
        match index_get(&self.index, key.as_str()) {
            Some(slot) => {
                let _replaced = self.slab.replace(slot, value);
            },
            None => {
                let slot = self.slab.insert(value);
                index_insert(&mut self.index, key, slot);
            },
        }
        assert(self@ =~= before.insert(k, value));
    }

    /// Drops the value under `key`, if there is one.
    pub fn remove(&mut self, key: &str)
        requires
            old(self).wf(),
        ensures
            final(self).wf(),
            final(self)@ == old(self)@.remove(key@),
    {
        let ghost before = self@;
        if let Some(slot) = index_remove(&mut self.index, key) {
            let _removed = self.slab.remove(slot);
        }
        assert(self@ =~= before.remove(key@));
    }

    pub fn clear(&mut self)
        requires
            old(self).wf(),
        ensures
            final(self).wf(),
            final(self)@ == Map::<Seq<char>, T>::empty(),
    {
        index_clear(&mut self.index);
        self.slab.clear();
        assert(self@ =~= Map::<Seq<char>, T>::empty());
    }

    pub fn len(&self) -> (n: usize)
        requires
            self.wf(),
        ensures
            self@.dom().finite(),
            n == self@.dom().len(),
    {
        assert(self@.dom() =~= index_entries(self.index).dom());
        index_len(&self.index)
    }

    /// Some key of the store, unless it is empty.
    pub fn any_key(&self) -> (key: Option<String>)
        requires
            self.wf(),
        ensures
            key is None <==> self@.dom() =~= Set::<Seq<char>>::empty(),
            key is Some ==> self@.contains_key(key->0@),
    {
        assert(self@.dom() =~= index_entries(self.index).dom());
        index_any_key(&self.index)
    }
}

} // verus!
