//! A registry: values of one type, each under a string id and reachable by a
//! key that never changes once handed out.
pub mod entry;
pub mod files;
pub mod key;
pub mod keymap;
pub mod laws;
pub mod spec;

use vstd::hash_map::StringHashMap;
use vstd::prelude::*;

use self::entry::{Entry, EntryMut, EntryRef, EntryView};
use self::laws::law_reload_marks_missing_entries_stale;
use self::key::{key_at, lemma_key_at_of_view, lemma_key_at_view, lemma_key_view_bound, lemma_key_view_injective, Key};
use self::spec::{
    has_id, ids_unique, index_of, insert_pair, insert_pairs, key_position, keys_match,
    lemma_index_of_unique, lemma_keys_match_facts, lemma_keys_match_keeps_ids, lemma_keys_match_push,
    lemma_keys_match_same_ids, pair_views, same_ids, set_value, spec_get_or_insert, store_pair, with_value, yeet_entries,
};

verus! {

broadcast use {lemma_key_at_view, lemma_key_view_bound, lemma_key_view_injective};

/// The map from ids to keys that a registry keeps.
pub type RegistryKeyMap<T> = StringHashMap<Key<T>>;

/// The entries of a registry, in key order.
pub struct RegistryValueMap<T> {
    entries: Vec<Entry<T>>,
}

impl<T> View for RegistryValueMap<T> {
    type V = Seq<EntryView<T>>;

    closed spec fn view(&self) -> Seq<EntryView<T>> {
        Seq::new(self.entries@.len(), |i: int| self.entries@[i]@)
    }
}


/// Values of one type, each under a unique string id, reachable through keys
/// that stay valid for the registry's lifetime.
#[verifier::reject_recursive_types(T)]
pub struct Registry<T> {
    id_to_key: RegistryKeyMap<T>,
    key_to_entry: RegistryValueMap<T>,
}

impl<T> View for Registry<T> {
    type V = Seq<EntryView<T>>;

    closed spec fn view(&self) -> Seq<EntryView<T>> {
        self.key_to_entry@
    }
}

impl<T> Registry<T> {
    /// The registry's internal invariant: its key map names exactly its
    /// entries.
    pub closed spec fn wf(&self) -> bool {
        keys_match(self.id_to_key@, self.key_to_entry@)
    }

    /// An empty registry.
    pub fn new() -> (r: Self)
        ensures
            r.wf(),
            r@ == Seq::<EntryView<T>>::empty(),
    {
        Self::with_capacity(0)
    }

    /// An empty registry with room for `capacity` entries.
    pub fn with_capacity(capacity: usize) -> (r: Self)
        ensures
            r.wf(),
            r@ == Seq::<EntryView<T>>::empty(),
    {
        let r = Registry {
            id_to_key: StringHashMap::with_capacity(capacity),
            key_to_entry: RegistryValueMap { entries: Vec::with_capacity(capacity) },
        };
        assert(r.key_to_entry@ =~= Seq::<EntryView<T>>::empty());
        r
    }

    /// The key of the entry with this id, creating an entry without a value
    /// when there is none.
    pub fn get_or_insert_key(&mut self, id: String) -> (r: Key<T>)
        requires
            old(self).wf(),
            has_id(old(self)@, id@) || old(self)@.len() <= u32::MAX,
        ensures
            final(self).wf(),
            final(self)@ == spec_get_or_insert(old(self)@, id@),
            r@ == key_position(old(self)@, id@),
    {
        proof {
            lemma_keys_match_facts(self.id_to_key@, self.key_to_entry@);
        }
        match self.id_to_key.get(id.as_str()) {
            Some(k) => {
                proof {
                    lemma_index_of_unique(self@, id@, k@ as int);
                }
                *k
            },
            None => self.push_entry(Entry::new(id)),
        }
    }

    /// Gives the entry with this id the value, creating the entry when there
    /// is none, and returns its key.
    fn get_or_insert_key_value(&mut self, id: String, value: T) -> (r: Key<T>)
        requires
            old(self).wf(),
            has_id(old(self)@, id@) || old(self)@.len() <= u32::MAX,
        ensures
            final(self).wf(),
            final(self)@ == insert_pair(old(self)@, id@, value),
            r@ == key_position(old(self)@, id@),
    {
        proof {
            lemma_keys_match_facts(self.id_to_key@, self.key_to_entry@);
        }
        match self.id_to_key.get(id.as_str()) {
            Some(k) => {
                let key = *k;
                proof {
                    lemma_index_of_unique(self@, id@, k@ as int);
                }
                self.key_to_entry.replace_value(key, value);
                key
            },
            None => self.push_entry(Entry::from_id_value(id, value)),
        }
    }

    /// Appends an entry whose id no entry carries yet.
    fn push_entry(&mut self, entry: Entry<T>) -> (r: Key<T>)
        requires
            old(self).wf(),
            !has_id(old(self)@, entry@.id),
            old(self)@.len() <= u32::MAX,
        ensures
            final(self).wf(),
            final(self)@ == old(self)@.push(entry@),
            r@ == old(self)@.len(),
    {
        let key = Key::new(self.key_to_entry.entries.len());
        let ghost old_entries = self.key_to_entry@;
        let id = entry.id().to_owned();
        let ghost e = entry@;
        self.key_to_entry.entries.push(entry);
        proof {
            assert(self.key_to_entry@ =~= old_entries.push(e));
            lemma_keys_match_push(self.id_to_key@, old_entries, e, key);
        }
        self.id_to_key.insert(id, key);
        key
    }

    /// The map from ids to keys, as plain values.
    pub closed spec fn key_map(&self) -> Map<Seq<char>, Key<T>> {
        self.id_to_key@
    }

    /// A registry whose key map matches its entries is well formed.
    pub proof fn lemma_wf_from_keys_match(r: &Registry<T>)
        requires
            keys_match(r.key_map(), r@),
        ensures
            r.wf(),
    {
    }

    /// The registry's invariant, seen through its parts.
    pub proof fn lemma_wf_keys_match(&self)
        requires
            self.wf(),
        ensures
            keys_match(self.key_map(), self@),
            ids_unique(self@),
    {
        lemma_keys_match_facts(self.id_to_key@, self.key_to_entry@);
    }

    /// Adds the pair: an entry with this id is given the value, otherwise a
    /// new entry holding it is appended.  When every position is taken and
    /// the id is new, the registry stays as it is.
    fn insert_pair(&mut self, id: String, value: T)
        requires
            old(self).wf(),
        ensures
            final(self).wf(),
            final(self)@ == insert_pair(old(self)@, id@, value),
    {
        proof {
            lemma_keys_match_facts(self.id_to_key@, self.key_to_entry@);
        }
        if self.id_to_key.contains_key(id.as_str()) || self.key_to_entry.entries.len() <= 0xffff_ffffusize {
            self.get_or_insert_key_value(id, value);
        }
    }

    /// Adds every pair, in order, as `insert_pair` does.
    pub fn extend_pairs(&mut self, pairs: Vec<(String, T)>)
        requires
            old(self).wf(),
        ensures
            final(self).wf(),
            final(self)@ == insert_pairs(old(self)@, pair_views(pairs@)),
    {
        let ghost start = self@;
        let ghost all = pair_views(pairs@);
        let ghost ps = pairs@;
        for p in it: pairs.into_iter()
            invariant
                self.wf(),
                it.seq() == ps,
                all == pair_views(ps),
                self@ == insert_pairs(start, all.take(it.index())),
        {
            let ghost done = it.index();
            proof {
                assert(all.take(done + 1).drop_last() =~= all.take(done));
                assert(all.take(done + 1).last() == all[done]);
            }
            let (id, value) = p;
            self.insert_pair(id, value);
        }
        proof {
            assert(all.take(ps.len() as int) =~= all);
        }
    }

    /// Loads the registry afresh from `pairs`: every entry is first marked as
    /// left over from the earlier load, then the pairs are added in order.
    /// Keys handed out before stay valid.  Afterwards an entry is current
    /// exactly when some pair carries its id, and an entry that no pair
    /// mentions keeps its old value.
    pub fn reload(&mut self, pairs: Vec<(String, T)>)
        requires
            old(self).wf(),
        ensures
            final(self).wf(),
            final(self)@ == insert_pairs(yeet_entries(old(self)@), pair_views(pairs@)),
            old(self)@.len() + pairs@.len() <= u32::MAX + 1 ==> forall|x: Seq<char>|
                #[trigger] has_id(final(self)@, x) ==> {
                    &&& (!final(self)@[index_of(final(self)@, x)].yeeted <==> exists|j: int|
                        0 <= j < pairs@.len() && (#[trigger] pairs@[j]).0@ == x)
                    &&& (forall|j: int| 0 <= j < pairs@.len() ==> (#[trigger] pairs@[j]).0@ != x)
                        ==> final(self)@[index_of(final(self)@, x)].value == old(self)@[index_of(
                        old(self)@,
                        x,
                    )].value
                },
    {
        let ghost before = *self;
        let ghost ps = pair_views(pairs@);
        let ghost raw = pairs@;
        self.yeet_all();
        self.extend_pairs(pairs);
        proof {
            if before@.len() + raw.len() <= u32::MAX + 1 {
                assert forall|x: Seq<char>| #[trigger] has_id(self@, x) implies {
                    &&& (!self@[index_of(self@, x)].yeeted <==> exists|j: int|
                        0 <= j < raw.len() && (#[trigger] raw[j]).0@ == x)
                    &&& (forall|j: int| 0 <= j < raw.len() ==> (#[trigger] raw[j]).0@ != x)
                        ==> self@[index_of(self@, x)].value == before@[index_of(before@, x)].value
                } by {
                    law_reload_marks_missing_entries_stale(&before, ps, x);
                    assert((exists|j: int| 0 <= j < ps.len() && (#[trigger] ps[j]).0 == x) <==> (exists|j: int|
                        0 <= j < raw.len() && (#[trigger] raw[j]).0@ == x)) by {
                        if exists|j: int| 0 <= j < ps.len() && (#[trigger] ps[j]).0 == x {
                            let j = choose|j: int| 0 <= j < ps.len() && (#[trigger] ps[j]).0 == x;
                            assert(raw[j].0@ == ps[j].0);
                        }
                        if exists|j: int| 0 <= j < raw.len() && (#[trigger] raw[j]).0@ == x {
                            let j = choose|j: int| 0 <= j < raw.len() && (#[trigger] raw[j]).0@ == x;
                            assert(raw[j].0@ == ps[j].0);
                        }
                    }
                    if forall|j: int| 0 <= j < raw.len() ==> (#[trigger] raw[j]).0@ != x {
                        assert forall|j: int| 0 <= j < ps.len() implies (#[trigger] ps[j]).0 != x by {
                            assert(raw[j].0@ == ps[j].0);
                        }
                    }
                }
            }
        }
    }

    /// A registry holding the pairs, added in order.
    pub fn from_pairs(pairs: Vec<(String, T)>) -> (r: Self)
        ensures
            r.wf(),
            r@ == insert_pairs(Seq::<EntryView<T>>::empty(), pair_views(pairs@)),
    {
        let mut r = Self::with_capacity(pairs.len());
        r.extend_pairs(pairs);
        r
    }

    /// The key map and the entries as separate borrows, so that the entries'
    /// values can be filled in while the key map is read.
    pub fn split_mut(&mut self) -> (r: (&RegistryKeyMap<T>, &mut RegistryValueMap<T>))
        requires
            old(self).wf(),
        ensures
            r.0@ == old(self).key_map(),
            r.1@ == old(self)@,
            keys_match(r.0@, r.1@),
            final(self).key_map() == old(self).key_map(),
            final(self)@ == final(r.1)@,
    {
        (&self.id_to_key, &mut self.key_to_entry)
    }

    /// The number of entries.
    pub fn len(&self) -> (r: usize)
        ensures
            r == self@.len(),
    {
        self.key_to_entry.entries.len()
    }

    /// Whether the registry has no entries.
    pub fn is_empty(&self) -> (r: bool)
        ensures
            r == (self@.len() == 0),
    {
        self.key_to_entry.entries.len() == 0
    }

    /// The value of the entry under `key`.
    pub fn value(&self, key: Key<T>) -> (r: &T)
        requires
            self.wf(),
            key@ < self@.len(),
            self@[key@ as int].value is Some,
        ensures
            *r == self@[key@ as int].value->0,
    {
        self.key_to_entry.entries[key.index()].value_ref().unwrap()
    }

    /// Gives the entry under `key` the value, returning the one it held.
    pub fn insert_value(&mut self, key: Key<T>, value: T) -> (r: Option<T>)
        requires
            old(self).wf(),
            key@ < old(self)@.len(),
        ensures
            final(self).wf(),
            r == old(self)@[key@ as int].value,
            final(self)@ == set_value(old(self)@, key@ as int, value),
    {
        self.key_to_entry.replace_value(key, value)
    }

    /// The entry under `key`.
    pub fn entry<'l>(&'l self, key: Key<T>) -> (r: EntryRef<'l, T>)
        requires
            self.wf(),
            key@ < self@.len(),
        ensures
            r.key == key,
            r.id@ == self@[key@ as int].id,
            r.value == (match self@[key@ as int].value {
                Some(v) => Some(&v),
                None => None::<&T>,
            }),
            r.yeeted == self@[key@ as int].yeeted,
    {
        self.key_to_entry.entries[key.index()].as_ref(key)
    }

    /// The entry under `key`, with its value open to change.
    pub fn entry_mut<'l>(&'l mut self, key: Key<T>) -> (r: EntryMut<'l, T>)
        requires
            old(self).wf(),
            key@ < old(self)@.len(),
        ensures
            r.key == key,
            r.id@ == old(self)@[key@ as int].id,
            r.yeeted == old(self)@[key@ as int].yeeted,
            r.value is Some <==> old(self)@[key@ as int].value is Some,
            r.value matches Some(v) ==> *v == old(self)@[key@ as int].value->0,
            final(self).wf(),
            final(self)@.len() == old(self)@.len(),
            forall|i: int|
                0 <= i < old(self)@.len() && i != key@ ==> final(self)@[i] == old(self)@[i],
            final(self)@[key@ as int].id == old(self)@[key@ as int].id,
            final(self)@[key@ as int].yeeted == old(self)@[key@ as int].yeeted,
            r.value matches Some(v) ==> final(self)@[key@ as int].value == Some(*final(v)),
            r.value is None ==> final(self)@[key@ as int].value is None,
    {
        proof {
            lemma_keys_match_keeps_ids(self.id_to_key@, self.key_to_entry@);
        }
        self.key_to_entry.entries[key.index()].as_mut(key)
    }

    /// The value of the entry under `key`, open to change in place.
    pub fn value_mut(&mut self, key: Key<T>) -> (r: &mut T)
        requires
            old(self).wf(),
            key@ < old(self)@.len(),
            old(self)@[key@ as int].value is Some,
        ensures
            *r == old(self)@[key@ as int].value->0,
            final(self).wf(),
            final(self)@ == old(self)@.update(
                key@ as int,
                EntryView { value: Some(*final(r)), ..old(self)@[key@ as int] },
            ),
    {
        let e = self.entry_mut(key);
        e.value.unwrap()
    }

    /// The key of the entry with this id, if there is one.
    pub fn get_key(&self, id: &str) -> (r: Option<Key<T>>)
        requires
            self.wf(),
        ensures
            r == (if has_id(self@, id@) {
                Some(key_at::<T>(index_of(self@, id@) as nat))
            } else {
                None
            }),
    {
        proof {
            lemma_keys_match_facts(self.id_to_key@, self.key_to_entry@);
        }
        match self.id_to_key.get(id) {
            Some(k) => {
                proof {
                    lemma_index_of_unique(self@, id@, k@ as int);
                    lemma_key_at_of_view(*k);
                }
                Some(*k)
            },
            None => None,
        }
    }

    /// Marks every entry as left over from an earlier load; values stay.
    pub fn yeet_all(&mut self)
        requires
            old(self).wf(),
        ensures
            final(self).wf(),
            final(self)@ == yeet_entries(old(self)@),
    {
        let n = self.key_to_entry.entries.len();
        let ghost old_entries = self.key_to_entry@;
        for i in 0..n
            invariant
                n == old_entries.len(),
                self.key_to_entry@.len() == n,
                keys_match(self.id_to_key@, old_entries),
                forall|j: int| 0 <= j < i ==> (#[trigger] self.key_to_entry@[j]) == (EntryView {
                    yeeted: true,
                    ..old_entries[j]
                }),
                forall|j: int| i <= j < n ==> (#[trigger] self.key_to_entry@[j]) == old_entries[j],
        {
            self.key_to_entry.yeet_at(i);
        }
        proof {
            lemma_keys_match_same_ids(self.id_to_key@, old_entries, self.key_to_entry@);
            assert(self.key_to_entry@ =~= yeet_entries(old_entries));
        }
    }

    /// All entries with their keys, in key order, with their values open to
    /// change.
    pub fn iter_mut<'l>(&'l mut self) -> (r: Vec<EntryMut<'l, T>>)
        requires
            old(self).wf(),
        ensures
            final(self).wf(),
            r@.len() == old(self)@.len(),
            forall|i: int|
                0 <= i < old(self)@.len() ==> {
                    &&& (#[trigger] r@[i]).key@ == i
                    &&& r@[i].id@ == old(self)@[i].id
                    &&& r@[i].yeeted == old(self)@[i].yeeted
                    &&& (r@[i].value is Some <==> old(self)@[i].value is Some)
                    &&& (r@[i].value matches Some(v) ==> *v == old(self)@[i].value->0)
                },
            final(self)@.len() == old(self)@.len(),
            forall|i: int|
                0 <= i < old(self)@.len() ==> {
                    &&& (#[trigger] final(self)@[i]).id == old(self)@[i].id
                    &&& final(self)@[i].yeeted == old(self)@[i].yeeted
                    &&& (r@[i].value matches Some(v) ==> final(self)@[i].value == Some(*final(v)))
                    &&& (r@[i].value is None ==> final(self)@[i].value is None)
                },
    {
        proof {
            lemma_keys_match_keeps_ids(self.id_to_key@, self.key_to_entry@);
        }
        self.key_to_entry.entries_mut()
    }

    /// All entries with their keys, in key order.
    pub fn iter<'l>(&'l self) -> (r: Vec<EntryRef<'l, T>>)
        requires
            self.wf(),
        ensures
            r@.len() == self@.len(),
            forall|i: int|
                0 <= i < self@.len() ==> {
                    &&& (#[trigger] r@[i]).key@ == i
                    &&& r@[i].id@ == self@[i].id
                    &&& r@[i].value == (match self@[i].value {
                        Some(v) => Some(&v),
                        None => None::<&T>,
                    })
                    &&& r@[i].yeeted == self@[i].yeeted
                },
    {
        let n = self.key_to_entry.entries.len();
        let mut out: Vec<EntryRef<'l, T>> = Vec::with_capacity(n);
        for i in 0..n
            invariant
                n == self@.len(),
                self.wf(),
                out@.len() == i,
                forall|j: int|
                    0 <= j < i ==> {
                        &&& (#[trigger] out@[j]).key@ == j
                        &&& out@[j].id@ == self@[j].id
                        &&& out@[j].value == (match self@[j].value {
                            Some(v) => Some(&v),
                            None => None::<&T>,
                        })
                        &&& out@[j].yeeted == self@[j].yeeted
                    },
        {
            let key = Key::new(i);
            out.push(self.key_to_entry.entries[i].as_ref(key));
        }
        out
    }
}

impl<T> core::ops::Index<Key<T>> for Registry<T> {
    type Output = T;

    fn index(&self, key: Key<T>) -> (r: &T)
        ensures
            *r == self@[key@ as int].value->0,
    {
        self.value(key)
    }
}

impl<T> core::ops::IndexMut<Key<T>> for Registry<T> {
    fn index_mut(&mut self, key: Key<T>) -> (r: &mut T)
        requires
            old(self).wf(),
            key@ < old(self)@.len(),
            old(self)@[key@ as int].value is Some,
        ensures
            *r == old(self)@[key@ as int].value->0,
            final(self).wf(),
            final(self)@ == old(self)@.update(
                key@ as int,
                EntryView { value: Some(*final(r)), ..old(self)@[key@ as int] },
            ),
    {
        self.value_mut(key)
    }
}

impl<T> vstd::std_specs::core::IndexSpecImpl<Key<T>> for Registry<T> {
    open spec fn index_req(&self, key: &Key<T>) -> bool {
        &&& self.wf()
        &&& key@ < self@.len()
        &&& self@[key@ as int].value is Some
    }
}

impl<T: Clone> Clone for Registry<T> {
    /// A registry with the same ids under the same keys, the same marks, and
    /// clones of the values.
    fn clone(&self) -> (r: Self)
        ensures
            self.wf() ==> {
                &&& r.wf()
                &&& r@.len() == self@.len()
                &&& forall|i: int|
                    0 <= i < self@.len() ==> {
                        &&& (#[trigger] r@[i]).id == self@[i].id
                        &&& r@[i].yeeted == self@[i].yeeted
                        &&& (r@[i].value is Some <==> self@[i].value is Some)
                        &&& (r@[i].value matches Some(v) ==> cloned::<T>(self@[i].value->0, v))
                    }
            },
    {
        let n = self.key_to_entry.entries.len();
        let mut r = Registry::with_capacity(n);
        let mut i: usize = 0;
        while i < n
            invariant
                n == self@.len(),
                i <= n,
                r.wf(),
                self.wf() ==> {
                    &&& r@.len() == i
                    &&& forall|j: int|
                        0 <= j < i ==> {
                            &&& (#[trigger] r@[j]).id == self@[j].id
                            &&& r@[j].yeeted == self@[j].yeeted
                            &&& (r@[j].value is Some <==> self@[j].value is Some)
                            &&& (r@[j].value matches Some(v) ==> cloned::<T>(self@[j].value->0, v))
                        }
                },
            decreases n - i,
        {
            let entry = self.key_to_entry.entries[i].clone();
            if r.key_to_entry.entries.len() > 0xffff_ffffusize || r.id_to_key.contains_key(entry.id()) {
                // Only a registry whose ids repeat, or with more entries than
                // keys can name, gets here.
                proof {
                    if self.wf() {
                        lemma_keys_match_facts(self.id_to_key@, self.key_to_entry@);
                        lemma_keys_match_facts(r.id_to_key@, r.key_to_entry@);
                        if r.id_to_key@.contains_key(entry@.id) {
                            let j = r.id_to_key@[entry@.id]@ as int;
                            assert(r@[j].id == self@[j].id);
                            assert(self@[j].id == self@[i as int].id);
                        }
                    }
                }
                return r;
            }
            proof {
                lemma_keys_match_facts(r.id_to_key@, r.key_to_entry@);
            }
            let _ = r.push_entry(entry);
            i = i + 1;
        }
        r
    }
}

impl<T> Default for Registry<T> {
    fn default() -> (r: Self)
        ensures
            r.wf(),
            r@ == Seq::<EntryView<T>>::empty(),
    {
        Self::new()
    }
}

impl<T> RegistryValueMap<T> {
    /// Mutable views of all entries, in key order.
    pub fn entries_mut<'l>(&'l mut self) -> (r: Vec<EntryMut<'l, T>>)
        requires
            old(self)@.len() <= u32::MAX + 1,
        ensures
            r@.len() == old(self)@.len(),
            forall|i: int|
                0 <= i < old(self)@.len() ==> {
                    &&& (#[trigger] r@[i]).key@ == i
                    &&& r@[i].id@ == old(self)@[i].id
                    &&& r@[i].yeeted == old(self)@[i].yeeted
                    &&& (r@[i].value is Some <==> old(self)@[i].value is Some)
                    &&& (r@[i].value matches Some(v) ==> *v == old(self)@[i].value->0)
                },
            final(self)@.len() == old(self)@.len(),
            forall|i: int|
                0 <= i < old(self)@.len() ==> {
                    &&& (#[trigger] final(self)@[i]).id == old(self)@[i].id
                    &&& final(self)@[i].yeeted == old(self)@[i].yeeted
                    &&& (r@[i].value matches Some(v) ==> final(self)@[i].value == Some(*final(v)))
                    &&& (r@[i].value is None ==> final(self)@[i].value is None)
                },
    {
        let ghost old_view = self@;
        let n = self.entries.len();
        let mut rest = self.entries.as_mut_slice();
        let mut out: Vec<EntryMut<'l, T>> = Vec::new();
        let mut i: usize = 0;
        while i < n
            invariant
                n == old_view.len(),
                n <= u32::MAX + 1,
                i <= n,
                rest@.len() == n - i,
                forall|j: int| 0 <= j < n - i ==> (#[trigger] rest@[j])@ == old_view[i + j],
                out@.len() == i,
                forall|j: int|
                    0 <= j < i ==> {
                        &&& (#[trigger] out@[j]).key@ == j
                        &&& out@[j].id@ == old_view[j].id
                        &&& out@[j].yeeted == old_view[j].yeeted
                        &&& (out@[j].value is Some <==> old_view[j].value is Some)
                        &&& (out@[j].value matches Some(v) ==> *v == old_view[j].value->0)
                    },
                after_borrow(self.entries)@.len() == i + final(rest)@.len(),
                forall|j: int|
                    0 <= j < i ==> {
                        &&& (#[trigger] after_borrow(self.entries)@[j])@.id == old_view[j].id
                        &&& after_borrow(self.entries)@[j]@.yeeted == old_view[j].yeeted
                        &&& (out@[j].value matches Some(v) ==> after_borrow(self.entries)@[j]@.value == Some(*final(v)))
                        &&& (out@[j].value is None ==> after_borrow(self.entries)@[j]@.value is None)
                    },
                forall|j: int| 0 <= j < final(rest)@.len() ==> after_borrow(self.entries)@[i + j] == #[trigger] final(rest)@[j],
            decreases n - i,
        {
            let key = Key::new(i);
            let (e, tail) = Entry::split_first(rest, key);
            out.push(e);
            rest = tail;
            i = i + 1;
        }
        out
    }
    /// Gives the entry with this id the value and returns its key; when no
    /// entry carries the id, hands the value back and changes nothing.
    pub fn store(&mut self, keys: &RegistryKeyMap<T>, id: &str, value: T) -> (r: Result<Key<T>, T>)
        requires
            keys_match(keys@, old(self)@),
        ensures
            keys_match(keys@, final(self)@),
            same_ids(old(self)@, final(self)@),
            has_id(old(self)@, id@) ==> r == Ok::<Key<T>, T>(key_at::<T>(index_of(old(self)@, id@) as nat))
                && final(self)@ == set_value(old(self)@, index_of(old(self)@, id@), value),
            !has_id(old(self)@, id@) ==> r == Err::<Key<T>, T>(value) && final(self)@ == old(self)@,
            final(self)@ == store_pair(old(self)@, id@, value),
    {
        proof {
            lemma_keys_match_facts(keys@, self@);
            lemma_keys_match_keeps_ids(keys@, self@);
        }
        match keys.get(id) {
            Some(k) => {
                let key = *k;
                proof {
                    lemma_index_of_unique(self@, id@, k@ as int);
                    lemma_key_at_of_view(key);
                }
                self.replace_value(key, value);
                Ok(key)
            },
            None => Err(value),
        }
    }

    /// The number of entries.
    pub fn len(&self) -> (r: usize)
        ensures
            r == self@.len(),
    {
        self.entries.len()
    }

    /// Gives the entry under `key` the value, returning the one it held.
    pub fn replace_value(&mut self, key: Key<T>, value: T) -> (r: Option<T>)
        requires
            key@ < old(self)@.len(),
        ensures
            r == old(self)@[key@ as int].value,
            final(self)@ == set_value(old(self)@, key@ as int, value),
    {
        let ghost old_view = self@;
        let r = self.entries[key.index()].replace(value);
        assert(self@ =~= old_view.update(key@ as int, with_value(old_view[key@ as int], value)));
        r
    }

    /// Marks the entry at `index` as left over from an earlier load.
    fn yeet_at(&mut self, index: usize)
        requires
            index < old(self)@.len(),
        ensures
            final(self)@ == old(self)@.update(index as int, EntryView { yeeted: true, ..old(self)@[index as int] }),
    {
        let ghost old_view = self@;
        self.entries[index].yeet();
        assert(self@ =~= old_view.update(index as int, EntryView { yeeted: true, ..old_view[index as int] }));
    }

    /// Whether `key` names one of these entries.
    pub fn contains_key(&self, key: Key<T>) -> (r: bool)
        ensures
            r == (key@ < self@.len()),
    {
        key.index() < self.entries.len()
    }
}

} // verus!
