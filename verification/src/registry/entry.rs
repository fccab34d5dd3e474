//! One slot of a registry: an id, an optional value and a staleness flag.
use vstd::prelude::*;

use super::key::Key;

verus! {

/// What an entry holds, as plain values.
pub struct EntryView<T> {
    pub id: Seq<char>,
    pub value: Option<T>,
    pub yeeted: bool,
}

/// An entry of a registry.
///
/// An entry is created when its id is first seen; its value may come later.
/// `yeeted` marks a value that is left over from an earlier load and has not
/// been given again since.
#[derive(Debug)]
pub struct Entry<T> {
    id: String,
    value: Option<T>,
    yeeted: bool,
}

impl<T> View for Entry<T> {
    type V = EntryView<T>;

    closed spec fn view(&self) -> EntryView<T> {
        EntryView { id: self.id@, value: self.value, yeeted: self.yeeted }
    }
}

impl<T: Clone> Clone for Entry<T> {
    fn clone(&self) -> (r: Self)
        ensures
            r@.id == self@.id,
            r@.yeeted == self@.yeeted,
            r@.value is Some <==> self@.value is Some,
            r@.value matches Some(v) ==> cloned::<T>(self@.value->0, v),
    {
        Entry { id: self.id.clone(), value: self.value.clone(), yeeted: self.yeeted }
    }
}

/// A shared view of one entry, together with its key.
#[derive(Debug, Clone, Copy)]
pub struct EntryRef<'l, T> {
    pub key: Key<T>,
    pub id: &'l str,
    pub value: Option<&'l T>,
    pub yeeted: bool,
}

/// A view of one entry whose value may be changed in place.
#[derive(Debug)]
pub struct EntryMut<'l, T> {
    pub key: Key<T>,
    pub id: &'l str,
    pub value: Option<&'l mut T>,
    pub yeeted: bool,
}

impl<T> Entry<T> {
    /// An entry for an id whose value has not been given.
    pub(crate) fn new(id: String) -> (r: Self)
        ensures
            r@ == (EntryView::<T> { id: id@, value: None, yeeted: true }),
    {
        Entry { id, value: None, yeeted: true }
    }

    /// An entry holding a freshly given value.
    pub(crate) fn from_id_value(id: String, value: T) -> (r: Self)
        ensures
            r@ == (EntryView { id: id@, value: Some(value), yeeted: false }),
    {
        Entry { id, value: Some(value), yeeted: false }
    }

    /// A shared view of this entry under the given key.
    pub(crate) fn as_ref<'l>(&'l self, key: Key<T>) -> (r: EntryRef<'l, T>)
        ensures
            r.key == key,
            r.id@ == self@.id,
            r.value == (match self@.value {
                Some(v) => Some(&v),
                None => None::<&T>,
            }),
            r.yeeted == self@.yeeted,
    {
        EntryRef { key, id: self.id.as_str(), value: self.value.as_ref(), yeeted: self.yeeted }
    }

    /// A mutable view of this entry under the given key.
    pub(crate) fn as_mut<'l>(&'l mut self, key: Key<T>) -> (r: EntryMut<'l, T>)
        ensures
            r.key == key,
            r.id@ == old(self)@.id,
            r.yeeted == old(self)@.yeeted,
            r.value is Some <==> old(self)@.value is Some,
            r.value matches Some(v) ==> *v == old(self)@.value->0,
            final(self)@.id == old(self)@.id,
            final(self)@.yeeted == old(self)@.yeeted,
            r.value matches Some(v) ==> final(self)@.value == Some(*final(v)),
            r.value is None ==> final(self)@.value is None,
    {
        EntryMut { key, id: self.id.as_str(), value: self.value.as_mut(), yeeted: self.yeeted }
    }

    /// Gives the entry a value, returning the one it held before, and marks it
    /// as current.
    pub fn replace(&mut self, value: T) -> (r: Option<T>)
        ensures
            r == old(self)@.value,
            final(self)@ == (EntryView { id: old(self)@.id, value: Some(value), yeeted: false }),
    {
        let res = self.value.take();
        self.value = Some(value);
        self.yeeted = false;
        res
    }

    /// The id of this entry.
    pub(crate) fn id(&self) -> (r: &str)
        ensures
            r@ == self@.id,
    {
        self.id.as_str()
    }

    /// The value this entry holds, if any.
    pub(crate) fn value_ref(&self) -> (r: Option<&T>)
        ensures
            r == (match self@.value {
                Some(v) => Some(&v),
                None => None::<&T>,
            }),
    {
        self.value.as_ref()
    }

    /// A mutable view of the entry at the front of `slots`, and the rest.
    pub(crate) fn split_first<'l>(slots: &'l mut [Entry<T>], key: Key<T>) -> (r: (EntryMut<'l, T>, &'l mut [Entry<T>]))
        requires
            old(slots)@.len() > 0,
        ensures
            r.0.key == key,
            r.0.id@ == old(slots)@[0]@.id,
            r.0.yeeted == old(slots)@[0]@.yeeted,
            r.0.value is Some <==> old(slots)@[0]@.value is Some,
            r.0.value matches Some(v) ==> *v == old(slots)@[0]@.value->0,
            r.1@ == old(slots)@.drop_first(),
            final(slots)@.len() >= 1,
            final(slots)@.drop_first() == final(r.1)@,
            final(slots)@[0]@.id == old(slots)@[0]@.id,
            final(slots)@[0]@.yeeted == old(slots)@[0]@.yeeted,
            r.0.value matches Some(v) ==> final(slots)@[0]@.value == Some(*final(v)),
            r.0.value is None ==> final(slots)@[0]@.value is None,
    {
        let (head, tail) = slots.split_at_mut(1);
        let first = head.first_mut().unwrap();
        (first.as_mut(key), tail)
    }

    /// Marks the entry as left over from an earlier load.
    pub(crate) fn yeet(&mut self)
        ensures
            final(self)@ == (EntryView { yeeted: true, ..old(self)@ }),
    {
        self.yeeted = true;
    }
}

} // verus!
