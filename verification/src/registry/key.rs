//! Typed and untyped handles into a registry.
use std::any::TypeId;
use std::marker::PhantomData;
use vstd::prelude::*;
use vstd::std_specs::cmp::{PartialEqSpecImpl, PartialOrdSpecImpl};

use crate::type_tag::{type_id_of, type_ids_equal};

verus! {

/// A handle to one entry of a `Registry<T>`.
///
/// A key is the position of its entry in the registry; it stays valid for as
/// long as the registry lives, since entries are never removed.
#[derive(Debug, Hash, Ord)]
pub struct Key<T> {
    index: u32,
    pd: PhantomData<T>,
}

impl<T> View for Key<T> {
    type V = nat;

    closed spec fn view(&self) -> nat {
        self.index as nat
    }
}

impl<T> Clone for Key<T> {
    fn clone(&self) -> (r: Self)
        ensures
            r == *self,
    {
        *self
    }
}

impl<T> Copy for Key<T> {
}

impl<T> PartialEq for Key<T> {
    fn eq(&self, other: &Self) -> (r: bool) {
        self.index == other.index
    }
}

impl<T> PartialEqSpecImpl for Key<T> {
    open spec fn obeys_eq_spec() -> bool {
        true
    }

    open spec fn eq_spec(&self, other: &Self) -> bool {
        self@ == other@
    }
}

impl<T> Eq for Key<T> {
}

impl<T> PartialOrd for Key<T> {
    fn partial_cmp(&self, other: &Self) -> (r: Option<core::cmp::Ordering>) {
        if self.index < other.index {
            Some(core::cmp::Ordering::Less)
        } else if self.index == other.index {
            Some(core::cmp::Ordering::Equal)
        } else {
            Some(core::cmp::Ordering::Greater)
        }
    }
}

impl<T> PartialOrdSpecImpl for Key<T> {
    open spec fn obeys_partial_cmp_spec() -> bool {
        true
    }

    open spec fn partial_cmp_spec(&self, other: &Self) -> Option<core::cmp::Ordering> {
        if self@ < other@ {
            Some(core::cmp::Ordering::Less)
        } else if self@ == other@ {
            Some(core::cmp::Ordering::Equal)
        } else {
            Some(core::cmp::Ordering::Greater)
        }
    }
}

/// The spec-level key for a position.
pub closed spec fn key_at<T>(index: nat) -> Key<T> {
    Key { index: index as u32, pd: PhantomData }
}

/// Two keys of one type are the same value exactly when they name the same
/// position.
pub broadcast proof fn lemma_key_view_injective<T>(a: Key<T>, b: Key<T>)
    ensures
        #![trigger a@, b@]
        a@ == b@ <==> a == b,
{
}

/// The key made for a position names that position.
pub broadcast proof fn lemma_key_at_view<T>(index: nat)
    requires
        index <= u32::MAX,
    ensures
        #[trigger] key_at::<T>(index)@ == index,
{
}

/// A key is the key made for the position it names.
pub proof fn lemma_key_at_of_view<T>(k: Key<T>)
    ensures
        key_at::<T>(k@) == k,
{
}

/// Every key names a position that fits in 32 bits.
pub broadcast proof fn lemma_key_view_bound<T>(k: Key<T>)
    ensures
        #[trigger] k@ <= u32::MAX,
{
}

impl<T> Key<T> {
    /// The key of the entry at `index`.
    pub(crate) fn new(index: usize) -> (r: Self)
        requires
            index <= u32::MAX,
        ensures
            r@ == index,
    {
        Key { index: index as u32, pd: PhantomData }
    }

    /// The position this key names.
    pub(crate) fn index(&self) -> (r: usize)
        ensures
            r == self@,
    {
        self.index as usize
    }

    /// The untyped form of this key, tagged with the given type identity.
    pub fn as_untyped_with(&self, type_id: TypeId) -> (r: UntypedKey)
        ensures
            r == untyped_of(*self, type_id),
            r.type_id() == type_id,
            r@ == self@,
    {
        UntypedKey { type_id, index: self.index }
    }

    /// The untyped form of this key, tagged with the identity of `T`.
    pub fn as_untyped(&self) -> (r: UntypedKey)
        where
            T: 'static,
        ensures
            r@ == self@,
    {
        self.as_untyped_with(type_id_of::<T>())
    }
}

/// A key whose value type is known only at run time, by its type identity.
#[derive(Debug, Clone, Copy, Hash, PartialOrd, Ord)]
pub struct UntypedKey {
    type_id: TypeId,
    index: u32,
}

impl View for UntypedKey {
    type V = nat;

    closed spec fn view(&self) -> nat {
        self.index as nat
    }
}

impl PartialEq for UntypedKey {
    fn eq(&self, other: &Self) -> (r: bool) {
        self.index == other.index && type_ids_equal(&self.type_id, &other.type_id)
    }
}

impl PartialEqSpecImpl for UntypedKey {
    open spec fn obeys_eq_spec() -> bool {
        true
    }

    open spec fn eq_spec(&self, other: &Self) -> bool {
        self@ == other@ && self.type_id() == other.type_id()
    }
}

impl Eq for UntypedKey {
}

impl UntypedKey {
    /// The type identity this key is tagged with.
    pub closed spec fn type_id(self) -> TypeId {
        self.type_id
    }

    /// The typed key, when `target` is the identity this key is tagged with.
    pub fn cast_with<T>(&self, target: TypeId) -> (r: Option<Key<T>>)
        ensures
            r == cast_result::<T>(*self, target),
            self.type_id() == target ==> r == Some(key_at::<T>(self@)),
            self.type_id() != target ==> r is None,
    {
        if type_ids_equal(&self.type_id, &target) {
            Some(Key { index: self.index, pd: PhantomData })
        } else {
            None
        }
    }

    /// The typed key, when this key was made for values of type `T`.
    pub fn cast<T: 'static>(&self) -> (r: Option<Key<T>>)
        ensures
            r matches Some(k) ==> k@ == self@,
    {
        self.cast_with(type_id_of::<T>())
    }
}

/// The untyped form of `k`, tagged with `type_id`.
pub closed spec fn untyped_of<T>(k: Key<T>, type_id: TypeId) -> UntypedKey {
    UntypedKey { type_id, index: k.index }
}

/// The untyped form of a key names the key's position and carries the tag.
pub proof fn lemma_untyped_of<T>(k: Key<T>, type_id: TypeId)
    ensures
        untyped_of(k, type_id)@ == k@,
        untyped_of(k, type_id).type_id() == type_id,
{
}

/// What casting `u` with the type identity `target` gives: the typed key at
/// its position when `target` is its tag, otherwise nothing.
pub open spec fn cast_result<T>(u: UntypedKey, target: TypeId) -> Option<Key<T>> {
    if u.type_id() == target {
        Some(key_at::<T>(u@))
    } else {
        None
    }
}

/// Two untyped keys are the same value exactly when they agree on position
/// and type identity.
pub broadcast proof fn lemma_untyped_key_eq(a: UntypedKey, b: UntypedKey)
    ensures
        #![trigger a@, b@]
        (a@ == b@ && a.type_id() == b.type_id()) <==> a == b,
{
}

} // verus!
