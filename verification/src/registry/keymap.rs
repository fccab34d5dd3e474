//! Looking up keys by id through a registry's key map.
use std::any::TypeId;
use vstd::prelude::*;

use super::key::UntypedKey;
use super::RegistryKeyMap;
use crate::type_tag::{type_id_of, type_ids_equal};
use crate::ResourceKeyMap;

verus! {

/// The untyped key for `id` in a key map whose values have type identity
/// `own`, when `requested` is that identity and the map knows the id.
pub fn lookup_untyped<T>(map: &RegistryKeyMap<T>, id: &str, requested: TypeId, own: TypeId) -> (r: Option<UntypedKey>)
    ensures
        requested == own && map@.contains_key(id@) ==> (r matches Some(u) && u@ == map@[id@]@ && u.type_id() == requested),
        !(requested == own && map@.contains_key(id@)) ==> r is None,
{
    if type_ids_equal(&requested, &own) {
        match map.get(id) {
            Some(k) => Some(k.as_untyped_with(own)),
            None => None,
        }
    } else {
        None
    }
}

impl<'a, T: 'static> ResourceKeyMap for &'a RegistryKeyMap<T> {
    /// An answer names the id's key, tagged with the asked type identity;
    /// an id the map does not know has no key.
    open spec fn finds(&self, id: Seq<char>, type_id: TypeId, r: Option<UntypedKey>) -> bool {
        &&& r matches Some(u) ==> (**self)@.contains_key(id) && u@ == (**self)@[id]@ && u.type_id() == type_id
        &&& !(**self)@.contains_key(id) ==> r is None
    }

    fn get_key_untyped(&self, id: &str, type_id: TypeId) -> (r: Option<UntypedKey>)
        ensures
            r matches Some(u) ==> (**self)@.contains_key(id@) && u@ == (**self)@[id@]@ && u.type_id()
                == type_id,
            !(**self)@.contains_key(id@) ==> r is None,
    {
        lookup_untyped(*self, id, type_id, type_id_of::<T>())
    }
}

} // verus!
