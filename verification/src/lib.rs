//! Resource loading around registries.
//!
//! A resource definition says where resources live on disk, loads the ids
//! of all entries first (so that values can refer to entries of any
//! registry by key) and then loads the values.
pub mod error;
pub mod notify;
pub mod registry;
pub mod type_tag;

use std::any::TypeId;
use std::path::PathBuf;
use vstd::prelude::*;

use crate::registry::key::{cast_result, Key, UntypedKey};
use crate::type_tag::type_id_of;

verus! {

/// `std::path::PathBuf`, carried through the library as an opaque value.
#[verifier::external_type_specification]
#[verifier::external_body]
pub struct ExPathBuf(PathBuf);

/// Looks up keys by id, for registries of any value type.
pub trait ResourceKeyMap {
    /// `r` is an answer this key map may give when asked for `id` in the
    /// registry whose values have type identity `type_id`.  A key map of the
    /// library says which answers those are; for any other it is unknown.
    open spec fn finds(&self, id: Seq<char>, type_id: TypeId, r: Option<UntypedKey>) -> bool {
        true
    }

    /// The key for `id` in the registry whose values have type identity
    /// `type_id`, if that registry knows the id.
    fn get_key_untyped(&self, id: &str, type_id: TypeId) -> (r: Option<UntypedKey>)
        ensures
            self.finds(id@, type_id, r),
    ;

    /// The key for `id` in the registry of `T` values, if it knows the id.
    ///
    /// The result is the answer of `get_key_untyped` for the identity of
    /// `T`, cast with that same identity.
    fn get_key<T: 'static>(&self, id: &str) -> (r: Option<Key<T>>)
        ensures
            exists|t: TypeId, a: Option<UntypedKey>|
                #[trigger] self.finds(id@, t, a) && r == (match a {
                    Some(u) => cast_result::<T>(u, t),
                    None => None,
                }),
    {
        let t = type_id_of::<T>();
        let a = self.get_key_untyped(id, t);
        let r = match a {
            Some(k) => k.cast_with(t),
            None => None,
        };
        proof {
            assert(self.finds(id@, t, a));
        }
        r
    }
}

/// The answers a key map may give, as a relation of id, type identity and
/// answer.
pub open spec fn lookup_of<K: ResourceKeyMap>(keys: K) -> spec_fn(Seq<char>, TypeId, Option<UntypedKey>) -> bool {
    |id: Seq<char>, type_id: TypeId, a: Option<UntypedKey>| keys.finds(id, type_id, a)
}

/// What a watched path holds.
#[derive(Debug, Clone, Copy, PartialEq, Eq, Structural, Hash)]
pub enum ResourcePathKind {
    File,
    Directory,
    RecursiveDirectory,
}

/// A set of resources that can be loaded in two steps: first the ids of all
/// entries, then their values.
///
/// The spec functions below say which outcomes a definition may have.  The
/// definitions of the library (tuples of definitions) say it exactly in terms
/// of their members; for any other definition nothing is known of them.
pub trait ResourceDef: Sized {
    type Error: std::fmt::Debug;
    type KeyMap: ResourceKeyMap;
    type ValueMap;

    /// Visiting the paths may end in success (`ok`) or in an error.
    open spec fn visits(&self, ok: bool) -> bool {
        true
    }

    /// Loading the ids may end in `r`.
    open spec fn keys_loaded(self, r: Result<(Self::KeyMap, Self::ValueMap), Self::Error>) -> bool {
        true
    }

    /// Loading the values into `values`, resolving keys through a key map
    /// that answers as `lookup` says, may end in `r`.
    open spec fn values_loaded(
        lookup: spec_fn(Seq<char>, TypeId, Option<UntypedKey>) -> bool,
        values: Self::ValueMap,
        r: Result<(), Self::Error>,
    ) -> bool {
        true
    }

    /// Hands every path the resources are read from to the visitor, stopping
    /// at its first error.
    fn visit_resource_paths<E>(&self, visitor: impl FnMut(&PathBuf, ResourcePathKind) -> Result<(), E>) -> (r: Result<(), E>)
        ensures
            self.visits(r is Ok),
    ;

    /// Loads the ids of all entries.
    fn load_keys(self) -> (r: Result<(Self::KeyMap, Self::ValueMap), Self::Error>)
        ensures
            self.keys_loaded(r),
    ;

    /// Loads the values, resolving references through `keys`.
    fn load_values<K: ResourceKeyMap>(keys: &K, values: Self::ValueMap) -> (r: Result<(), Self::Error>)
        ensures
            Self::values_loaded(lookup_of(*keys), values, r),
    ;

    /// Loads ids, then values.
    fn load(self) -> (r: Result<(), Self::Error>)
        ensures
            r is Ok ==> exists|k: Self::KeyMap, v: Self::ValueMap|
                #[trigger] self.keys_loaded(Ok((k, v))) && Self::values_loaded(lookup_of(k), v, r),
            r matches Err(e) ==> self.keys_loaded(Err(e)) || exists|k: Self::KeyMap, v: Self::ValueMap|
                #[trigger] self.keys_loaded(Ok((k, v))) && Self::values_loaded(lookup_of(k), v, r),
    {
        let ghost def = self;
        let loaded = self.load_keys();
        match loaded {
            Ok(pair) => {
                let ghost v = pair.1;
                let r = Self::load_values(&pair.0, pair.1);
                proof {
                    assert(def.keys_loaded(Ok((pair.0, v))));
                }
                r
            },
            Err(e) => Err(e),
        }
    }
}

/// What loading `def` may end in: success when loading the ids succeeded and
/// then loading the values, resolving keys through the loaded key map, did;
/// otherwise the error of the step that failed.
/// This is what `ResourceDef::load` ensures.
pub open spec fn load_outcome<D: ResourceDef>(def: D, r: Result<(), D::Error>) -> bool {
    &&& r is Ok ==> exists|k: D::KeyMap, v: D::ValueMap|
        #[trigger] def.keys_loaded(Ok((k, v))) && D::values_loaded(lookup_of(k), v, r)
    &&& r matches Err(e) ==> def.keys_loaded(Err(e)) || exists|k: D::KeyMap, v: D::ValueMap|
        #[trigger] def.keys_loaded(Ok((k, v))) && D::values_loaded(lookup_of(k), v, r)
}

impl<T0: ResourceKeyMap> ResourceKeyMap for (T0,) {
    /// The first member that finds the id answers; when none does, there
    /// is no key.
    open spec fn finds(&self, id: Seq<char>, type_id: TypeId, r: Option<UntypedKey>) -> bool {
        self.0.finds(id, type_id, r)
    }

    fn get_key_untyped(&self, id: &str, type_id: TypeId) -> (r: Option<UntypedKey>) {
        if let Some(key) = self.0.get_key_untyped(id, type_id) {
            return Some(key);
        }
        None
    }
}

impl<T0: ResourceKeyMap, T1: ResourceKeyMap> ResourceKeyMap for (T0, T1) {
    /// The first member that finds the id answers; when none does, there
    /// is no key.
    open spec fn finds(&self, id: Seq<char>, type_id: TypeId, r: Option<UntypedKey>) -> bool {
        (r is Some && self.0.finds(id, type_id, r)) || (self.0.finds(id, type_id, None) && (self.1.finds(id, type_id, r)))
    }

    fn get_key_untyped(&self, id: &str, type_id: TypeId) -> (r: Option<UntypedKey>) {
        if let Some(key) = self.0.get_key_untyped(id, type_id) {
            return Some(key);
        }
        if let Some(key) = self.1.get_key_untyped(id, type_id) {
            return Some(key);
        }
        None
    }
}

impl<T0: ResourceKeyMap, T1: ResourceKeyMap, T2: ResourceKeyMap> ResourceKeyMap for (T0, T1, T2) {
    /// The first member that finds the id answers; when none does, there
    /// is no key.
    open spec fn finds(&self, id: Seq<char>, type_id: TypeId, r: Option<UntypedKey>) -> bool {
        (r is Some && self.0.finds(id, type_id, r)) || (self.0.finds(id, type_id, None) && ((r is Some && self.1.finds(id, type_id, r)) || (self.1.finds(id, type_id, None) && (self.2.finds(id, type_id, r)))))
    }

    fn get_key_untyped(&self, id: &str, type_id: TypeId) -> (r: Option<UntypedKey>) {
        if let Some(key) = self.0.get_key_untyped(id, type_id) {
            return Some(key);
        }
        if let Some(key) = self.1.get_key_untyped(id, type_id) {
            return Some(key);
        }
        if let Some(key) = self.2.get_key_untyped(id, type_id) {
            return Some(key);
        }
        None
    }
}

impl<T0: ResourceKeyMap, T1: ResourceKeyMap, T2: ResourceKeyMap, T3: ResourceKeyMap> ResourceKeyMap for (T0, T1, T2, T3) {
    /// The first member that finds the id answers; when none does, there
    /// is no key.
    open spec fn finds(&self, id: Seq<char>, type_id: TypeId, r: Option<UntypedKey>) -> bool {
        (r is Some && self.0.finds(id, type_id, r)) || (self.0.finds(id, type_id, None) && ((r is Some && self.1.finds(id, type_id, r)) || (self.1.finds(id, type_id, None) && ((r is Some && self.2.finds(id, type_id, r)) || (self.2.finds(id, type_id, None) && (self.3.finds(id, type_id, r)))))))
    }

    fn get_key_untyped(&self, id: &str, type_id: TypeId) -> (r: Option<UntypedKey>) {
        if let Some(key) = self.0.get_key_untyped(id, type_id) {
            return Some(key);
        }
        if let Some(key) = self.1.get_key_untyped(id, type_id) {
            return Some(key);
        }
        if let Some(key) = self.2.get_key_untyped(id, type_id) {
            return Some(key);
        }
        if let Some(key) = self.3.get_key_untyped(id, type_id) {
            return Some(key);
        }
        None
    }
}

impl<T0: ResourceKeyMap, T1: ResourceKeyMap, T2: ResourceKeyMap, T3: ResourceKeyMap, T4: ResourceKeyMap> ResourceKeyMap for (T0, T1, T2, T3, T4) {
    /// The first member that finds the id answers; when none does, there
    /// is no key.
    open spec fn finds(&self, id: Seq<char>, type_id: TypeId, r: Option<UntypedKey>) -> bool {
        (r is Some && self.0.finds(id, type_id, r)) || (self.0.finds(id, type_id, None) && ((r is Some && self.1.finds(id, type_id, r)) || (self.1.finds(id, type_id, None) && ((r is Some && self.2.finds(id, type_id, r)) || (self.2.finds(id, type_id, None) && ((r is Some && self.3.finds(id, type_id, r)) || (self.3.finds(id, type_id, None) && (self.4.finds(id, type_id, r)))))))))
    }

    fn get_key_untyped(&self, id: &str, type_id: TypeId) -> (r: Option<UntypedKey>) {
        if let Some(key) = self.0.get_key_untyped(id, type_id) {
            return Some(key);
        }
        if let Some(key) = self.1.get_key_untyped(id, type_id) {
            return Some(key);
        }
        if let Some(key) = self.2.get_key_untyped(id, type_id) {
            return Some(key);
        }
        if let Some(key) = self.3.get_key_untyped(id, type_id) {
            return Some(key);
        }
        if let Some(key) = self.4.get_key_untyped(id, type_id) {
            return Some(key);
        }
        None
    }
}

impl<T0: ResourceKeyMap, T1: ResourceKeyMap, T2: ResourceKeyMap, T3: ResourceKeyMap, T4: ResourceKeyMap, T5: ResourceKeyMap> ResourceKeyMap for (T0, T1, T2, T3, T4, T5) {
    /// The first member that finds the id answers; when none does, there
    /// is no key.
    open spec fn finds(&self, id: Seq<char>, type_id: TypeId, r: Option<UntypedKey>) -> bool {
        (r is Some && self.0.finds(id, type_id, r)) || (self.0.finds(id, type_id, None) && ((r is Some && self.1.finds(id, type_id, r)) || (self.1.finds(id, type_id, None) && ((r is Some && self.2.finds(id, type_id, r)) || (self.2.finds(id, type_id, None) && ((r is Some && self.3.finds(id, type_id, r)) || (self.3.finds(id, type_id, None) && ((r is Some && self.4.finds(id, type_id, r)) || (self.4.finds(id, type_id, None) && (self.5.finds(id, type_id, r)))))))))))
    }

    fn get_key_untyped(&self, id: &str, type_id: TypeId) -> (r: Option<UntypedKey>) {
        if let Some(key) = self.0.get_key_untyped(id, type_id) {
            return Some(key);
        }
        if let Some(key) = self.1.get_key_untyped(id, type_id) {
            return Some(key);
        }
        if let Some(key) = self.2.get_key_untyped(id, type_id) {
            return Some(key);
        }
        if let Some(key) = self.3.get_key_untyped(id, type_id) {
            return Some(key);
        }
        if let Some(key) = self.4.get_key_untyped(id, type_id) {
            return Some(key);
        }
        if let Some(key) = self.5.get_key_untyped(id, type_id) {
            return Some(key);
        }
        None
    }
}

impl<T0: ResourceKeyMap, T1: ResourceKeyMap, T2: ResourceKeyMap, T3: ResourceKeyMap, T4: ResourceKeyMap, T5: ResourceKeyMap, T6: ResourceKeyMap> ResourceKeyMap for (T0, T1, T2, T3, T4, T5, T6) {
    /// The first member that finds the id answers; when none does, there
    /// is no key.
    open spec fn finds(&self, id: Seq<char>, type_id: TypeId, r: Option<UntypedKey>) -> bool {
        (r is Some && self.0.finds(id, type_id, r)) || (self.0.finds(id, type_id, None) && ((r is Some && self.1.finds(id, type_id, r)) || (self.1.finds(id, type_id, None) && ((r is Some && self.2.finds(id, type_id, r)) || (self.2.finds(id, type_id, None) && ((r is Some && self.3.finds(id, type_id, r)) || (self.3.finds(id, type_id, None) && ((r is Some && self.4.finds(id, type_id, r)) || (self.4.finds(id, type_id, None) && ((r is Some && self.5.finds(id, type_id, r)) || (self.5.finds(id, type_id, None) && (self.6.finds(id, type_id, r)))))))))))))
    }

    fn get_key_untyped(&self, id: &str, type_id: TypeId) -> (r: Option<UntypedKey>) {
        if let Some(key) = self.0.get_key_untyped(id, type_id) {
            return Some(key);
        }
        if let Some(key) = self.1.get_key_untyped(id, type_id) {
            return Some(key);
        }
        if let Some(key) = self.2.get_key_untyped(id, type_id) {
            return Some(key);
        }
        if let Some(key) = self.3.get_key_untyped(id, type_id) {
            return Some(key);
        }
        if let Some(key) = self.4.get_key_untyped(id, type_id) {
            return Some(key);
        }
        if let Some(key) = self.5.get_key_untyped(id, type_id) {
            return Some(key);
        }
        if let Some(key) = self.6.get_key_untyped(id, type_id) {
            return Some(key);
        }
        None
    }
}

impl<T0: ResourceKeyMap, T1: ResourceKeyMap, T2: ResourceKeyMap, T3: ResourceKeyMap, T4: ResourceKeyMap, T5: ResourceKeyMap, T6: ResourceKeyMap, T7: ResourceKeyMap> ResourceKeyMap for (T0, T1, T2, T3, T4, T5, T6, T7) {
    /// The first member that finds the id answers; when none does, there
    /// is no key.
    open spec fn finds(&self, id: Seq<char>, type_id: TypeId, r: Option<UntypedKey>) -> bool {
        (r is Some && self.0.finds(id, type_id, r)) || (self.0.finds(id, type_id, None) && ((r is Some && self.1.finds(id, type_id, r)) || (self.1.finds(id, type_id, None) && ((r is Some && self.2.finds(id, type_id, r)) || (self.2.finds(id, type_id, None) && ((r is Some && self.3.finds(id, type_id, r)) || (self.3.finds(id, type_id, None) && ((r is Some && self.4.finds(id, type_id, r)) || (self.4.finds(id, type_id, None) && ((r is Some && self.5.finds(id, type_id, r)) || (self.5.finds(id, type_id, None) && ((r is Some && self.6.finds(id, type_id, r)) || (self.6.finds(id, type_id, None) && (self.7.finds(id, type_id, r)))))))))))))))
    }

    fn get_key_untyped(&self, id: &str, type_id: TypeId) -> (r: Option<UntypedKey>) {
        if let Some(key) = self.0.get_key_untyped(id, type_id) {
            return Some(key);
        }
        if let Some(key) = self.1.get_key_untyped(id, type_id) {
            return Some(key);
        }
        if let Some(key) = self.2.get_key_untyped(id, type_id) {
            return Some(key);
        }
        if let Some(key) = self.3.get_key_untyped(id, type_id) {
            return Some(key);
        }
        if let Some(key) = self.4.get_key_untyped(id, type_id) {
            return Some(key);
        }
        if let Some(key) = self.5.get_key_untyped(id, type_id) {
            return Some(key);
        }
        if let Some(key) = self.6.get_key_untyped(id, type_id) {
            return Some(key);
        }
        if let Some(key) = self.7.get_key_untyped(id, type_id) {
            return Some(key);
        }
        None
    }
}

impl<T0: ResourceKeyMap, T1: ResourceKeyMap, T2: ResourceKeyMap, T3: ResourceKeyMap, T4: ResourceKeyMap, T5: ResourceKeyMap, T6: ResourceKeyMap, T7: ResourceKeyMap, T8: ResourceKeyMap> ResourceKeyMap for (T0, T1, T2, T3, T4, T5, T6, T7, T8) {
    /// The first member that finds the id answers; when none does, there
    /// is no key.
    open spec fn finds(&self, id: Seq<char>, type_id: TypeId, r: Option<UntypedKey>) -> bool {
        (r is Some && self.0.finds(id, type_id, r)) || (self.0.finds(id, type_id, None) && ((r is Some && self.1.finds(id, type_id, r)) || (self.1.finds(id, type_id, None) && ((r is Some && self.2.finds(id, type_id, r)) || (self.2.finds(id, type_id, None) && ((r is Some && self.3.finds(id, type_id, r)) || (self.3.finds(id, type_id, None) && ((r is Some && self.4.finds(id, type_id, r)) || (self.4.finds(id, type_id, None) && ((r is Some && self.5.finds(id, type_id, r)) || (self.5.finds(id, type_id, None) && ((r is Some && self.6.finds(id, type_id, r)) || (self.6.finds(id, type_id, None) && ((r is Some && self.7.finds(id, type_id, r)) || (self.7.finds(id, type_id, None) && (self.8.finds(id, type_id, r)))))))))))))))))
    }

    fn get_key_untyped(&self, id: &str, type_id: TypeId) -> (r: Option<UntypedKey>) {
        if let Some(key) = self.0.get_key_untyped(id, type_id) {
            return Some(key);
        }
        if let Some(key) = self.1.get_key_untyped(id, type_id) {
            return Some(key);
        }
        if let Some(key) = self.2.get_key_untyped(id, type_id) {
            return Some(key);
        }
        if let Some(key) = self.3.get_key_untyped(id, type_id) {
            return Some(key);
        }
        if let Some(key) = self.4.get_key_untyped(id, type_id) {
            return Some(key);
        }
        if let Some(key) = self.5.get_key_untyped(id, type_id) {
            return Some(key);
        }
        if let Some(key) = self.6.get_key_untyped(id, type_id) {
            return Some(key);
        }
        if let Some(key) = self.7.get_key_untyped(id, type_id) {
            return Some(key);
        }
        if let Some(key) = self.8.get_key_untyped(id, type_id) {
            return Some(key);
        }
        None
    }
}

impl<T0: ResourceKeyMap, T1: ResourceKeyMap, T2: ResourceKeyMap, T3: ResourceKeyMap, T4: ResourceKeyMap, T5: ResourceKeyMap, T6: ResourceKeyMap, T7: ResourceKeyMap, T8: ResourceKeyMap, T9: ResourceKeyMap> ResourceKeyMap for (T0, T1, T2, T3, T4, T5, T6, T7, T8, T9) {
    /// The first member that finds the id answers; when none does, there
    /// is no key.
    open spec fn finds(&self, id: Seq<char>, type_id: TypeId, r: Option<UntypedKey>) -> bool {
        (r is Some && self.0.finds(id, type_id, r)) || (self.0.finds(id, type_id, None) && ((r is Some && self.1.finds(id, type_id, r)) || (self.1.finds(id, type_id, None) && ((r is Some && self.2.finds(id, type_id, r)) || (self.2.finds(id, type_id, None) && ((r is Some && self.3.finds(id, type_id, r)) || (self.3.finds(id, type_id, None) && ((r is Some && self.4.finds(id, type_id, r)) || (self.4.finds(id, type_id, None) && ((r is Some && self.5.finds(id, type_id, r)) || (self.5.finds(id, type_id, None) && ((r is Some && self.6.finds(id, type_id, r)) || (self.6.finds(id, type_id, None) && ((r is Some && self.7.finds(id, type_id, r)) || (self.7.finds(id, type_id, None) && ((r is Some && self.8.finds(id, type_id, r)) || (self.8.finds(id, type_id, None) && (self.9.finds(id, type_id, r)))))))))))))))))))
    }

    fn get_key_untyped(&self, id: &str, type_id: TypeId) -> (r: Option<UntypedKey>) {
        if let Some(key) = self.0.get_key_untyped(id, type_id) {
            return Some(key);
        }
        if let Some(key) = self.1.get_key_untyped(id, type_id) {
            return Some(key);
        }
        if let Some(key) = self.2.get_key_untyped(id, type_id) {
            return Some(key);
        }
        if let Some(key) = self.3.get_key_untyped(id, type_id) {
            return Some(key);
        }
        if let Some(key) = self.4.get_key_untyped(id, type_id) {
            return Some(key);
        }
        if let Some(key) = self.5.get_key_untyped(id, type_id) {
            return Some(key);
        }
        if let Some(key) = self.6.get_key_untyped(id, type_id) {
            return Some(key);
        }
        if let Some(key) = self.7.get_key_untyped(id, type_id) {
            return Some(key);
        }
        if let Some(key) = self.8.get_key_untyped(id, type_id) {
            return Some(key);
        }
        if let Some(key) = self.9.get_key_untyped(id, type_id) {
            return Some(key);
        }
        None
    }
}

impl<T0: ResourceDef> ResourceDef for (T0,) {
    type Error = T0::Error;
    type KeyMap = (T0::KeyMap,);
    type ValueMap = (T0::ValueMap,);

    /// The members are visited in order, up to the first that fails.
    open spec fn visits(&self, ok: bool) -> bool {
        self.0.visits(ok)
    }

    /// The members load their ids in order; the result holds all their key
    /// and value maps, or the error of the first that fails.
    open spec fn keys_loaded(self, r: Result<(Self::KeyMap, Self::ValueMap), Self::Error>) -> bool {
        match r {
            Ok((k, v)) => self.0.keys_loaded(Ok((k.0, v.0))),
            Err(e) => self.0.keys_loaded(Err(e)),
        }
    }

    /// The members load their values in order, up to the first that fails,
    /// each resolving keys through the same key map.
    open spec fn values_loaded(
        lookup: spec_fn(Seq<char>, TypeId, Option<UntypedKey>) -> bool,
        values: Self::ValueMap,
        r: Result<(), Self::Error>,
    ) -> bool {
        match r {
            Ok(()) => T0::values_loaded(lookup, values.0, Ok(())),
            Err(e) => T0::values_loaded(lookup, values.0, Err(e)),
        }
    }

    fn visit_resource_paths<E>(&self, mut visitor: impl FnMut(&PathBuf, ResourcePathKind) -> Result<(), E>) -> (r: Result<(), E>) {
        self.0.visit_resource_paths(&mut visitor)?;
        Ok(())
    }

    fn load_keys(self) -> (r: Result<(Self::KeyMap, Self::ValueMap), Self::Error>) {
        let (k0, v0) = self.0.load_keys()?;
        Ok(((k0,), (v0,)))
    }

    fn load_values<K: ResourceKeyMap>(keys: &K, values: Self::ValueMap) -> (r: Result<(), Self::Error>) {
        T0::load_values(keys, values.0)?;
        Ok(())
    }
}

impl<T0: ResourceDef, T1: ResourceDef<Error = T0::Error>> ResourceDef for (T0, T1) {
    type Error = T0::Error;
    type KeyMap = (T0::KeyMap, T1::KeyMap);
    type ValueMap = (T0::ValueMap, T1::ValueMap);

    /// The members are visited in order, up to the first that fails.
    open spec fn visits(&self, ok: bool) -> bool {
        (!ok && self.0.visits(false)) || (self.0.visits(true) && (self.1.visits(ok)))
    }

    /// The members load their ids in order; the result holds all their key
    /// and value maps, or the error of the first that fails.
    open spec fn keys_loaded(self, r: Result<(Self::KeyMap, Self::ValueMap), Self::Error>) -> bool {
        match r {
            Ok((k, v)) => self.0.keys_loaded(Ok((k.0, v.0))) && self.1.keys_loaded(Ok((k.1, v.1))),
            Err(e) => self.0.keys_loaded(Err(e)) || exists|k0: T0::KeyMap, v0: T0::ValueMap|
                #[trigger] self.0.keys_loaded(Ok((k0, v0))) && (self.1.keys_loaded(Err(e))),
        }
    }

    /// The members load their values in order, up to the first that fails,
    /// each resolving keys through the same key map.
    open spec fn values_loaded(
        lookup: spec_fn(Seq<char>, TypeId, Option<UntypedKey>) -> bool,
        values: Self::ValueMap,
        r: Result<(), Self::Error>,
    ) -> bool {
        match r {
            Ok(()) => T0::values_loaded(lookup, values.0, Ok(())) && T1::values_loaded(lookup, values.1, Ok(())),
            Err(e) => T0::values_loaded(lookup, values.0, Err(e)) || (T0::values_loaded(lookup, values.0, Ok(())) && (T1::values_loaded(lookup, values.1, Err(e)))),
        }
    }

    fn visit_resource_paths<E>(&self, mut visitor: impl FnMut(&PathBuf, ResourcePathKind) -> Result<(), E>) -> (r: Result<(), E>) {
        self.0.visit_resource_paths(&mut visitor)?;
        self.1.visit_resource_paths(&mut visitor)?;
        Ok(())
    }

    fn load_keys(self) -> (r: Result<(Self::KeyMap, Self::ValueMap), Self::Error>) {
        let (k0, v0) = self.0.load_keys()?;
        let (k1, v1) = self.1.load_keys()?;
        Ok(((k0, k1), (v0, v1)))
    }

    fn load_values<K: ResourceKeyMap>(keys: &K, values: Self::ValueMap) -> (r: Result<(), Self::Error>) {
        T0::load_values(keys, values.0)?;
        T1::load_values(keys, values.1)?;
        Ok(())
    }
}

impl<T0: ResourceDef, T1: ResourceDef<Error = T0::Error>, T2: ResourceDef<Error = T0::Error>> ResourceDef for (T0, T1, T2) {
    type Error = T0::Error;
    type KeyMap = (T0::KeyMap, T1::KeyMap, T2::KeyMap);
    type ValueMap = (T0::ValueMap, T1::ValueMap, T2::ValueMap);

    /// The members are visited in order, up to the first that fails.
    open spec fn visits(&self, ok: bool) -> bool {
        (!ok && self.0.visits(false)) || (self.0.visits(true) && ((!ok && self.1.visits(false)) || (self.1.visits(true) && (self.2.visits(ok)))))
    }

    /// The members load their ids in order; the result holds all their key
    /// and value maps, or the error of the first that fails.
    open spec fn keys_loaded(self, r: Result<(Self::KeyMap, Self::ValueMap), Self::Error>) -> bool {
        match r {
            Ok((k, v)) => self.0.keys_loaded(Ok((k.0, v.0))) && self.1.keys_loaded(Ok((k.1, v.1))) && self.2.keys_loaded(Ok((k.2, v.2))),
            Err(e) => self.0.keys_loaded(Err(e)) || exists|k0: T0::KeyMap, v0: T0::ValueMap|
                #[trigger] self.0.keys_loaded(Ok((k0, v0))) && (self.1.keys_loaded(Err(e)) || exists|k1: T1::KeyMap, v1: T1::ValueMap|
                #[trigger] self.1.keys_loaded(Ok((k1, v1))) && (self.2.keys_loaded(Err(e)))),
        }
    }

    /// The members load their values in order, up to the first that fails,
    /// each resolving keys through the same key map.
    open spec fn values_loaded(
        lookup: spec_fn(Seq<char>, TypeId, Option<UntypedKey>) -> bool,
        values: Self::ValueMap,
        r: Result<(), Self::Error>,
    ) -> bool {
        match r {
            Ok(()) => T0::values_loaded(lookup, values.0, Ok(())) && T1::values_loaded(lookup, values.1, Ok(())) && T2::values_loaded(lookup, values.2, Ok(())),
            Err(e) => T0::values_loaded(lookup, values.0, Err(e)) || (T0::values_loaded(lookup, values.0, Ok(())) && (T1::values_loaded(lookup, values.1, Err(e)) || (T1::values_loaded(lookup, values.1, Ok(())) && (T2::values_loaded(lookup, values.2, Err(e)))))),
        }
    }

    fn visit_resource_paths<E>(&self, mut visitor: impl FnMut(&PathBuf, ResourcePathKind) -> Result<(), E>) -> (r: Result<(), E>) {
        self.0.visit_resource_paths(&mut visitor)?;
        self.1.visit_resource_paths(&mut visitor)?;
        self.2.visit_resource_paths(&mut visitor)?;
        Ok(())
    }

    fn load_keys(self) -> (r: Result<(Self::KeyMap, Self::ValueMap), Self::Error>) {
        let (k0, v0) = self.0.load_keys()?;
        let (k1, v1) = self.1.load_keys()?;
        let (k2, v2) = self.2.load_keys()?;
        Ok(((k0, k1, k2), (v0, v1, v2)))
    }

    fn load_values<K: ResourceKeyMap>(keys: &K, values: Self::ValueMap) -> (r: Result<(), Self::Error>) {
        T0::load_values(keys, values.0)?;
        T1::load_values(keys, values.1)?;
        T2::load_values(keys, values.2)?;
        Ok(())
    }
}

impl<T0: ResourceDef, T1: ResourceDef<Error = T0::Error>, T2: ResourceDef<Error = T0::Error>, T3: ResourceDef<Error = T0::Error>> ResourceDef for (T0, T1, T2, T3) {
    type Error = T0::Error;
    type KeyMap = (T0::KeyMap, T1::KeyMap, T2::KeyMap, T3::KeyMap);
    type ValueMap = (T0::ValueMap, T1::ValueMap, T2::ValueMap, T3::ValueMap);

    /// The members are visited in order, up to the first that fails.
    open spec fn visits(&self, ok: bool) -> bool {
        (!ok && self.0.visits(false)) || (self.0.visits(true) && ((!ok && self.1.visits(false)) || (self.1.visits(true) && ((!ok && self.2.visits(false)) || (self.2.visits(true) && (self.3.visits(ok)))))))
    }

    /// The members load their ids in order; the result holds all their key
    /// and value maps, or the error of the first that fails.
    open spec fn keys_loaded(self, r: Result<(Self::KeyMap, Self::ValueMap), Self::Error>) -> bool {
        match r {
            Ok((k, v)) => self.0.keys_loaded(Ok((k.0, v.0))) && self.1.keys_loaded(Ok((k.1, v.1))) && self.2.keys_loaded(Ok((k.2, v.2))) && self.3.keys_loaded(Ok((k.3, v.3))),
            Err(e) => self.0.keys_loaded(Err(e)) || exists|k0: T0::KeyMap, v0: T0::ValueMap|
                #[trigger] self.0.keys_loaded(Ok((k0, v0))) && (self.1.keys_loaded(Err(e)) || exists|k1: T1::KeyMap, v1: T1::ValueMap|
                #[trigger] self.1.keys_loaded(Ok((k1, v1))) && (self.2.keys_loaded(Err(e)) || exists|k2: T2::KeyMap, v2: T2::ValueMap|
                #[trigger] self.2.keys_loaded(Ok((k2, v2))) && (self.3.keys_loaded(Err(e))))),
        }
    }

    /// The members load their values in order, up to the first that fails,
    /// each resolving keys through the same key map.
    open spec fn values_loaded(
        lookup: spec_fn(Seq<char>, TypeId, Option<UntypedKey>) -> bool,
        values: Self::ValueMap,
        r: Result<(), Self::Error>,
    ) -> bool {
        match r {
            Ok(()) => T0::values_loaded(lookup, values.0, Ok(())) && T1::values_loaded(lookup, values.1, Ok(())) && T2::values_loaded(lookup, values.2, Ok(())) && T3::values_loaded(lookup, values.3, Ok(())),
            Err(e) => T0::values_loaded(lookup, values.0, Err(e)) || (T0::values_loaded(lookup, values.0, Ok(())) && (T1::values_loaded(lookup, values.1, Err(e)) || (T1::values_loaded(lookup, values.1, Ok(())) && (T2::values_loaded(lookup, values.2, Err(e)) || (T2::values_loaded(lookup, values.2, Ok(())) && (T3::values_loaded(lookup, values.3, Err(e)))))))),
        }
    }

    fn visit_resource_paths<E>(&self, mut visitor: impl FnMut(&PathBuf, ResourcePathKind) -> Result<(), E>) -> (r: Result<(), E>) {
        self.0.visit_resource_paths(&mut visitor)?;
        self.1.visit_resource_paths(&mut visitor)?;
        self.2.visit_resource_paths(&mut visitor)?;
        self.3.visit_resource_paths(&mut visitor)?;
        Ok(())
    }

    fn load_keys(self) -> (r: Result<(Self::KeyMap, Self::ValueMap), Self::Error>) {
        let (k0, v0) = self.0.load_keys()?;
        let (k1, v1) = self.1.load_keys()?;
        let (k2, v2) = self.2.load_keys()?;
        let (k3, v3) = self.3.load_keys()?;
        Ok(((k0, k1, k2, k3), (v0, v1, v2, v3)))
    }

    fn load_values<K: ResourceKeyMap>(keys: &K, values: Self::ValueMap) -> (r: Result<(), Self::Error>) {
        T0::load_values(keys, values.0)?;
        T1::load_values(keys, values.1)?;
        T2::load_values(keys, values.2)?;
        T3::load_values(keys, values.3)?;
        Ok(())
    }
}

impl<T0: ResourceDef, T1: ResourceDef<Error = T0::Error>, T2: ResourceDef<Error = T0::Error>, T3: ResourceDef<Error = T0::Error>, T4: ResourceDef<Error = T0::Error>> ResourceDef for (T0, T1, T2, T3, T4) {
    type Error = T0::Error;
    type KeyMap = (T0::KeyMap, T1::KeyMap, T2::KeyMap, T3::KeyMap, T4::KeyMap);
    type ValueMap = (T0::ValueMap, T1::ValueMap, T2::ValueMap, T3::ValueMap, T4::ValueMap);

    /// The members are visited in order, up to the first that fails.
    open spec fn visits(&self, ok: bool) -> bool {
        (!ok && self.0.visits(false)) || (self.0.visits(true) && ((!ok && self.1.visits(false)) || (self.1.visits(true) && ((!ok && self.2.visits(false)) || (self.2.visits(true) && ((!ok && self.3.visits(false)) || (self.3.visits(true) && (self.4.visits(ok)))))))))
    }

    /// The members load their ids in order; the result holds all their key
    /// and value maps, or the error of the first that fails.
    open spec fn keys_loaded(self, r: Result<(Self::KeyMap, Self::ValueMap), Self::Error>) -> bool {
        match r {
            Ok((k, v)) => self.0.keys_loaded(Ok((k.0, v.0))) && self.1.keys_loaded(Ok((k.1, v.1))) && self.2.keys_loaded(Ok((k.2, v.2))) && self.3.keys_loaded(Ok((k.3, v.3))) && self.4.keys_loaded(Ok((k.4, v.4))),
            Err(e) => self.0.keys_loaded(Err(e)) || exists|k0: T0::KeyMap, v0: T0::ValueMap|
                #[trigger] self.0.keys_loaded(Ok((k0, v0))) && (self.1.keys_loaded(Err(e)) || exists|k1: T1::KeyMap, v1: T1::ValueMap|
                #[trigger] self.1.keys_loaded(Ok((k1, v1))) && (self.2.keys_loaded(Err(e)) || exists|k2: T2::KeyMap, v2: T2::ValueMap|
                #[trigger] self.2.keys_loaded(Ok((k2, v2))) && (self.3.keys_loaded(Err(e)) || exists|k3: T3::KeyMap, v3: T3::ValueMap|
                #[trigger] self.3.keys_loaded(Ok((k3, v3))) && (self.4.keys_loaded(Err(e)))))),
        }
    }

    /// The members load their values in order, up to the first that fails,
    /// each resolving keys through the same key map.
    open spec fn values_loaded(
        lookup: spec_fn(Seq<char>, TypeId, Option<UntypedKey>) -> bool,
        values: Self::ValueMap,
        r: Result<(), Self::Error>,
    ) -> bool {
        match r {
            Ok(()) => T0::values_loaded(lookup, values.0, Ok(())) && T1::values_loaded(lookup, values.1, Ok(())) && T2::values_loaded(lookup, values.2, Ok(())) && T3::values_loaded(lookup, values.3, Ok(())) && T4::values_loaded(lookup, values.4, Ok(())),
            Err(e) => T0::values_loaded(lookup, values.0, Err(e)) || (T0::values_loaded(lookup, values.0, Ok(())) && (T1::values_loaded(lookup, values.1, Err(e)) || (T1::values_loaded(lookup, values.1, Ok(())) && (T2::values_loaded(lookup, values.2, Err(e)) || (T2::values_loaded(lookup, values.2, Ok(())) && (T3::values_loaded(lookup, values.3, Err(e)) || (T3::values_loaded(lookup, values.3, Ok(())) && (T4::values_loaded(lookup, values.4, Err(e)))))))))),
        }
    }

    fn visit_resource_paths<E>(&self, mut visitor: impl FnMut(&PathBuf, ResourcePathKind) -> Result<(), E>) -> (r: Result<(), E>) {
        self.0.visit_resource_paths(&mut visitor)?;
        self.1.visit_resource_paths(&mut visitor)?;
        self.2.visit_resource_paths(&mut visitor)?;
        self.3.visit_resource_paths(&mut visitor)?;
        self.4.visit_resource_paths(&mut visitor)?;
        Ok(())
    }

    fn load_keys(self) -> (r: Result<(Self::KeyMap, Self::ValueMap), Self::Error>) {
        let (k0, v0) = self.0.load_keys()?;
        let (k1, v1) = self.1.load_keys()?;
        let (k2, v2) = self.2.load_keys()?;
        let (k3, v3) = self.3.load_keys()?;
        let (k4, v4) = self.4.load_keys()?;
        Ok(((k0, k1, k2, k3, k4), (v0, v1, v2, v3, v4)))
    }

    fn load_values<K: ResourceKeyMap>(keys: &K, values: Self::ValueMap) -> (r: Result<(), Self::Error>) {
        T0::load_values(keys, values.0)?;
        T1::load_values(keys, values.1)?;
        T2::load_values(keys, values.2)?;
        T3::load_values(keys, values.3)?;
        T4::load_values(keys, values.4)?;
        Ok(())
    }
}

impl<T0: ResourceDef, T1: ResourceDef<Error = T0::Error>, T2: ResourceDef<Error = T0::Error>, T3: ResourceDef<Error = T0::Error>, T4: ResourceDef<Error = T0::Error>, T5: ResourceDef<Error = T0::Error>> ResourceDef for (T0, T1, T2, T3, T4, T5) {
    type Error = T0::Error;
    type KeyMap = (T0::KeyMap, T1::KeyMap, T2::KeyMap, T3::KeyMap, T4::KeyMap, T5::KeyMap);
    type ValueMap = (T0::ValueMap, T1::ValueMap, T2::ValueMap, T3::ValueMap, T4::ValueMap, T5::ValueMap);

    /// The members are visited in order, up to the first that fails.
    open spec fn visits(&self, ok: bool) -> bool {
        (!ok && self.0.visits(false)) || (self.0.visits(true) && ((!ok && self.1.visits(false)) || (self.1.visits(true) && ((!ok && self.2.visits(false)) || (self.2.visits(true) && ((!ok && self.3.visits(false)) || (self.3.visits(true) && ((!ok && self.4.visits(false)) || (self.4.visits(true) && (self.5.visits(ok)))))))))))
    }

    /// The members load their ids in order; the result holds all their key
    /// and value maps, or the error of the first that fails.
    open spec fn keys_loaded(self, r: Result<(Self::KeyMap, Self::ValueMap), Self::Error>) -> bool {
        match r {
            Ok((k, v)) => self.0.keys_loaded(Ok((k.0, v.0))) && self.1.keys_loaded(Ok((k.1, v.1))) && self.2.keys_loaded(Ok((k.2, v.2))) && self.3.keys_loaded(Ok((k.3, v.3))) && self.4.keys_loaded(Ok((k.4, v.4))) && self.5.keys_loaded(Ok((k.5, v.5))),
            Err(e) => self.0.keys_loaded(Err(e)) || exists|k0: T0::KeyMap, v0: T0::ValueMap|
                #[trigger] self.0.keys_loaded(Ok((k0, v0))) && (self.1.keys_loaded(Err(e)) || exists|k1: T1::KeyMap, v1: T1::ValueMap|
                #[trigger] self.1.keys_loaded(Ok((k1, v1))) && (self.2.keys_loaded(Err(e)) || exists|k2: T2::KeyMap, v2: T2::ValueMap|
                #[trigger] self.2.keys_loaded(Ok((k2, v2))) && (self.3.keys_loaded(Err(e)) || exists|k3: T3::KeyMap, v3: T3::ValueMap|
                #[trigger] self.3.keys_loaded(Ok((k3, v3))) && (self.4.keys_loaded(Err(e)) || exists|k4: T4::KeyMap, v4: T4::ValueMap|
                #[trigger] self.4.keys_loaded(Ok((k4, v4))) && (self.5.keys_loaded(Err(e))))))),
        }
    }

    /// The members load their values in order, up to the first that fails,
    /// each resolving keys through the same key map.
    open spec fn values_loaded(
        lookup: spec_fn(Seq<char>, TypeId, Option<UntypedKey>) -> bool,
        values: Self::ValueMap,
        r: Result<(), Self::Error>,
    ) -> bool {
        match r {
            Ok(()) => T0::values_loaded(lookup, values.0, Ok(())) && T1::values_loaded(lookup, values.1, Ok(())) && T2::values_loaded(lookup, values.2, Ok(())) && T3::values_loaded(lookup, values.3, Ok(())) && T4::values_loaded(lookup, values.4, Ok(())) && T5::values_loaded(lookup, values.5, Ok(())),
            Err(e) => T0::values_loaded(lookup, values.0, Err(e)) || (T0::values_loaded(lookup, values.0, Ok(())) && (T1::values_loaded(lookup, values.1, Err(e)) || (T1::values_loaded(lookup, values.1, Ok(())) && (T2::values_loaded(lookup, values.2, Err(e)) || (T2::values_loaded(lookup, values.2, Ok(())) && (T3::values_loaded(lookup, values.3, Err(e)) || (T3::values_loaded(lookup, values.3, Ok(())) && (T4::values_loaded(lookup, values.4, Err(e)) || (T4::values_loaded(lookup, values.4, Ok(())) && (T5::values_loaded(lookup, values.5, Err(e)))))))))))),
        }
    }

    fn visit_resource_paths<E>(&self, mut visitor: impl FnMut(&PathBuf, ResourcePathKind) -> Result<(), E>) -> (r: Result<(), E>) {
        self.0.visit_resource_paths(&mut visitor)?;
        self.1.visit_resource_paths(&mut visitor)?;
        self.2.visit_resource_paths(&mut visitor)?;
        self.3.visit_resource_paths(&mut visitor)?;
        self.4.visit_resource_paths(&mut visitor)?;
        self.5.visit_resource_paths(&mut visitor)?;
        Ok(())
    }

    fn load_keys(self) -> (r: Result<(Self::KeyMap, Self::ValueMap), Self::Error>) {
        let (k0, v0) = self.0.load_keys()?;
        let (k1, v1) = self.1.load_keys()?;
        let (k2, v2) = self.2.load_keys()?;
        let (k3, v3) = self.3.load_keys()?;
        let (k4, v4) = self.4.load_keys()?;
        let (k5, v5) = self.5.load_keys()?;
        Ok(((k0, k1, k2, k3, k4, k5), (v0, v1, v2, v3, v4, v5)))
    }

    fn load_values<K: ResourceKeyMap>(keys: &K, values: Self::ValueMap) -> (r: Result<(), Self::Error>) {
        T0::load_values(keys, values.0)?;
        T1::load_values(keys, values.1)?;
        T2::load_values(keys, values.2)?;
        T3::load_values(keys, values.3)?;
        T4::load_values(keys, values.4)?;
        T5::load_values(keys, values.5)?;
        Ok(())
    }
}

impl<T0: ResourceDef, T1: ResourceDef<Error = T0::Error>, T2: ResourceDef<Error = T0::Error>, T3: ResourceDef<Error = T0::Error>, T4: ResourceDef<Error = T0::Error>, T5: ResourceDef<Error = T0::Error>, T6: ResourceDef<Error = T0::Error>> ResourceDef for (T0, T1, T2, T3, T4, T5, T6) {
    type Error = T0::Error;
    type KeyMap = (T0::KeyMap, T1::KeyMap, T2::KeyMap, T3::KeyMap, T4::KeyMap, T5::KeyMap, T6::KeyMap);
    type ValueMap = (T0::ValueMap, T1::ValueMap, T2::ValueMap, T3::ValueMap, T4::ValueMap, T5::ValueMap, T6::ValueMap);

    /// The members are visited in order, up to the first that fails.
    open spec fn visits(&self, ok: bool) -> bool {
        (!ok && self.0.visits(false)) || (self.0.visits(true) && ((!ok && self.1.visits(false)) || (self.1.visits(true) && ((!ok && self.2.visits(false)) || (self.2.visits(true) && ((!ok && self.3.visits(false)) || (self.3.visits(true) && ((!ok && self.4.visits(false)) || (self.4.visits(true) && ((!ok && self.5.visits(false)) || (self.5.visits(true) && (self.6.visits(ok)))))))))))))
    }

    /// The members load their ids in order; the result holds all their key
    /// and value maps, or the error of the first that fails.
    open spec fn keys_loaded(self, r: Result<(Self::KeyMap, Self::ValueMap), Self::Error>) -> bool {
        match r {
            Ok((k, v)) => self.0.keys_loaded(Ok((k.0, v.0))) && self.1.keys_loaded(Ok((k.1, v.1))) && self.2.keys_loaded(Ok((k.2, v.2))) && self.3.keys_loaded(Ok((k.3, v.3))) && self.4.keys_loaded(Ok((k.4, v.4))) && self.5.keys_loaded(Ok((k.5, v.5))) && self.6.keys_loaded(Ok((k.6, v.6))),
            Err(e) => self.0.keys_loaded(Err(e)) || exists|k0: T0::KeyMap, v0: T0::ValueMap|
                #[trigger] self.0.keys_loaded(Ok((k0, v0))) && (self.1.keys_loaded(Err(e)) || exists|k1: T1::KeyMap, v1: T1::ValueMap|
                #[trigger] self.1.keys_loaded(Ok((k1, v1))) && (self.2.keys_loaded(Err(e)) || exists|k2: T2::KeyMap, v2: T2::ValueMap|
                #[trigger] self.2.keys_loaded(Ok((k2, v2))) && (self.3.keys_loaded(Err(e)) || exists|k3: T3::KeyMap, v3: T3::ValueMap|
                #[trigger] self.3.keys_loaded(Ok((k3, v3))) && (self.4.keys_loaded(Err(e)) || exists|k4: T4::KeyMap, v4: T4::ValueMap|
                #[trigger] self.4.keys_loaded(Ok((k4, v4))) && (self.5.keys_loaded(Err(e)) || exists|k5: T5::KeyMap, v5: T5::ValueMap|
                #[trigger] self.5.keys_loaded(Ok((k5, v5))) && (self.6.keys_loaded(Err(e)))))))),
        }
    }

    /// The members load their values in order, up to the first that fails,
    /// each resolving keys through the same key map.
    open spec fn values_loaded(
        lookup: spec_fn(Seq<char>, TypeId, Option<UntypedKey>) -> bool,
        values: Self::ValueMap,
        r: Result<(), Self::Error>,
    ) -> bool {
        match r {
            Ok(()) => T0::values_loaded(lookup, values.0, Ok(())) && T1::values_loaded(lookup, values.1, Ok(())) && T2::values_loaded(lookup, values.2, Ok(())) && T3::values_loaded(lookup, values.3, Ok(())) && T4::values_loaded(lookup, values.4, Ok(())) && T5::values_loaded(lookup, values.5, Ok(())) && T6::values_loaded(lookup, values.6, Ok(())),
            Err(e) => T0::values_loaded(lookup, values.0, Err(e)) || (T0::values_loaded(lookup, values.0, Ok(())) && (T1::values_loaded(lookup, values.1, Err(e)) || (T1::values_loaded(lookup, values.1, Ok(())) && (T2::values_loaded(lookup, values.2, Err(e)) || (T2::values_loaded(lookup, values.2, Ok(())) && (T3::values_loaded(lookup, values.3, Err(e)) || (T3::values_loaded(lookup, values.3, Ok(())) && (T4::values_loaded(lookup, values.4, Err(e)) || (T4::values_loaded(lookup, values.4, Ok(())) && (T5::values_loaded(lookup, values.5, Err(e)) || (T5::values_loaded(lookup, values.5, Ok(())) && (T6::values_loaded(lookup, values.6, Err(e)))))))))))))),
        }
    }

    fn visit_resource_paths<E>(&self, mut visitor: impl FnMut(&PathBuf, ResourcePathKind) -> Result<(), E>) -> (r: Result<(), E>) {
        self.0.visit_resource_paths(&mut visitor)?;
        self.1.visit_resource_paths(&mut visitor)?;
        self.2.visit_resource_paths(&mut visitor)?;
        self.3.visit_resource_paths(&mut visitor)?;
        self.4.visit_resource_paths(&mut visitor)?;
        self.5.visit_resource_paths(&mut visitor)?;
        self.6.visit_resource_paths(&mut visitor)?;
        Ok(())
    }

    fn load_keys(self) -> (r: Result<(Self::KeyMap, Self::ValueMap), Self::Error>) {
        let (k0, v0) = self.0.load_keys()?;
        let (k1, v1) = self.1.load_keys()?;
        let (k2, v2) = self.2.load_keys()?;
        let (k3, v3) = self.3.load_keys()?;
        let (k4, v4) = self.4.load_keys()?;
        let (k5, v5) = self.5.load_keys()?;
        let (k6, v6) = self.6.load_keys()?;
        Ok(((k0, k1, k2, k3, k4, k5, k6), (v0, v1, v2, v3, v4, v5, v6)))
    }

    fn load_values<K: ResourceKeyMap>(keys: &K, values: Self::ValueMap) -> (r: Result<(), Self::Error>) {
        T0::load_values(keys, values.0)?;
        T1::load_values(keys, values.1)?;
        T2::load_values(keys, values.2)?;
        T3::load_values(keys, values.3)?;
        T4::load_values(keys, values.4)?;
        T5::load_values(keys, values.5)?;
        T6::load_values(keys, values.6)?;
        Ok(())
    }
}

impl<T0: ResourceDef, T1: ResourceDef<Error = T0::Error>, T2: ResourceDef<Error = T0::Error>, T3: ResourceDef<Error = T0::Error>, T4: ResourceDef<Error = T0::Error>, T5: ResourceDef<Error = T0::Error>, T6: ResourceDef<Error = T0::Error>, T7: ResourceDef<Error = T0::Error>> ResourceDef for (T0, T1, T2, T3, T4, T5, T6, T7) {
    type Error = T0::Error;
    type KeyMap = (T0::KeyMap, T1::KeyMap, T2::KeyMap, T3::KeyMap, T4::KeyMap, T5::KeyMap, T6::KeyMap, T7::KeyMap);
    type ValueMap = (T0::ValueMap, T1::ValueMap, T2::ValueMap, T3::ValueMap, T4::ValueMap, T5::ValueMap, T6::ValueMap, T7::ValueMap);

    /// The members are visited in order, up to the first that fails.
    open spec fn visits(&self, ok: bool) -> bool {
        (!ok && self.0.visits(false)) || (self.0.visits(true) && ((!ok && self.1.visits(false)) || (self.1.visits(true) && ((!ok && self.2.visits(false)) || (self.2.visits(true) && ((!ok && self.3.visits(false)) || (self.3.visits(true) && ((!ok && self.4.visits(false)) || (self.4.visits(true) && ((!ok && self.5.visits(false)) || (self.5.visits(true) && ((!ok && self.6.visits(false)) || (self.6.visits(true) && (self.7.visits(ok)))))))))))))))
    }

    /// The members load their ids in order; the result holds all their key
    /// and value maps, or the error of the first that fails.
    open spec fn keys_loaded(self, r: Result<(Self::KeyMap, Self::ValueMap), Self::Error>) -> bool {
        match r {
            Ok((k, v)) => self.0.keys_loaded(Ok((k.0, v.0))) && self.1.keys_loaded(Ok((k.1, v.1))) && self.2.keys_loaded(Ok((k.2, v.2))) && self.3.keys_loaded(Ok((k.3, v.3))) && self.4.keys_loaded(Ok((k.4, v.4))) && self.5.keys_loaded(Ok((k.5, v.5))) && self.6.keys_loaded(Ok((k.6, v.6))) && self.7.keys_loaded(Ok((k.7, v.7))),
            Err(e) => self.0.keys_loaded(Err(e)) || exists|k0: T0::KeyMap, v0: T0::ValueMap|
                #[trigger] self.0.keys_loaded(Ok((k0, v0))) && (self.1.keys_loaded(Err(e)) || exists|k1: T1::KeyMap, v1: T1::ValueMap|
                #[trigger] self.1.keys_loaded(Ok((k1, v1))) && (self.2.keys_loaded(Err(e)) || exists|k2: T2::KeyMap, v2: T2::ValueMap|
                #[trigger] self.2.keys_loaded(Ok((k2, v2))) && (self.3.keys_loaded(Err(e)) || exists|k3: T3::KeyMap, v3: T3::ValueMap|
                #[trigger] self.3.keys_loaded(Ok((k3, v3))) && (self.4.keys_loaded(Err(e)) || exists|k4: T4::KeyMap, v4: T4::ValueMap|
                #[trigger] self.4.keys_loaded(Ok((k4, v4))) && (self.5.keys_loaded(Err(e)) || exists|k5: T5::KeyMap, v5: T5::ValueMap|
                #[trigger] self.5.keys_loaded(Ok((k5, v5))) && (self.6.keys_loaded(Err(e)) || exists|k6: T6::KeyMap, v6: T6::ValueMap|
                #[trigger] self.6.keys_loaded(Ok((k6, v6))) && (self.7.keys_loaded(Err(e))))))))),
        }
    }

    /// The members load their values in order, up to the first that fails,
    /// each resolving keys through the same key map.
    open spec fn values_loaded(
        lookup: spec_fn(Seq<char>, TypeId, Option<UntypedKey>) -> bool,
        values: Self::ValueMap,
        r: Result<(), Self::Error>,
    ) -> bool {
        match r {
            Ok(()) => T0::values_loaded(lookup, values.0, Ok(())) && T1::values_loaded(lookup, values.1, Ok(())) && T2::values_loaded(lookup, values.2, Ok(())) && T3::values_loaded(lookup, values.3, Ok(())) && T4::values_loaded(lookup, values.4, Ok(())) && T5::values_loaded(lookup, values.5, Ok(())) && T6::values_loaded(lookup, values.6, Ok(())) && T7::values_loaded(lookup, values.7, Ok(())),
            Err(e) => T0::values_loaded(lookup, values.0, Err(e)) || (T0::values_loaded(lookup, values.0, Ok(())) && (T1::values_loaded(lookup, values.1, Err(e)) || (T1::values_loaded(lookup, values.1, Ok(())) && (T2::values_loaded(lookup, values.2, Err(e)) || (T2::values_loaded(lookup, values.2, Ok(())) && (T3::values_loaded(lookup, values.3, Err(e)) || (T3::values_loaded(lookup, values.3, Ok(())) && (T4::values_loaded(lookup, values.4, Err(e)) || (T4::values_loaded(lookup, values.4, Ok(())) && (T5::values_loaded(lookup, values.5, Err(e)) || (T5::values_loaded(lookup, values.5, Ok(())) && (T6::values_loaded(lookup, values.6, Err(e)) || (T6::values_loaded(lookup, values.6, Ok(())) && (T7::values_loaded(lookup, values.7, Err(e)))))))))))))))),
        }
    }

    fn visit_resource_paths<E>(&self, mut visitor: impl FnMut(&PathBuf, ResourcePathKind) -> Result<(), E>) -> (r: Result<(), E>) {
        self.0.visit_resource_paths(&mut visitor)?;
        self.1.visit_resource_paths(&mut visitor)?;
        self.2.visit_resource_paths(&mut visitor)?;
        self.3.visit_resource_paths(&mut visitor)?;
        self.4.visit_resource_paths(&mut visitor)?;
        self.5.visit_resource_paths(&mut visitor)?;
        self.6.visit_resource_paths(&mut visitor)?;
        self.7.visit_resource_paths(&mut visitor)?;
        Ok(())
    }

    fn load_keys(self) -> (r: Result<(Self::KeyMap, Self::ValueMap), Self::Error>) {
        let (k0, v0) = self.0.load_keys()?;
        let (k1, v1) = self.1.load_keys()?;
        let (k2, v2) = self.2.load_keys()?;
        let (k3, v3) = self.3.load_keys()?;
        let (k4, v4) = self.4.load_keys()?;
        let (k5, v5) = self.5.load_keys()?;
        let (k6, v6) = self.6.load_keys()?;
        let (k7, v7) = self.7.load_keys()?;
        Ok(((k0, k1, k2, k3, k4, k5, k6, k7), (v0, v1, v2, v3, v4, v5, v6, v7)))
    }

    fn load_values<K: ResourceKeyMap>(keys: &K, values: Self::ValueMap) -> (r: Result<(), Self::Error>) {
        T0::load_values(keys, values.0)?;
        T1::load_values(keys, values.1)?;
        T2::load_values(keys, values.2)?;
        T3::load_values(keys, values.3)?;
        T4::load_values(keys, values.4)?;
        T5::load_values(keys, values.5)?;
        T6::load_values(keys, values.6)?;
        T7::load_values(keys, values.7)?;
        Ok(())
    }
}

impl<T0: ResourceDef, T1: ResourceDef<Error = T0::Error>, T2: ResourceDef<Error = T0::Error>, T3: ResourceDef<Error = T0::Error>, T4: ResourceDef<Error = T0::Error>, T5: ResourceDef<Error = T0::Error>, T6: ResourceDef<Error = T0::Error>, T7: ResourceDef<Error = T0::Error>, T8: ResourceDef<Error = T0::Error>> ResourceDef for (T0, T1, T2, T3, T4, T5, T6, T7, T8) {
    type Error = T0::Error;
    type KeyMap = (T0::KeyMap, T1::KeyMap, T2::KeyMap, T3::KeyMap, T4::KeyMap, T5::KeyMap, T6::KeyMap, T7::KeyMap, T8::KeyMap);
    type ValueMap = (T0::ValueMap, T1::ValueMap, T2::ValueMap, T3::ValueMap, T4::ValueMap, T5::ValueMap, T6::ValueMap, T7::ValueMap, T8::ValueMap);

    /// The members are visited in order, up to the first that fails.
    open spec fn visits(&self, ok: bool) -> bool {
        (!ok && self.0.visits(false)) || (self.0.visits(true) && ((!ok && self.1.visits(false)) || (self.1.visits(true) && ((!ok && self.2.visits(false)) || (self.2.visits(true) && ((!ok && self.3.visits(false)) || (self.3.visits(true) && ((!ok && self.4.visits(false)) || (self.4.visits(true) && ((!ok && self.5.visits(false)) || (self.5.visits(true) && ((!ok && self.6.visits(false)) || (self.6.visits(true) && ((!ok && self.7.visits(false)) || (self.7.visits(true) && (self.8.visits(ok)))))))))))))))))
    }

    /// The members load their ids in order; the result holds all their key
    /// and value maps, or the error of the first that fails.
    open spec fn keys_loaded(self, r: Result<(Self::KeyMap, Self::ValueMap), Self::Error>) -> bool {
        match r {
            Ok((k, v)) => self.0.keys_loaded(Ok((k.0, v.0))) && self.1.keys_loaded(Ok((k.1, v.1))) && self.2.keys_loaded(Ok((k.2, v.2))) && self.3.keys_loaded(Ok((k.3, v.3))) && self.4.keys_loaded(Ok((k.4, v.4))) && self.5.keys_loaded(Ok((k.5, v.5))) && self.6.keys_loaded(Ok((k.6, v.6))) && self.7.keys_loaded(Ok((k.7, v.7))) && self.8.keys_loaded(Ok((k.8, v.8))),
            Err(e) => self.0.keys_loaded(Err(e)) || exists|k0: T0::KeyMap, v0: T0::ValueMap|
                #[trigger] self.0.keys_loaded(Ok((k0, v0))) && (self.1.keys_loaded(Err(e)) || exists|k1: T1::KeyMap, v1: T1::ValueMap|
                #[trigger] self.1.keys_loaded(Ok((k1, v1))) && (self.2.keys_loaded(Err(e)) || exists|k2: T2::KeyMap, v2: T2::ValueMap|
                #[trigger] self.2.keys_loaded(Ok((k2, v2))) && (self.3.keys_loaded(Err(e)) || exists|k3: T3::KeyMap, v3: T3::ValueMap|
                #[trigger] self.3.keys_loaded(Ok((k3, v3))) && (self.4.keys_loaded(Err(e)) || exists|k4: T4::KeyMap, v4: T4::ValueMap|
                #[trigger] self.4.keys_loaded(Ok((k4, v4))) && (self.5.keys_loaded(Err(e)) || exists|k5: T5::KeyMap, v5: T5::ValueMap|
                #[trigger] self.5.keys_loaded(Ok((k5, v5))) && (self.6.keys_loaded(Err(e)) || exists|k6: T6::KeyMap, v6: T6::ValueMap|
                #[trigger] self.6.keys_loaded(Ok((k6, v6))) && (self.7.keys_loaded(Err(e)) || exists|k7: T7::KeyMap, v7: T7::ValueMap|
                #[trigger] self.7.keys_loaded(Ok((k7, v7))) && (self.8.keys_loaded(Err(e)))))))))),
        }
    }

    /// The members load their values in order, up to the first that fails,
    /// each resolving keys through the same key map.
    open spec fn values_loaded(
        lookup: spec_fn(Seq<char>, TypeId, Option<UntypedKey>) -> bool,
        values: Self::ValueMap,
        r: Result<(), Self::Error>,
    ) -> bool {
        match r {
            Ok(()) => T0::values_loaded(lookup, values.0, Ok(())) && T1::values_loaded(lookup, values.1, Ok(())) && T2::values_loaded(lookup, values.2, Ok(())) && T3::values_loaded(lookup, values.3, Ok(())) && T4::values_loaded(lookup, values.4, Ok(())) && T5::values_loaded(lookup, values.5, Ok(())) && T6::values_loaded(lookup, values.6, Ok(())) && T7::values_loaded(lookup, values.7, Ok(())) && T8::values_loaded(lookup, values.8, Ok(())),
            Err(e) => T0::values_loaded(lookup, values.0, Err(e)) || (T0::values_loaded(lookup, values.0, Ok(())) && (T1::values_loaded(lookup, values.1, Err(e)) || (T1::values_loaded(lookup, values.1, Ok(())) && (T2::values_loaded(lookup, values.2, Err(e)) || (T2::values_loaded(lookup, values.2, Ok(())) && (T3::values_loaded(lookup, values.3, Err(e)) || (T3::values_loaded(lookup, values.3, Ok(())) && (T4::values_loaded(lookup, values.4, Err(e)) || (T4::values_loaded(lookup, values.4, Ok(())) && (T5::values_loaded(lookup, values.5, Err(e)) || (T5::values_loaded(lookup, values.5, Ok(())) && (T6::values_loaded(lookup, values.6, Err(e)) || (T6::values_loaded(lookup, values.6, Ok(())) && (T7::values_loaded(lookup, values.7, Err(e)) || (T7::values_loaded(lookup, values.7, Ok(())) && (T8::values_loaded(lookup, values.8, Err(e)))))))))))))))))),
        }
    }

    fn visit_resource_paths<E>(&self, mut visitor: impl FnMut(&PathBuf, ResourcePathKind) -> Result<(), E>) -> (r: Result<(), E>) {
        self.0.visit_resource_paths(&mut visitor)?;
        self.1.visit_resource_paths(&mut visitor)?;
        self.2.visit_resource_paths(&mut visitor)?;
        self.3.visit_resource_paths(&mut visitor)?;
        self.4.visit_resource_paths(&mut visitor)?;
        self.5.visit_resource_paths(&mut visitor)?;
        self.6.visit_resource_paths(&mut visitor)?;
        self.7.visit_resource_paths(&mut visitor)?;
        self.8.visit_resource_paths(&mut visitor)?;
        Ok(())
    }

    fn load_keys(self) -> (r: Result<(Self::KeyMap, Self::ValueMap), Self::Error>) {
        let (k0, v0) = self.0.load_keys()?;
        let (k1, v1) = self.1.load_keys()?;
        let (k2, v2) = self.2.load_keys()?;
        let (k3, v3) = self.3.load_keys()?;
        let (k4, v4) = self.4.load_keys()?;
        let (k5, v5) = self.5.load_keys()?;
        let (k6, v6) = self.6.load_keys()?;
        let (k7, v7) = self.7.load_keys()?;
        let (k8, v8) = self.8.load_keys()?;
        Ok(((k0, k1, k2, k3, k4, k5, k6, k7, k8), (v0, v1, v2, v3, v4, v5, v6, v7, v8)))
    }

    fn load_values<K: ResourceKeyMap>(keys: &K, values: Self::ValueMap) -> (r: Result<(), Self::Error>) {
        T0::load_values(keys, values.0)?;
        T1::load_values(keys, values.1)?;
        T2::load_values(keys, values.2)?;
        T3::load_values(keys, values.3)?;
        T4::load_values(keys, values.4)?;
        T5::load_values(keys, values.5)?;
        T6::load_values(keys, values.6)?;
        T7::load_values(keys, values.7)?;
        T8::load_values(keys, values.8)?;
        Ok(())
    }
}

impl<T0: ResourceDef, T1: ResourceDef<Error = T0::Error>, T2: ResourceDef<Error = T0::Error>, T3: ResourceDef<Error = T0::Error>, T4: ResourceDef<Error = T0::Error>, T5: ResourceDef<Error = T0::Error>, T6: ResourceDef<Error = T0::Error>, T7: ResourceDef<Error = T0::Error>, T8: ResourceDef<Error = T0::Error>, T9: ResourceDef<Error = T0::Error>> ResourceDef for (T0, T1, T2, T3, T4, T5, T6, T7, T8, T9) {
    type Error = T0::Error;
    type KeyMap = (T0::KeyMap, T1::KeyMap, T2::KeyMap, T3::KeyMap, T4::KeyMap, T5::KeyMap, T6::KeyMap, T7::KeyMap, T8::KeyMap, T9::KeyMap);
    type ValueMap = (T0::ValueMap, T1::ValueMap, T2::ValueMap, T3::ValueMap, T4::ValueMap, T5::ValueMap, T6::ValueMap, T7::ValueMap, T8::ValueMap, T9::ValueMap);

    /// The members are visited in order, up to the first that fails.
    open spec fn visits(&self, ok: bool) -> bool {
        (!ok && self.0.visits(false)) || (self.0.visits(true) && ((!ok && self.1.visits(false)) || (self.1.visits(true) && ((!ok && self.2.visits(false)) || (self.2.visits(true) && ((!ok && self.3.visits(false)) || (self.3.visits(true) && ((!ok && self.4.visits(false)) || (self.4.visits(true) && ((!ok && self.5.visits(false)) || (self.5.visits(true) && ((!ok && self.6.visits(false)) || (self.6.visits(true) && ((!ok && self.7.visits(false)) || (self.7.visits(true) && ((!ok && self.8.visits(false)) || (self.8.visits(true) && (self.9.visits(ok)))))))))))))))))))
    }

    /// The members load their ids in order; the result holds all their key
    /// and value maps, or the error of the first that fails.
    open spec fn keys_loaded(self, r: Result<(Self::KeyMap, Self::ValueMap), Self::Error>) -> bool {
        match r {
            Ok((k, v)) => self.0.keys_loaded(Ok((k.0, v.0))) && self.1.keys_loaded(Ok((k.1, v.1))) && self.2.keys_loaded(Ok((k.2, v.2))) && self.3.keys_loaded(Ok((k.3, v.3))) && self.4.keys_loaded(Ok((k.4, v.4))) && self.5.keys_loaded(Ok((k.5, v.5))) && self.6.keys_loaded(Ok((k.6, v.6))) && self.7.keys_loaded(Ok((k.7, v.7))) && self.8.keys_loaded(Ok((k.8, v.8))) && self.9.keys_loaded(Ok((k.9, v.9))),
            Err(e) => self.0.keys_loaded(Err(e)) || exists|k0: T0::KeyMap, v0: T0::ValueMap|
                #[trigger] self.0.keys_loaded(Ok((k0, v0))) && (self.1.keys_loaded(Err(e)) || exists|k1: T1::KeyMap, v1: T1::ValueMap|
                #[trigger] self.1.keys_loaded(Ok((k1, v1))) && (self.2.keys_loaded(Err(e)) || exists|k2: T2::KeyMap, v2: T2::ValueMap|
                #[trigger] self.2.keys_loaded(Ok((k2, v2))) && (self.3.keys_loaded(Err(e)) || exists|k3: T3::KeyMap, v3: T3::ValueMap|
                #[trigger] self.3.keys_loaded(Ok((k3, v3))) && (self.4.keys_loaded(Err(e)) || exists|k4: T4::KeyMap, v4: T4::ValueMap|
                #[trigger] self.4.keys_loaded(Ok((k4, v4))) && (self.5.keys_loaded(Err(e)) || exists|k5: T5::KeyMap, v5: T5::ValueMap|
                #[trigger] self.5.keys_loaded(Ok((k5, v5))) && (self.6.keys_loaded(Err(e)) || exists|k6: T6::KeyMap, v6: T6::ValueMap|
                #[trigger] self.6.keys_loaded(Ok((k6, v6))) && (self.7.keys_loaded(Err(e)) || exists|k7: T7::KeyMap, v7: T7::ValueMap|
                #[trigger] self.7.keys_loaded(Ok((k7, v7))) && (self.8.keys_loaded(Err(e)) || exists|k8: T8::KeyMap, v8: T8::ValueMap|
                #[trigger] self.8.keys_loaded(Ok((k8, v8))) && (self.9.keys_loaded(Err(e))))))))))),
        }
    }

    /// The members load their values in order, up to the first that fails,
    /// each resolving keys through the same key map.
    open spec fn values_loaded(
        lookup: spec_fn(Seq<char>, TypeId, Option<UntypedKey>) -> bool,
        values: Self::ValueMap,
        r: Result<(), Self::Error>,
    ) -> bool {
        match r {
            Ok(()) => T0::values_loaded(lookup, values.0, Ok(())) && T1::values_loaded(lookup, values.1, Ok(())) && T2::values_loaded(lookup, values.2, Ok(())) && T3::values_loaded(lookup, values.3, Ok(())) && T4::values_loaded(lookup, values.4, Ok(())) && T5::values_loaded(lookup, values.5, Ok(())) && T6::values_loaded(lookup, values.6, Ok(())) && T7::values_loaded(lookup, values.7, Ok(())) && T8::values_loaded(lookup, values.8, Ok(())) && T9::values_loaded(lookup, values.9, Ok(())),
            Err(e) => T0::values_loaded(lookup, values.0, Err(e)) || (T0::values_loaded(lookup, values.0, Ok(())) && (T1::values_loaded(lookup, values.1, Err(e)) || (T1::values_loaded(lookup, values.1, Ok(())) && (T2::values_loaded(lookup, values.2, Err(e)) || (T2::values_loaded(lookup, values.2, Ok(())) && (T3::values_loaded(lookup, values.3, Err(e)) || (T3::values_loaded(lookup, values.3, Ok(())) && (T4::values_loaded(lookup, values.4, Err(e)) || (T4::values_loaded(lookup, values.4, Ok(())) && (T5::values_loaded(lookup, values.5, Err(e)) || (T5::values_loaded(lookup, values.5, Ok(())) && (T6::values_loaded(lookup, values.6, Err(e)) || (T6::values_loaded(lookup, values.6, Ok(())) && (T7::values_loaded(lookup, values.7, Err(e)) || (T7::values_loaded(lookup, values.7, Ok(())) && (T8::values_loaded(lookup, values.8, Err(e)) || (T8::values_loaded(lookup, values.8, Ok(())) && (T9::values_loaded(lookup, values.9, Err(e)))))))))))))))))))),
        }
    }

    fn visit_resource_paths<E>(&self, mut visitor: impl FnMut(&PathBuf, ResourcePathKind) -> Result<(), E>) -> (r: Result<(), E>) {
        self.0.visit_resource_paths(&mut visitor)?;
        self.1.visit_resource_paths(&mut visitor)?;
        self.2.visit_resource_paths(&mut visitor)?;
        self.3.visit_resource_paths(&mut visitor)?;
        self.4.visit_resource_paths(&mut visitor)?;
        self.5.visit_resource_paths(&mut visitor)?;
        self.6.visit_resource_paths(&mut visitor)?;
        self.7.visit_resource_paths(&mut visitor)?;
        self.8.visit_resource_paths(&mut visitor)?;
        self.9.visit_resource_paths(&mut visitor)?;
        Ok(())
    }

    fn load_keys(self) -> (r: Result<(Self::KeyMap, Self::ValueMap), Self::Error>) {
        let (k0, v0) = self.0.load_keys()?;
        let (k1, v1) = self.1.load_keys()?;
        let (k2, v2) = self.2.load_keys()?;
        let (k3, v3) = self.3.load_keys()?;
        let (k4, v4) = self.4.load_keys()?;
        let (k5, v5) = self.5.load_keys()?;
        let (k6, v6) = self.6.load_keys()?;
        let (k7, v7) = self.7.load_keys()?;
        let (k8, v8) = self.8.load_keys()?;
        let (k9, v9) = self.9.load_keys()?;
        Ok(((k0, k1, k2, k3, k4, k5, k6, k7, k8, k9), (v0, v1, v2, v3, v4, v5, v6, v7, v8, v9)))
    }

    fn load_values<K: ResourceKeyMap>(keys: &K, values: Self::ValueMap) -> (r: Result<(), Self::Error>) {
        T0::load_values(keys, values.0)?;
        T1::load_values(keys, values.1)?;
        T2::load_values(keys, values.2)?;
        T3::load_values(keys, values.3)?;
        T4::load_values(keys, values.4)?;
        T5::load_values(keys, values.5)?;
        T6::load_values(keys, values.6)?;
        T7::load_values(keys, values.7)?;
        T8::load_values(keys, values.8)?;
        T9::load_values(keys, values.9)?;
        Ok(())
    }
}

} // verus!
