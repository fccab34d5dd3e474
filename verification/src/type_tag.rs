//! Runtime type identity, as the standard library hands it out.
//!
//! The registry tags untyped keys with the `TypeId` of the value type they
//! were made for.  Only two operations on type identities are needed: asking
//! for the identity of a type, and comparing two identities.
use std::any::TypeId;
use vstd::prelude::*;

verus! {

/// `std::any::TypeId`, carried through the library as an opaque value.
#[verifier::external_type_specification]
#[verifier::external_body]
pub struct ExTypeId(TypeId);

/// Calls `std::any::TypeId::of::<T>()`.
///
/// Nothing is claimed of the result: the identity of a type is chosen by the
/// compiler and no contract here relates two calls to each other.
#[verifier::external_body]
pub(crate) fn type_id_of<T: ?Sized + 'static>() -> TypeId {
    TypeId::of::<T>()
}

/// Calls `<TypeId as PartialEq>::eq`.
///
/// Claims that two type identities compare equal exactly when they are the
/// same value, as `TypeId`'s documentation describes its equality.
#[verifier::external_body]
pub(crate) fn type_ids_equal(a: &TypeId, b: &TypeId) -> (r: bool)
    ensures
        r == (*a == *b),
{
    a.eq(b)
}

} // verus!
