//! Run-time identities of types.
//!
//! An identity is a `std::any::TypeId`. Nothing inside an identity is visible
//! to the proofs: they only ever ask whether two identities are the same one,
//! and which type an identity stands for.

use std::any::TypeId;
use vstd::prelude::*;

verus! {

/// `std::any::TypeId`, carried as an opaque value.
#[verifier::external_type_specification]
#[verifier::external_body]
pub struct ExTypeId(TypeId);

/// Calls `TypeId::of::<T>()`. Nothing is claimed of the result here: the
/// predicate [`identifies`] is defined as "a value this call returns".
#[verifier::external_body]
fn type_id_of<T: ?Sized + 'static>() -> (id: TypeId) {
    TypeId::of::<T>()
}

/// Calls `TypeId::eq`. The claim: it answers `true` exactly when both
/// arguments are the same identity.
#[verifier::external_body]
pub(crate) fn same_type(a: &TypeId, b: &TypeId) -> (same: bool)
    ensures
        same == (*a == *b),
{
    a == b
}

/// `id` is an identity of the type `T`: a value that `TypeId::of::<T>()`
/// returns.
pub closed spec fn identifies<T: ?Sized + 'static>(id: TypeId) -> bool {
    call_ensures(type_id_of::<T>, (), id)
}

/// `id` is the identity of `T`, and `T` has no other.
pub open spec fn is_identity_of<T: ?Sized + 'static>(id: TypeId) -> bool {
    &&& identifies::<T>(id)
    &&& forall|other: TypeId| identifies::<T>(other) ==> other == id
}

/// The identity of the type `T`.
pub fn identity_of<T: ?Sized + 'static>() -> (id: TypeId)
    ensures
        identifies::<T>(id),
{
    type_id_of::<T>()
}

} // verus!
