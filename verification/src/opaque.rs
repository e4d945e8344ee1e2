//! Opaque dynamic values.
//!
//! A value whose concrete type is known only at run time is held behind one of
//! three handles, one per ownership mode. A handle shows the proofs one thing:
//! the identity of the concrete type behind it.

use crate::identity::{identifies, is_identity_of};
use std::any::Any;
use std::any::TypeId;
use vstd::prelude::*;

verus! {

/// A shared reference to a value of some concrete type (`&dyn Any`).
#[verifier::external_body]
#[derive(Debug)]
pub struct AnyRef<'a> {
    inner: &'a dyn Any,
}

/// A mutable reference to a value of some concrete type (`&mut dyn Any`).
#[verifier::external_body]
#[derive(Debug)]
pub struct AnyMut<'a> {
    inner: &'a mut dyn Any,
}

/// An owned value of some concrete type (`Box<dyn Any>`).
#[verifier::external_body]
#[derive(Debug)]
pub struct AnyBox {
    inner: Box<dyn Any>,
}

/// The identity that `Any::type_id` reports for the value behind a shared
/// handle.
pub uninterp spec fn ref_type(x: AnyRef) -> TypeId;

/// The identity that `Any::type_id` reports for the value behind a mutable
/// handle.
pub uninterp spec fn mut_type(x: AnyMut) -> TypeId;

/// The identity that `Any::type_id` reports for the value behind an owned
/// handle.
pub uninterp spec fn box_type(x: AnyBox) -> TypeId;

impl<'a> AnyRef<'a> {
    /// Calls `Any::type_id` on the value behind the handle; the result is what
    /// [`ref_type`] names.
    #[verifier::external_body]
    pub(crate) fn dynamic_type(&self) -> (id: TypeId)
        ensures
            id == ref_type(*self),
    {
        (*self.inner).type_id()
    }
}

impl<'a> AnyMut<'a> {
    /// Calls `Any::type_id` on the value behind the handle; the result is what
    /// [`mut_type`] names.
    #[verifier::external_body]
    pub(crate) fn dynamic_type(&self) -> (id: TypeId)
        ensures
            id == mut_type(*self),
    {
        (*self.inner).type_id()
    }
}

impl AnyBox {
    /// Calls `Any::type_id` on the value in the box, not on the box; the
    /// result is what [`box_type`] names.
    #[verifier::external_body]
    pub(crate) fn dynamic_type(&self) -> (id: TypeId)
        ensures
            id == box_type(*self),
    {
        (*self.inner).type_id()
    }
}

/// Unsizes `&T` to `&dyn Any`. The claim: the handle reports the identity of
/// `T`.
#[verifier::external_body]
pub(crate) fn erase_ref<T: Sized + 'static>(x: &T) -> (a: AnyRef<'_>)
    ensures
        is_identity_of::<T>(ref_type(a)),
{
    AnyRef { inner: x }
}

/// Unsizes `&mut T` to `&mut dyn Any`. The claim: the handle reports the
/// identity of `T`.
#[verifier::external_body]
pub(crate) fn erase_mut<T: Sized + 'static>(x: &mut T) -> (a: AnyMut<'_>)
    ensures
        is_identity_of::<T>(mut_type(a)),
{
    AnyMut { inner: x }
}

/// Unsizes `Box<T>` to `Box<dyn Any>`. The claim: the handle reports the
/// identity of `T`.
#[verifier::external_body]
pub(crate) fn erase_box<T: Sized + 'static>(x: Box<T>) -> (a: AnyBox)
    ensures
        is_identity_of::<T>(box_type(a)),
{
    AnyBox { inner: x }
}

/// Calls `<dyn Any>::downcast_ref::<T>`. The claim: it gives a reference
/// exactly when the value behind the handle is of type `T`.
#[verifier::external_body]
pub(crate) fn downcast_ref<'a, T: Sized + 'static>(x: AnyRef<'a>) -> (r: Option<&'a T>)
    ensures
        forall|id: TypeId| identifies::<T>(id) ==> (r is Some <==> ref_type(x) == id),
{
    x.inner.downcast_ref::<T>()
}

/// Calls `<dyn Any>::downcast_mut::<T>`. The claim: it gives a reference
/// exactly when the value behind the handle is of type `T`.
#[verifier::external_body]
pub(crate) fn downcast_mut<'a, T: Sized + 'static>(x: AnyMut<'a>) -> (r: Option<&'a mut T>)
    ensures
        forall|id: TypeId| identifies::<T>(id) ==> (r is Some <==> mut_type(x) == id),
{
    x.inner.downcast_mut::<T>()
}

/// Calls `Box::<dyn Any>::downcast::<T>`. The claim: it gives the box exactly
/// when the value in it is of type `T`.
#[verifier::external_body]
pub(crate) fn downcast_box<T: Sized + 'static>(x: AnyBox) -> (r: Result<Box<T>, AnyBox>)
    ensures
        forall|id: TypeId| identifies::<T>(id) ==> (r is Ok <==> box_type(x) == id),
{
    match x.inner.downcast::<T>() {
        Ok(value) => Ok(value),
        Err(inner) => Err(AnyBox { inner }),
    }
}

/// A value that can present itself as an opaque dynamic value, whichever way
/// it is held: by reference, by mutable reference, or owned.
///
/// Every sized type with a static lifetime is one. A trait that extends
/// `TraitcastFrom` makes its trait objects ones too.
pub trait TraitcastFrom {
    /// The identity of the concrete type of `self`.
    spec fn concrete_id(&self) -> TypeId;

    /// The value as an opaque shared reference.
    fn as_any_ref(&self) -> (a: AnyRef<'_>)
        ensures
            ref_type(a) == self.concrete_id(),
    ;

    /// The value as an opaque mutable reference.
    fn as_any_mut(&mut self) -> (a: AnyMut<'_>)
        ensures
            mut_type(a) == (*old(self)).concrete_id(),
    ;

    /// The value as an opaque owned value.
    fn as_any_box(self: Box<Self>) -> (a: AnyBox)
        ensures
            box_type(a) == (*self).concrete_id(),
    ;

    /// The identity of the concrete type of `self`, at run time.
    fn type_id(&self) -> (id: TypeId)
        ensures
            id == self.concrete_id(),
    {
        self.as_any_ref().dynamic_type()
    }
}

impl<T: Sized + 'static> TraitcastFrom for T {
    /// The identity of `T`, whatever the value.
    open spec fn concrete_id(&self) -> TypeId {
        choose|id: TypeId| identifies::<T>(id)
    }

    fn as_any_ref(&self) -> (a: AnyRef<'_>)
        ensures
            is_identity_of::<T>(ref_type(a)),
    {
        erase_ref(self)
    }

    fn as_any_mut(&mut self) -> (a: AnyMut<'_>)
        ensures
            is_identity_of::<T>(mut_type(a)),
    {
        erase_mut(self)
    }

    fn as_any_box(self: Box<Self>) -> (a: AnyBox)
        ensures
            is_identity_of::<T>(box_type(a)),
    {
        erase_box(self)
    }
}

/// `a` is the box `x` as an opaque owned value: what `x.as_any_box()` gives.
pub open spec fn is_opaque_box_of<From: TraitcastFrom + ?Sized>(x: Box<From>, a: AnyBox) -> bool {
    call_ensures(From::as_any_box, (x,), a)
}

} // verus!
