//! Casting between trait objects.
//!
//! A value whose concrete type is known only at run time can be viewed as any
//! interface that its concrete type was registered as implementing. A
//! [`Registry`] holds, for each interface declared castable, the table of the
//! concrete types that implement it; the functions here look a value's
//! concrete type up in the table of the target interface and convert.
//!
//! A concrete type is declared as implementing an interface by an
//! [`Implements`] impl for the pair and the [`ImplEntry`] made from it. The
//! entries reach a registry through [`EntryBuilder`] steps, which
//! [`build_registry`] runs; after that the registry is only read.

pub mod entry;
pub mod identity;
pub mod inventory;
pub mod laws;
pub mod opaque;
pub mod registry;
pub mod table;

pub use crate::entry::{ImplEntry, Implements};
pub use crate::inventory::{build_registry, EntryBuilder};
pub use crate::opaque::{AnyBox, AnyMut, AnyRef, TraitcastFrom};
pub use crate::registry::Registry;
pub use crate::table::CastIntoTrait;

use crate::opaque::{box_type, is_opaque_box_of};
use vstd::pervasive::unreached;
use vstd::prelude::*;

verus! {

/// Tests whether the given value is castable to the interface `To`: whether
/// its concrete type is registered as implementing `To`.
///
/// `To` must be declared castable in `registry`.
pub fn implements_trait<From, To>(registry: &Registry, x: &From) -> (r: bool) where
    From: TraitcastFrom + ?Sized,
    To: ?Sized + 'static,

    requires
        registry.declares::<To>(),
    ensures
        r == registry.castable::<To>(x.concrete_id()),
{
    cast_ref::<From, To>(registry, x).is_some()
}

/// Tries to cast the given box to the interface `To`. This gives `Err`, with
/// the value as an opaque one, exactly if its concrete type is not
/// registered as implementing `To`.
///
/// `To` must be declared castable in `registry`.
pub fn cast_box<From, To>(registry: &Registry, x: Box<From>) -> (r: Result<Box<To>, AnyBox>) where
    From: TraitcastFrom + ?Sized,
    To: ?Sized + 'static,

    requires
        registry.declares::<To>(),
    ensures
        r is Ok <==> registry.castable::<To>((*x).concrete_id()),
        r matches Err(rejected) ==> is_opaque_box_of(x, rejected),
        r matches Err(rejected) ==> box_type(rejected) == (*x).concrete_id(),
{
    match registry.cast_into::<To>() {
        Some(table) => table.from_box(x),
        None => unreached(),
    }
}

/// Tries to cast the given mutable reference to the interface `To`. This
/// gives `None` exactly if the concrete type of the value is not registered
/// as implementing `To`.
///
/// `To` must be declared castable in `registry`.
pub fn cast_mut<'a, From, To>(registry: &Registry, x: &'a mut From) -> (r: Option<&'a mut To>) where
    From: TraitcastFrom + ?Sized,
    To: ?Sized + 'static,

    requires
        registry.declares::<To>(),
    ensures
        r is Some <==> registry.castable::<To>((*old(x)).concrete_id()),
{
    match registry.cast_into::<To>() {
        Some(table) => table.from_mut(x),
        None => unreached(),
    }
}

/// Tries to cast the given reference to the interface `To`. This gives `None`
/// exactly if the concrete type of the value is not registered as
/// implementing `To`.
///
/// `To` must be declared castable in `registry`.
pub fn cast_ref<'a, From, To>(registry: &Registry, x: &'a From) -> (r: Option<&'a To>) where
    From: TraitcastFrom + ?Sized,
    To: ?Sized + 'static,

    requires
        registry.declares::<To>(),
    ensures
        r is Some <==> registry.castable::<To>(x.concrete_id()),
{
    match registry.cast_into::<To>() {
        Some(table) => table.from_ref(x),
        None => unreached(),
    }
}

/// Adds the casts as methods to every value that can present itself as an
/// opaque dynamic value.
pub trait Traitcast<To: ?Sized + 'static>: TraitcastFrom {
    /// [`cast_ref`] as a method.
    fn cast_ref(&self, registry: &Registry) -> (r: Option<&To>)
        requires
            registry.declares::<To>(),
        ensures
            r is Some <==> registry.castable::<To>(self.concrete_id()),
    ;

    /// [`cast_mut`] as a method.
    fn cast_mut(&mut self, registry: &Registry) -> (r: Option<&mut To>)
        requires
            registry.declares::<To>(),
        ensures
            r is Some <==> registry.castable::<To>((*old(self)).concrete_id()),
    ;

    /// [`cast_box`] as a method.
    fn cast_box(self: Box<Self>, registry: &Registry) -> (r: Result<Box<To>, AnyBox>)
        requires
            registry.declares::<To>(),
        ensures
            r is Ok <==> registry.castable::<To>((*self).concrete_id()),
            r matches Err(rejected) ==> is_opaque_box_of(self, rejected),
            r matches Err(rejected) ==> box_type(rejected) == (*self).concrete_id(),
    ;
}

impl<From, To> Traitcast<To> for From where From: TraitcastFrom + ?Sized, To: ?Sized + 'static {
    fn cast_ref(&self, registry: &Registry) -> (r: Option<&To>) {
        cast_ref(registry, self)
    }

    fn cast_mut(&mut self, registry: &Registry) -> (r: Option<&mut To>) {
        cast_mut(registry, self)
    }

    fn cast_box(self: Box<Self>, registry: &Registry) -> (r: Result<Box<To>, AnyBox>) {
        cast_box(registry, self)
    }
}

} // verus!
