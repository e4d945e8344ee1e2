//! Conversion entries: how one concrete type is viewed as one interface.

use crate::identity::{identifies, identity_of};
use crate::opaque::{
    box_type, downcast_box, downcast_mut, downcast_ref, mut_type, ref_type, AnyBox, AnyMut, AnyRef,
};
use std::any::TypeId;
use std::marker::PhantomData;
use vstd::prelude::*;

verus! {

/// The concrete type `Self` implements the interface `To`: a value of it can
/// be viewed as a `To` in each of the three ownership modes.
///
/// For a trait object type `To = dyn I` and a type that implements `I`, each
/// method just returns `self`.
pub trait Implements<To: ?Sized>: Sized + Sync + 'static {
    /// `self` viewed as the interface, by reference.
    fn upcast_ref(&self) -> &To;

    /// `self` viewed as the interface, by mutable reference.
    fn upcast_mut(&mut self) -> &mut To;

    /// `self` viewed as the interface, owned.
    fn upcast_box(self: Box<Self>) -> Box<To>;
}

/// The three conversions of one concrete type into `To`, with the concrete
/// type forgotten.
pub(crate) trait Conversion<To: ?Sized>: Sync {
    /// `id` is an identity of the concrete type converted from.
    spec fn converts(&self, id: TypeId) -> bool;

    fn by_ref<'a>(&self, x: AnyRef<'a>, Ghost(id): Ghost<TypeId>) -> (r: Option<&'a To>)
        requires
            self.converts(id),
        ensures
            r is Some <==> ref_type(x) == id,
    ;

    fn by_mut<'a>(&self, x: AnyMut<'a>, Ghost(id): Ghost<TypeId>) -> (r: Option<&'a mut To>)
        requires
            self.converts(id),
        ensures
            r is Some <==> mut_type(x) == id,
    ;

    fn by_box(&self, x: AnyBox, Ghost(id): Ghost<TypeId>) -> (r: Result<Box<To>, AnyBox>)
        requires
            self.converts(id),
        ensures
            r is Ok <==> box_type(x) == id,
    ;
}

/// The conversions of the concrete type `T`: downcast to `T`, then view the
/// `T` as the interface.
pub(crate) struct Via<T> {
    pub(crate) marker: PhantomData<T>,
}

impl<To: ?Sized, T: Implements<To>> Conversion<To> for Via<T> {
    open spec fn converts(&self, id: TypeId) -> bool {
        identifies::<T>(id)
    }

    fn by_ref<'a>(&self, x: AnyRef<'a>, Ghost(id): Ghost<TypeId>) -> (r: Option<&'a To>) {
        match downcast_ref::<T>(x) {
            Some(value) => Some(value.upcast_ref()),
            None => None,
        }
    }

    fn by_mut<'a>(&self, x: AnyMut<'a>, Ghost(id): Ghost<TypeId>) -> (r: Option<&'a mut To>) {
        match downcast_mut::<T>(x) {
            Some(value) => Some(value.upcast_mut()),
            None => None,
        }
    }

    fn by_box(&self, x: AnyBox, Ghost(id): Ghost<TypeId>) -> (r: Result<Box<To>, AnyBox>) {
        match downcast_box::<T>(x) {
            Ok(value) => Ok(value.upcast_box()),
            Err(rejected) => Err(rejected),
        }
    }
}

/// An entry in the table of an interface `To`: the identity of one concrete
/// type, and the three conversions of that type into `To`.
#[verifier::reject_recursive_types(To)]
pub struct ImplEntry<To: ?Sized + 'static> {
    conversion: &'static dyn Conversion<To>,
    tid: TypeId,
    from_name: &'static str,
    into_name: &'static str,
}

impl<To: ?Sized + 'static> ImplEntry<To> {
    /// The three conversions agree on the concrete type: that of `source()`.
    #[verifier::type_invariant]
    pub closed spec fn wf(&self) -> bool {
        self.conversion.converts(self.tid)
    }

    /// The identity of the concrete type that this entry converts from.
    pub closed spec fn source(&self) -> TypeId {
        self.tid
    }

    /// The name given for the interface, for diagnostics.
    pub closed spec fn spec_from_name(&self) -> &'static str {
        self.from_name
    }

    /// The name given for the concrete type, for diagnostics.
    pub closed spec fn spec_into_name(&self) -> &'static str {
        self.into_name
    }

    /// The two names of the entry, as plain text: that of the interface, then
    /// that of the concrete type.
    pub open spec fn names(&self) -> (Seq<char>, Seq<char>) {
        (self.spec_from_name()@, self.spec_into_name()@)
    }

    /// The entry of the concrete type `T`.
    pub fn new<T: Implements<To>>(from_name: &'static str, into_name: &'static str) -> (entry: Self)
        ensures
            entry.wf(),
            identifies::<T>(entry.source()),
            entry.spec_from_name() == from_name,
            entry.spec_into_name() == into_name,
    {
        let tid = identity_of::<T>();
        let via: &'static Via<T> = &Via { marker: PhantomData };
        ImplEntry { conversion: via, tid, from_name, into_name }
    }

    /// The identity of the concrete type that this entry converts from.
    pub fn tid(&self) -> (id: TypeId)
        ensures
            id == self.source(),
    {
        self.tid
    }

    /// The name given for the interface, for diagnostics.
    pub fn from_name(&self) -> (name: &'static str)
        ensures
            name == self.spec_from_name(),
    {
        self.from_name
    }

    /// The name given for the concrete type, for diagnostics.
    pub fn into_name(&self) -> (name: &'static str)
        ensures
            name == self.spec_into_name(),
    {
        self.into_name
    }

    /// Views the value behind `x` as the interface: it succeeds exactly on a
    /// value of this entry's concrete type.
    pub fn cast_ref<'a>(&self, x: AnyRef<'a>) -> (r: Option<&'a To>)
        ensures
            r is Some <==> ref_type(x) == self.source(),
    {
        proof {
            use_type_invariant(self);
        }
        self.conversion.by_ref(x, Ghost(self.tid))
    }

    /// Views the value behind `x` as the interface, mutably: it succeeds
    /// exactly on a value of this entry's concrete type.
    pub fn cast_mut<'a>(&self, x: AnyMut<'a>) -> (r: Option<&'a mut To>)
        ensures
            r is Some <==> mut_type(x) == self.source(),
    {
        proof {
            use_type_invariant(self);
        }
        self.conversion.by_mut(x, Ghost(self.tid))
    }

    /// Turns the owned value `x` into the interface: it succeeds exactly on a
    /// value of this entry's concrete type.
    pub fn cast_box(&self, x: AnyBox) -> (r: Result<Box<To>, AnyBox>)
        ensures
            r is Ok <==> box_type(x) == self.source(),
    {
        proof {
            use_type_invariant(self);
        }
        self.conversion.by_box(x, Ghost(self.tid))
    }
}

impl<To: ?Sized + 'static> Copy for ImplEntry<To> {}

impl<To: ?Sized + 'static> Clone for ImplEntry<To> {
    /// The same entry again.
    fn clone(&self) -> (copy: Self)
        ensures
            copy == *self,
    {
        *self
    }
}

} // verus!
