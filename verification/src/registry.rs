//! The registry: for each interface declared castable, its table.
//!
//! The tables live in an `anymap::Map`, which holds one value per type: the
//! table of the interface `To` is found under the type `CastIntoTrait<To>`.
//! The proofs see the registry as plain values: under the identity of each
//! interface, the identities of the concrete types in its table, each with
//! the names of its entry.

use crate::table::{is_interface_key, CastIntoTrait};
use std::any::TypeId;
use vstd::prelude::*;

verus! {

/// A registry defining how to cast into some set of interfaces.
#[verifier::external_body]
pub struct Registry {
    tables: anymap::Map<dyn anymap::any::Any + Sync>,
}

/// A registry as plain values: under the key of each declared interface, its
/// table as plain values.
pub type Tables = Map<TypeId, Map<TypeId, (Seq<char>, Seq<char>)>>;

/// What the `anymap::Map` of a registry holds: under the identity of each
/// table type that has a value, that table as plain values.
pub uninterp spec fn registry_view(registry: Registry) -> Map<
    TypeId,
    Map<TypeId, (Seq<char>, Seq<char>)>,
>;

/// Calls `anymap::Map::new`. The claim: the new map holds nothing.
#[verifier::external_body]
fn fresh() -> (registry: Registry)
    ensures
        registry_view(registry) == Tables::empty(),
{
    Registry { tables: anymap::Map::new() }
}

/// Calls `anymap::Map::insert`. The claim: afterwards the map holds `table`
/// under the identity of its type, in the place of what it held there, and
/// all else as before.
#[verifier::external_body]
fn put<To: ?Sized + 'static>(registry: &mut Registry, table: CastIntoTrait<To>)
    ensures
        forall|key: TypeId|
            is_interface_key::<To>(key) ==> registry_view(*final(registry)) == registry_view(
                *old(registry),
            ).insert(key, table.described()),
{
    registry.tables.insert(table);
}

/// Calls `anymap::Map::get`. The claim: it gives the table held under the
/// identity of the table type, if the map holds one there.
#[verifier::external_body]
fn get<To: ?Sized + 'static>(registry: &Registry) -> (found: Option<&CastIntoTrait<To>>)
    ensures
        forall|key: TypeId|
            is_interface_key::<To>(key) ==> {
                &&& found is Some <==> registry_view(*registry).contains_key(key)
                &&& found matches Some(table) ==> table.described() == registry_view(*registry)[key]
            },
{
    registry.tables.get::<CastIntoTrait<To>>()
}

/// Calls `anymap::Map::remove`. The claim: it takes out the table held under
/// the identity of the table type, if the map holds one there, and leaves
/// all else as before.
#[verifier::external_body]
fn take<To: ?Sized + 'static>(registry: &mut Registry) -> (taken: Option<CastIntoTrait<To>>)
    ensures
        forall|key: TypeId|
            is_interface_key::<To>(key) ==> {
                &&& taken is Some <==> registry_view(*old(registry)).contains_key(key)
                &&& taken matches Some(table) ==> table.described() == registry_view(*old(registry))[key]
                &&& registry_view(*final(registry)) == registry_view(*old(registry)).remove(key)
            },
{
    registry.tables.remove::<CastIntoTrait<To>>()
}

impl View for Registry {
    type V = Tables;

    /// Under the key of each declared interface, the identities of the
    /// concrete types registered as implementing it, each with the names of
    /// its entry.
    open spec fn view(&self) -> Tables {
        registry_view(*self)
    }
}

impl Registry {
    /// The interface `To` is declared castable: the registry has a table for
    /// it.
    pub open spec fn declares<To: ?Sized + 'static>(&self) -> bool {
        exists|key: TypeId| is_interface_key::<To>(key) && self@.contains_key(key)
    }

    /// The concrete type `id` is registered as implementing the interface
    /// `To`.
    pub open spec fn castable<To: ?Sized + 'static>(&self, id: TypeId) -> bool {
        exists|key: TypeId|
            is_interface_key::<To>(key) && self@.contains_key(key) && self@[key].contains_key(id)
    }

    /// Makes a new, empty registry.
    pub fn new() -> (registry: Registry)
        ensures
            registry@ == Tables::empty(),
    {
        fresh()
    }

    /// Sets the table defining how to cast into the interface `To`. A table
    /// that the registry already has for `To` is replaced.
    pub fn insert<To: ?Sized + 'static>(&mut self, table: CastIntoTrait<To>)
        ensures
            forall|key: TypeId|
                is_interface_key::<To>(key) ==> final(self)@ == old(self)@.insert(
                    key,
                    table.described(),
                ),
            final(self).declares::<To>(),
            forall|id: TypeId| final(self).castable::<To>(id) <==> table@.contains_key(id),
    {
        let ghost key = table.interface_key();
        proof {
            use_type_invariant(&table);
            table.lemma_key();
        }
        put(self, table);
        proof {
            assert(final(self)@.contains_key(key));
            assert forall|id: TypeId| final(self).castable::<To>(id) <==> table@.contains_key(
                id,
            ) by {
                if table@.contains_key(id) {
                    assert(final(self)@[key].contains_key(id));
                }
            }
        }
    }

    /// Gets the table defining how to cast into the interface `To`, if `To`
    /// is declared.
    pub fn cast_into<To: ?Sized + 'static>(&self) -> (found: Option<&CastIntoTrait<To>>)
        ensures
            found is Some <==> self.declares::<To>(),
            found matches Some(table) ==> forall|id: TypeId|
                table@.contains_key(id) <==> self.castable::<To>(id),
            forall|key: TypeId|
                is_interface_key::<To>(key) ==> {
                    &&& found is Some <==> self@.contains_key(key)
                    &&& found matches Some(table) ==> table.described() == self@[key]
                },
    {
        let found = get::<To>(self);
        proof {
            if let Some(table) = found {
                let key = table.interface_key();
                use_type_invariant(table);
                table.lemma_key();
                assert(self@.contains_key(key));
                assert forall|id: TypeId| table@.contains_key(id) <==> self.castable::<To>(
                    id,
                ) by {
                    if table@.contains_key(id) {
                        assert(self@[key].contains_key(id));
                    }
                }
            }
        }
        found
    }

    /// Takes the table of the interface `To` out of the registry, if `To` is
    /// declared.
    pub fn remove<To: ?Sized + 'static>(&mut self) -> (taken: Option<CastIntoTrait<To>>)
        ensures
            forall|key: TypeId|
                is_interface_key::<To>(key) ==> {
                    &&& taken is Some <==> old(self)@.contains_key(key)
                    &&& taken matches Some(table) ==> table.described() == old(self)@[key]
                    &&& final(self)@ == old(self)@.remove(key)
                },
    {
        take::<To>(self)
    }
}

} // verus!
