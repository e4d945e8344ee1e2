//! What holds of casting, whatever is registered.

use crate::entry::{ImplEntry, Implements};
use crate::identity::is_identity_of;
use crate::inventory::{with_entry, with_table};
use crate::opaque::TraitcastFrom;
use crate::registry::{Registry, Tables};
use crate::table::{is_interface_key, table_of, CastIntoTrait};
use std::any::TypeId;
use vstd::prelude::*;

verus! {

/// The concrete identity of a value of a sized type is the identity of the
/// type: the same for every value of it, however the value is held.
pub proof fn law_identity_of_value<T: Sized + 'static>(x: &T, y: &T, id: TypeId)
    requires
        is_identity_of::<T>(id),
    ensures
        x.concrete_id() == id,
        x.concrete_id() == y.concrete_id(),
{
}

/// Once the entry of the concrete type `T` is in a table, the table has an
/// entry for every value of `T`; so the cast of such a value into the
/// interface succeeds, by reference, by mutable reference and owned.
pub proof fn law_registered_type_is_cast<T: Implements<To>, To: ?Sized + 'static>(
    table: Map<TypeId, ImplEntry<To>>,
    entry: ImplEntry<To>,
    x: &T,
)
    requires
        is_identity_of::<T>(entry.source()),
    ensures
        table.insert(entry.source(), entry).contains_key(x.concrete_id()),
{
}

/// Once the concrete type `T` is entered into a registry for the interface
/// `To`, `To` is declared, and every value of `T` is castable into `To`.
pub proof fn law_inserted_type_is_castable<T: Sized + 'static, To: ?Sized + 'static>(
    before: Registry,
    after: Registry,
    key: TypeId,
    id: TypeId,
    names: (Seq<char>, Seq<char>),
    x: &T,
)
    requires
        is_interface_key::<To>(key),
        is_identity_of::<T>(id),
        after@ == with_entry(before@, key, id, names),
    ensures
        after.declares::<To>(),
        after.castable::<To>(x.concrete_id()),
{
    assert(after@.contains_key(key));
    assert(after@[key].contains_key(id));
}

/// Casting looks at a value only for its concrete type: a view of a value
/// that keeps the concrete identity of the value is castable into exactly the
/// interfaces that the value itself is castable into.
pub proof fn law_views_of_one_value_cast_alike<
    From: TraitcastFrom + ?Sized,
    View: TraitcastFrom + ?Sized,
    To: ?Sized + 'static,
>(registry: Registry, table: CastIntoTrait<To>, x: &From, view: &View)
    requires
        view.concrete_id() == x.concrete_id(),
    ensures
        registry.castable::<To>(view.concrete_id()) <==> registry.castable::<To>(x.concrete_id()),
        table@.contains_key(view.concrete_id()) <==> table@.contains_key(x.concrete_id()),
{
}

/// An interface that is declared, but whose table is empty, is cast into by
/// no concrete type: the lookup is empty, and the interface stays declared.
pub proof fn law_declared_without_implementers<To: ?Sized + 'static>(
    before: Registry,
    after: Registry,
    key: TypeId,
    id: TypeId,
)
    requires
        is_identity_of::<CastIntoTrait<To>>(key),
        after@ == with_table(before@, key, Map::empty()),
    ensures
        after.declares::<To>(),
        !after.castable::<To>(id),
{
    assert(is_interface_key::<To>(key));
    assert(after@.contains_key(key));
    assert forall|other: TypeId| is_interface_key::<To>(other) implies other == key by {}
}

/// Of two entries of one concrete type, put into a table one after the
/// other, the later one stays.
pub proof fn law_later_entry_wins<To: ?Sized + 'static>(
    entries: Seq<ImplEntry<To>>,
    earlier: ImplEntry<To>,
    later: ImplEntry<To>,
)
    requires
        earlier.source() == later.source(),
    ensures
        table_of(entries.push(earlier).push(later)) == table_of(entries.push(later)),
        table_of(entries.push(earlier).push(later))[later.source()] == later,
{
    let both = entries.push(earlier).push(later);
    assert(both.drop_last() == entries.push(earlier));
    assert(entries.push(earlier).drop_last() == entries);
    assert(entries.push(later).drop_last() == entries);
    assert(table_of(entries.push(earlier)) == table_of(entries).insert(earlier.source(), earlier));
    assert(table_of(both) == table_of(entries.push(earlier)).insert(later.source(), later));
    assert(table_of(entries.push(later)) == table_of(entries).insert(later.source(), later));
}

/// A table set for an interface replaces whatever the registry had for it.
pub proof fn law_later_table_wins(
    before: Tables,
    key: TypeId,
    id: TypeId,
    names: (Seq<char>, Seq<char>),
    earlier: Map<TypeId, (Seq<char>, Seq<char>)>,
    later: Map<TypeId, (Seq<char>, Seq<char>)>,
)
    ensures
        with_table(with_table(before, key, earlier), key, later) == with_table(before, key, later),
        with_table(with_entry(before, key, id, names), key, later) == with_table(
            before,
            key,
            later,
        ),
{
}

/// Of two entries of one concrete type, entered into a registry for one
/// interface one after the other, the later one stays.
pub proof fn law_later_registration_wins(
    before: Tables,
    key: TypeId,
    id: TypeId,
    earlier: (Seq<char>, Seq<char>),
    later: (Seq<char>, Seq<char>),
)
    ensures
        with_entry(with_entry(before, key, id, earlier), key, id, later) == with_entry(
            before,
            key,
            id,
            later,
        ),
{
    let once = with_entry(before, key, id, later);
    let twice = with_entry(with_entry(before, key, id, earlier), key, id, later);
    assert(twice[key] =~= once[key]);
    assert(twice =~= once);
}

/// Steps that concern different interfaces do not depend on each other's
/// order.
pub proof fn law_interfaces_build_independently(
    before: Tables,
    key_a: TypeId,
    key_b: TypeId,
    id_a: TypeId,
    id_b: TypeId,
    names_a: (Seq<char>, Seq<char>),
    names_b: (Seq<char>, Seq<char>),
    table_a: Map<TypeId, (Seq<char>, Seq<char>)>,
    table_b: Map<TypeId, (Seq<char>, Seq<char>)>,
)
    requires
        key_a != key_b,
    ensures
        with_entry(with_entry(before, key_a, id_a, names_a), key_b, id_b, names_b) == with_entry(
            with_entry(before, key_b, id_b, names_b),
            key_a,
            id_a,
            names_a,
        ),
        with_table(with_table(before, key_a, table_a), key_b, table_b) == with_table(
            with_table(before, key_b, table_b),
            key_a,
            table_a,
        ),
        with_entry(with_table(before, key_a, table_a), key_b, id_b, names_b) == with_table(
            with_entry(before, key_b, id_b, names_b),
            key_a,
            table_a,
        ),
{
}

/// The entries of different concrete types may be entered for one interface
/// in any order.
pub proof fn law_entries_in_any_order(
    before: Tables,
    key: TypeId,
    id_a: TypeId,
    id_b: TypeId,
    names_a: (Seq<char>, Seq<char>),
    names_b: (Seq<char>, Seq<char>),
)
    requires
        id_a != id_b,
    ensures
        with_entry(with_entry(before, key, id_a, names_a), key, id_b, names_b) == with_entry(
            with_entry(before, key, id_b, names_b),
            key,
            id_a,
            names_a,
        ),
{
    let ab = with_entry(with_entry(before, key, id_a, names_a), key, id_b, names_b);
    let ba = with_entry(with_entry(before, key, id_b, names_b), key, id_a, names_a);
    assert(ab[key] =~= ba[key]);
    assert(ab =~= ba);
}

} // verus!
