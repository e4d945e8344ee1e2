//! Building a registry from registration steps that were contributed one by
//! one.
//!
//! Whoever declares an interface castable, or a concrete type as implementing
//! one, contributes an [`EntryBuilder`]. Once all are gathered,
//! [`build_registry`] runs each of them once, in their order, on an empty
//! registry.

use crate::entry::ImplEntry;
use crate::identity::identity_of;
use crate::registry::{Registry, Tables};
use crate::table::{describe, is_interface_key, lemma_describe_insert, table_of, CastIntoTrait};
use std::any::TypeId;
use vstd::prelude::*;

verus! {

/// The registry `before`, with `table` as the whole table under `key`.
pub open spec fn with_table(
    before: Tables,
    key: TypeId,
    table: Map<TypeId, (Seq<char>, Seq<char>)>,
) -> Tables {
    before.insert(key, table)
}

/// The registry `before`, with the entry of the concrete type `id`, named
/// `names`, put into the table under `key`: the table is made where there was
/// none, and an entry that it had for `id` is replaced.
pub open spec fn with_entry(
    before: Tables,
    key: TypeId,
    id: TypeId,
    names: (Seq<char>, Seq<char>),
) -> Tables {
    if before.contains_key(key) {
        before.insert(key, before[key].insert(id, names))
    } else {
        before.insert(key, Map::empty().insert(id, names))
    }
}

/// One step of building a registry.
pub(crate) trait Step: Sync {
    /// The step is ready to run.
    spec fn wf(&self) -> bool;

    /// What the step turns a registry into.
    spec fn effect(&self, before: Tables) -> Tables;

    fn run(&self, master: &mut Registry)
        requires
            self.wf(),
        ensures
            final(master)@ == self.effect(old(master)@),
    ;
}

/// The step that sets the whole table of `To` from gathered entries.
#[verifier::reject_recursive_types(To)]
pub(crate) struct CollectingEntries<To: ?Sized + 'static> {
    pub(crate) key: TypeId,
    pub(crate) entries: Vec<ImplEntry<To>>,
}

impl<To: ?Sized + 'static> Step for CollectingEntries<To> {
    open spec fn wf(&self) -> bool {
        is_interface_key::<To>(self.key)
    }

    open spec fn effect(&self, before: Tables) -> Tables {
        with_table(before, self.key, describe(table_of(self.entries@)))
    }

    fn run(&self, master: &mut Registry) {
        master.insert(CastIntoTrait::from_iter(self.entries.clone()));
    }
}

/// The step that adds one entry to the table of `To`.
#[verifier::reject_recursive_types(To)]
pub(crate) struct InsertingEntry<To: ?Sized + 'static> {
    pub(crate) key: TypeId,
    pub(crate) entry: ImplEntry<To>,
}

impl<To: ?Sized + 'static> Step for InsertingEntry<To> {
    open spec fn wf(&self) -> bool {
        is_interface_key::<To>(self.key)
    }

    open spec fn effect(&self, before: Tables) -> Tables {
        with_entry(before, self.key, self.entry.source(), self.entry.names())
    }

    fn run(&self, master: &mut Registry) {
        let mut table = match master.remove::<To>() {
            Some(table) => table,
            None => CastIntoTrait::new(),
        };
        proof {
            lemma_describe_insert(table@, self.entry);
        }
        table.insert(self.entry.clone());
        master.insert(table);
    }
}

/// A registration step: it describes how one declaration enters itself into
/// a registry.
pub struct EntryBuilder {
    step: Box<dyn Step>,
}

impl EntryBuilder {
    /// The step is ready to run.
    #[verifier::type_invariant]
    pub closed spec fn wf(&self) -> bool {
        self.step.wf()
    }

    /// What the step turns a registry into.
    pub closed spec fn effect(&self, before: Tables) -> Tables {
        self.step.effect(before)
    }

    /// The step of an interface declaration: it sets the table of `To` to the
    /// one that `entries` build. If the table of `To` exists already, it is
    /// replaced.
    pub fn collecting_entries<To: ?Sized + 'static>(entries: Vec<ImplEntry<To>>) -> (builder:
        EntryBuilder)
        ensures
            exists|key: TypeId|
                is_interface_key::<To>(key) && forall|before: Tables|
                    #[trigger] builder.effect(before) == with_table(
                        before,
                        key,
                        describe(table_of(entries@)),
                    ),
    {
        let key = identity_of::<CastIntoTrait<To>>();
        let step: CollectingEntries<To> = CollectingEntries { key, entries };
        let builder = EntryBuilder { step: Box::new(step) };
        proof {
            assert forall|before: Tables| #[trigger]
                builder.effect(before) == with_table(before, key, describe(table_of(entries@))) by {}
        }
        builder
    }

    /// The step of an implementation declaration: it puts `entry` into the
    /// table of `To`. If that table does not exist yet, it is made; an entry
    /// that it already has for the same concrete type is replaced.
    pub fn inserting_entry<To: ?Sized + 'static>(entry: ImplEntry<To>) -> (builder: EntryBuilder)
        ensures
            exists|key: TypeId|
                is_interface_key::<To>(key) && forall|before: Tables|
                    #[trigger] builder.effect(before) == with_entry(
                        before,
                        key,
                        entry.source(),
                        entry.names(),
                    ),
    {
        let key = identity_of::<CastIntoTrait<To>>();
        let step: InsertingEntry<To> = InsertingEntry { key, entry };
        let builder = EntryBuilder { step: Box::new(step) };
        proof {
            assert forall|before: Tables| #[trigger]
                builder.effect(before) == with_entry(before, key, entry.source(), entry.names()) by {}
        }
        builder
    }

    /// Runs the step on `master`.
    pub fn insert(&self, master: &mut Registry)
        ensures
            final(master)@ == self.effect(old(master)@),
    {
        proof {
            use_type_invariant(self);
        }
        self.step.run(master)
    }
}

/// The registry after the steps `builders[0]`, ..., `builders[n - 1]`, run in
/// this order on the registry `start`.
pub open spec fn run_all(builders: Seq<&EntryBuilder>, start: Tables) -> Tables
    decreases builders.len(),
{
    if builders.len() == 0 {
        start
    } else {
        builders.last().effect(run_all(builders.drop_last(), start))
    }
}

/// Makes a registry from the gathered steps: each runs exactly once, in the
/// order given, starting from the empty registry.
pub fn build_registry(builders: &Vec<&EntryBuilder>) -> (reg: Registry)
    ensures
        reg@ == run_all(builders@, Map::empty()),
{
    let mut reg = Registry::new();
    let mut i: usize = 0;
    while i < builders.len()
        invariant
            i <= builders.len(),
            reg@ == run_all(builders@.take(i as int), Map::empty()),
        decreases builders.len() - i,
    {
        proof {
            assert(builders@.take(i + 1).drop_last() == builders@.take(i as int));
        }
        builders[i].insert(&mut reg);
        i += 1;
    }
    proof {
        assert(builders@.take(i as int) == builders@);
    }
    reg
}

} // verus!
