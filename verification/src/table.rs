//! Interface tables: for one interface, the entry of each concrete type that
//! implements it.

use crate::entry::ImplEntry;
use crate::identity::{identifies, identity_of, same_type};
use crate::opaque::{
    box_type, is_opaque_box_of, mut_type, ref_type, AnyBox, AnyMut, AnyRef, TraitcastFrom,
};
use std::any::TypeId;
use vstd::prelude::*;

verus! {

/// The table that a sequence of entries builds when they are inserted one
/// after the other: of two entries of the same concrete type, the later one
/// stays.
pub open spec fn table_of<To: ?Sized + 'static>(entries: Seq<ImplEntry<To>>) -> Map<
    TypeId,
    ImplEntry<To>,
>
    decreases entries.len(),
{
    if entries.len() == 0 {
        Map::empty()
    } else {
        table_of(entries.drop_last()).insert(entries.last().source(), entries.last())
    }
}

/// A table as plain values: under the identity of each concrete type, the
/// two names of its entry.
pub open spec fn describe<To: ?Sized + 'static>(table: Map<TypeId, ImplEntry<To>>) -> Map<
    TypeId,
    (Seq<char>, Seq<char>),
> {
    Map::new(|id: TypeId| table.contains_key(id), |id: TypeId| table[id].names())
}

/// Describing a table with one more entry adds the names of that entry.
pub proof fn lemma_describe_insert<To: ?Sized + 'static>(
    table: Map<TypeId, ImplEntry<To>>,
    entry: ImplEntry<To>,
)
    ensures
        describe(table.insert(entry.source(), entry)) == describe(table).insert(
            entry.source(),
            entry.names(),
        ),
        describe(Map::<TypeId, ImplEntry<To>>::empty()) == Map::<
            TypeId,
            (Seq<char>, Seq<char>),
        >::empty(),
{
    assert(describe(table.insert(entry.source(), entry)) =~= describe(table).insert(
        entry.source(),
        entry.names(),
    ));
    assert(describe(Map::<TypeId, ImplEntry<To>>::empty()) =~= Map::<
        TypeId,
        (Seq<char>, Seq<char>),
    >::empty());
}

/// No two entries are of the same concrete type.
spec fn distinct_sources<To: ?Sized + 'static>(entries: Seq<ImplEntry<To>>) -> bool {
    forall|i: int, j: int|
        0 <= i < j < entries.len() ==> (#[trigger] entries[i]).source() != (
        #[trigger] entries[j]).source()
}

/// A key of the table is the concrete type of some entry of the sequence.
proof fn lemma_table_keys<To: ?Sized + 'static>(entries: Seq<ImplEntry<To>>, id: TypeId)
    ensures
        table_of(entries).contains_key(id) <==> exists|i: int|
            0 <= i < entries.len() && (#[trigger] entries[i]).source() == id,
        table_of(entries).contains_key(id) ==> table_of(entries)[id].source() == id,
    decreases entries.len(),
{
    if entries.len() > 0 {
        let front = entries.drop_last();
        lemma_table_keys(front, id);
        if table_of(entries).contains_key(id) {
            if entries.last().source() == id {
                assert(entries[entries.len() - 1].source() == id);
            } else {
                let i = choose|i: int|
                    0 <= i < front.len() && (#[trigger] front[i]).source() == id;
                assert(entries[i].source() == id);
            }
        }
        if exists|i: int| 0 <= i < entries.len() && (#[trigger] entries[i]).source() == id {
            let i = choose|i: int|
                0 <= i < entries.len() && (#[trigger] entries[i]).source() == id;
            if i < front.len() {
                assert(front[i].source() == id);
            }
        }
    }
}

/// Where no concrete type occurs twice, each entry is the one that the table
/// holds for its concrete type.
proof fn lemma_table_entry<To: ?Sized + 'static>(entries: Seq<ImplEntry<To>>, i: int)
    requires
        distinct_sources(entries),
        0 <= i < entries.len(),
    ensures
        table_of(entries).contains_key(entries[i].source()),
        table_of(entries)[entries[i].source()] == entries[i],
    decreases entries.len(),
{
    let front = entries.drop_last();
    if i < entries.len() - 1 {
        assert forall|a: int, b: int| 0 <= a < b < front.len() implies (#[trigger] front[a]).source()
            != (#[trigger] front[b]).source() by {
            assert(entries[a].source() != entries[b].source());
        }
        lemma_table_entry(front, i);
        assert(front[i] == entries[i]);
        assert(entries[i].source() != entries[entries.len() - 1].source());
    }
}

/// Where no concrete type occurs twice, putting an entry in the place of the
/// one of its own concrete type is inserting it.
proof fn lemma_table_update<To: ?Sized + 'static>(
    entries: Seq<ImplEntry<To>>,
    i: int,
    entry: ImplEntry<To>,
)
    requires
        distinct_sources(entries),
        0 <= i < entries.len(),
        entries[i].source() == entry.source(),
    ensures
        distinct_sources(entries.update(i, entry)),
        table_of(entries.update(i, entry)) == table_of(entries).insert(entry.source(), entry),
    decreases entries.len(),
{
    let updated = entries.update(i, entry);
    assert forall|a: int, b: int| 0 <= a < b < updated.len() implies (#[trigger] updated[a]).source()
        != (#[trigger] updated[b]).source() by {
        assert(entries[a].source() != entries[b].source());
    }
    let front = entries.drop_last();
    if i == entries.len() - 1 {
        assert(updated.drop_last() == front);
        assert(table_of(updated) == table_of(entries).insert(entry.source(), entry));
    } else {
        assert forall|a: int, b: int| 0 <= a < b < front.len() implies (#[trigger] front[a]).source()
            != (#[trigger] front[b]).source() by {
            assert(entries[a].source() != entries[b].source());
        }
        lemma_table_update(front, i, entry);
        assert(updated.drop_last() == front.update(i, entry));
        assert(updated.last() == entries.last());
        assert(entries[i].source() != entries[entries.len() - 1].source());
        assert(table_of(updated) == table_of(entries).insert(entry.source(), entry));
    }
}

/// Where in `entries` the entry of the concrete type `id` stands, if anywhere.
fn position<To: ?Sized + 'static>(entries: &Vec<ImplEntry<To>>, id: &TypeId) -> (at: Option<usize>)
    ensures
        match at {
            Some(i) => i < entries.len() && entries@[i as int].source() == *id,
            None => forall|k: int|
                0 <= k < entries.len() ==> (#[trigger] entries@[k]).source() != *id,
        },
{
    let mut i: usize = 0;
    while i < entries.len()
        invariant
            i <= entries.len(),
            forall|k: int| 0 <= k < i ==> (#[trigger] entries@[k]).source() != *id,
        decreases entries.len() - i,
    {
        let tid = entries[i].tid();
        if same_type(&tid, id) {
            return Some(i);
        }
        i += 1;
    }
    None
}

/// The table of the interface `To`: how to cast into `To` from each concrete
/// type that implements it.
#[verifier::reject_recursive_types(To)]
pub struct CastIntoTrait<To: ?Sized + 'static> {
    entries: Vec<ImplEntry<To>>,
    key: TypeId,
}

/// `key` is an identity of the interface `To`, as a registry keeps it: an
/// identity of the type of the tables of `To`.
pub open spec fn is_interface_key<To: ?Sized + 'static>(key: TypeId) -> bool {
    identifies::<CastIntoTrait<To>>(key)
}

impl<To: ?Sized + 'static> View for CastIntoTrait<To> {
    type V = Map<TypeId, ImplEntry<To>>;

    /// The entry of each concrete type, by the identity of that type.
    closed spec fn view(&self) -> Map<TypeId, ImplEntry<To>> {
        table_of(self.entries@)
    }
}

impl<To: ?Sized + 'static> CastIntoTrait<To> {
    /// At most one entry per concrete type, and the key is one of the
    /// interface.
    #[verifier::type_invariant]
    pub closed spec fn wf(&self) -> bool {
        &&& distinct_sources(self.entries@)
        &&& is_interface_key::<To>(self.key)
    }

    /// The identity of the interface, as a registry keeps it.
    pub closed spec fn interface_key(&self) -> TypeId {
        self.key
    }

    /// The table as plain values: under the identity of each concrete type
    /// that implements the interface, the two names of its entry.
    pub open spec fn described(&self) -> Map<TypeId, (Seq<char>, Seq<char>)> {
        describe(self@)
    }

    /// The key of a well-formed table is one of its interface.
    pub proof fn lemma_key(&self)
        requires
            self.wf(),
        ensures
            is_interface_key::<To>(self.interface_key()),
    {
    }

    /// A table without entries.
    pub fn new() -> (table: Self)
        ensures
            table@ == Map::<TypeId, ImplEntry<To>>::empty(),
            is_interface_key::<To>(table.interface_key()),
    {
        CastIntoTrait { entries: Vec::new(), key: identity_of::<CastIntoTrait<To>>() }
    }

    /// The identity of the interface, as a registry keeps it.
    pub fn key(&self) -> (key: TypeId)
        ensures
            key == self.interface_key(),
            is_interface_key::<To>(key),
    {
        proof {
            use_type_invariant(self);
        }
        self.key
    }

    /// The number of concrete types in the table.
    pub fn len(&self) -> (n: usize)
        ensures
            n == self@.len(),
            self@.dom().finite(),
    {
        proof {
            use_type_invariant(self);
            lemma_table_len(self.entries@);
        }
        self.entries.len()
    }

    /// The entry of the concrete type `id`, if the table has one.
    pub fn lookup(&self, id: &TypeId) -> (found: Option<&ImplEntry<To>>)
        ensures
            found is Some <==> self@.contains_key(*id),
            found matches Some(entry) ==> *entry == self@[*id] && entry.source() == *id,
    {
        proof {
            use_type_invariant(self);
            lemma_table_keys(self.entries@, *id);
        }
        match position(&self.entries, id) {
            Some(i) => {
                proof {
                    lemma_table_entry(self.entries@, i as int);
                }
                Some(&self.entries[i])
            },
            None => None,
        }
    }

    /// Puts `entry` into the table. An entry that the table already has for
    /// the same concrete type is replaced.
    pub fn insert(&mut self, entry: ImplEntry<To>)
        ensures
            final(self)@ == old(self)@.insert(entry.source(), entry),
            final(self).interface_key() == old(self).interface_key(),
    {
        proof {
            use_type_invariant(&*self);
        }
        let tid = entry.tid();
        let mut entries: Vec<ImplEntry<To>> = Vec::new();
        std::mem::swap(&mut self.entries, &mut entries);
        match position(&entries, &tid) {
            Some(i) => {
                proof {
                    lemma_table_update(entries@, i as int, entry);
                }
                entries[i] = entry;
            },
            None => {
                proof {
                    let pushed = entries@.push(entry);
                    assert(pushed.drop_last() == entries@);
                    assert forall|a: int, b: int| 0 <= a < b < pushed.len() implies (
                    #[trigger] pushed[a]).source() != (#[trigger] pushed[b]).source() by {
                        if b < entries@.len() {
                            assert(entries@[a].source() != entries@[b].source());
                        } else {
                            assert(entries@[a].source() != tid);
                        }
                    }
                }
                entries.push(entry);
            },
        }
        self.entries = entries;
    }

    /// The table that the entries build when inserted in their order: of two
    /// entries of the same concrete type, the later one stays.
    pub fn from_iter(entries: Vec<ImplEntry<To>>) -> (table: Self)
        ensures
            table@ == table_of(entries@),
            is_interface_key::<To>(table.interface_key()),
    {
        let mut table = CastIntoTrait::new();
        let mut i: usize = 0;
        while i < entries.len()
            invariant
                i <= entries.len(),
                table@ == table_of(entries@.take(i as int)),
                is_interface_key::<To>(table.interface_key()),
            decreases entries.len() - i,
        {
            proof {
                assert(entries@.take(i + 1).drop_last() == entries@.take(i as int));
            }
            table.insert(entries[i]);
            i += 1;
        }
        proof {
            assert(entries@.take(i as int) == entries@);
        }
        table
    }

    /// Casts the opaque reference `x` into the interface. It succeeds exactly
    /// when the table has an entry for the concrete type behind `x`.
    pub fn from_any_ref<'a>(&self, x: AnyRef<'a>) -> (r: Option<&'a To>)
        ensures
            r is Some <==> self@.contains_key(ref_type(x)),
    {
        let tid = x.dynamic_type();
        match self.lookup(&tid) {
            Some(entry) => entry.cast_ref(x),
            None => None,
        }
    }

    /// Casts the opaque mutable reference `x` into the interface. It succeeds
    /// exactly when the table has an entry for the concrete type behind `x`.
    pub fn from_any_mut<'a>(&self, x: AnyMut<'a>) -> (r: Option<&'a mut To>)
        ensures
            r is Some <==> self@.contains_key(mut_type(x)),
    {
        let tid = x.dynamic_type();
        match self.lookup(&tid) {
            Some(entry) => entry.cast_mut(x),
            None => None,
        }
    }

    /// Casts the opaque owned value `x` into the interface. It succeeds
    /// exactly when the table has an entry for the concrete type of `x`;
    /// otherwise `x` itself comes back.
    pub fn from_any_box(&self, x: AnyBox) -> (r: Result<Box<To>, AnyBox>)
        ensures
            r is Ok <==> self@.contains_key(box_type(x)),
            r matches Err(rejected) ==> rejected == x,
    {
        let tid = x.dynamic_type();
        match self.lookup(&tid) {
            Some(entry) => entry.cast_box(x),
            None => Err(x),
        }
    }

    /// Tries to cast the reference into the interface. It succeeds exactly
    /// when the table has an entry for the concrete type of `x`.
    pub fn from_ref<'a, From: TraitcastFrom + ?Sized>(&self, x: &'a From) -> (r: Option<&'a To>)
        ensures
            r is Some <==> self@.contains_key(x.concrete_id()),
    {
        self.from_any_ref(x.as_any_ref())
    }

    /// Tries to cast the mutable reference into the interface. It succeeds
    /// exactly when the table has an entry for the concrete type of `x`.
    pub fn from_mut<'a, From: TraitcastFrom + ?Sized>(&self, x: &'a mut From) -> (r: Option<
        &'a mut To,
    >)
        ensures
            r is Some <==> self@.contains_key((*old(x)).concrete_id()),
    {
        self.from_any_mut(x.as_any_mut())
    }

    /// Tries to cast the box into the interface. It succeeds exactly when the
    /// table has an entry for the concrete type of `x`; otherwise `x` comes
    /// back, as an opaque value.
    pub fn from_box<From: TraitcastFrom + ?Sized>(&self, x: Box<From>) -> (r: Result<
        Box<To>,
        AnyBox,
    >)
        ensures
            r is Ok <==> self@.contains_key((*x).concrete_id()),
            r matches Err(rejected) ==> is_opaque_box_of(x, rejected),
            r matches Err(rejected) ==> box_type(rejected) == (*x).concrete_id(),
    {
        self.from_any_box(x.as_any_box())
    }
}

/// A table has as many keys as a sequence without repeated concrete types has
/// entries.
proof fn lemma_table_len<To: ?Sized + 'static>(entries: Seq<ImplEntry<To>>)
    requires
        distinct_sources(entries),
    ensures
        table_of(entries).dom().finite(),
        table_of(entries).len() == entries.len(),
    decreases entries.len(),
{
    if entries.len() > 0 {
        let front = entries.drop_last();
        assert forall|a: int, b: int| 0 <= a < b < front.len() implies (#[trigger] front[a]).source()
            != (#[trigger] front[b]).source() by {
            assert(entries[a].source() != entries[b].source());
        }
        lemma_table_len(front);
        lemma_table_keys(front, entries.last().source());
        if table_of(front).contains_key(entries.last().source()) {
            let i = choose|i: int|
                0 <= i < front.len() && (#[trigger] front[i]).source() == entries.last().source();
            assert(entries[i].source() != entries[entries.len() - 1].source());
        }
    }
}

} // verus!
