use std::any::TypeId;
use traitcast::identity::identity_of;
use traitcast::{AnyBox, CastIntoTrait, ImplEntry, Implements, TraitcastFrom};

trait Shape: TraitcastFrom {
    fn area(&self) -> u64;
    fn grow(&mut self);
}

struct Square {
    side: u64,
}

struct Rect {
    w: u64,
    h: u64,
}

struct Dot;

impl Shape for Square {
    fn area(&self) -> u64 {
        self.side * self.side
    }
    fn grow(&mut self) {
        self.side += 1;
    }
}

impl Shape for Rect {
    fn area(&self) -> u64 {
        self.w * self.h
    }
    fn grow(&mut self) {
        self.w += 1;
        self.h += 1;
    }
}

impl Implements<dyn Shape> for Square {
    fn upcast_ref(&self) -> &(dyn Shape + 'static) {
        self
    }
    fn upcast_mut(&mut self) -> &mut (dyn Shape + 'static) {
        self
    }
    fn upcast_box(self: Box<Self>) -> Box<dyn Shape> {
        self
    }
}

impl Implements<dyn Shape> for Rect {
    fn upcast_ref(&self) -> &(dyn Shape + 'static) {
        self
    }
    fn upcast_mut(&mut self) -> &mut (dyn Shape + 'static) {
        self
    }
    fn upcast_box(self: Box<Self>) -> Box<dyn Shape> {
        self
    }
}

impl Implements<Square> for Square {
    fn upcast_ref(&self) -> &Square {
        self
    }
    fn upcast_mut(&mut self) -> &mut Square {
        self
    }
    fn upcast_box(self: Box<Self>) -> Box<Square> {
        self
    }
}

fn square_entry() -> ImplEntry<dyn Shape> {
    ImplEntry::new::<Square>("dyn Shape", "Square")
}

fn rect_entry() -> ImplEntry<dyn Shape> {
    ImplEntry::new::<Rect>("dyn Shape", "Rect")
}

#[test]
fn an_entry_knows_its_concrete_type_and_names() {
    let entry = square_entry();
    assert_eq!(entry.tid(), TypeId::of::<Square>());
    assert_ne!(entry.tid(), TypeId::of::<Rect>());
    assert_ne!(entry.tid(), TypeId::of::<dyn Shape>());
    assert_eq!(entry.from_name(), "dyn Shape");
    assert_eq!(entry.into_name(), "Square");
    assert_eq!(rect_entry().tid(), TypeId::of::<Rect>());
    assert_eq!(rect_entry().into_name(), "Rect");
}

#[test]
fn the_three_conversions_of_an_entry_agree_on_the_concrete_type() {
    let entry = square_entry();
    let mut square = Square { side: 3 };
    let mut rect = Rect { w: 2, h: 5 };
    let mut dot = Dot;

    assert_eq!(entry.cast_ref(square.as_any_ref()).map(|s| s.area()), Some(9));
    assert!(entry.cast_ref(rect.as_any_ref()).is_none());
    assert!(entry.cast_ref(dot.as_any_ref()).is_none());

    {
        let shape = entry.cast_mut(square.as_any_mut()).unwrap();
        shape.grow();
        assert_eq!(shape.area(), 16);
    }
    assert_eq!(square.side, 4);
    assert!(entry.cast_mut(rect.as_any_mut()).is_none());
    assert!(entry.cast_mut(dot.as_any_mut()).is_none());

    let shape = entry.cast_box(Box::new(square).as_any_box()).unwrap();
    assert_eq!(shape.area(), 16);
    assert!(entry.cast_box(Box::new(rect).as_any_box()).is_err());
    assert!(entry.cast_box(Box::new(dot).as_any_box()).is_err());
}

#[test]
fn an_entry_that_declines_an_owned_value_gives_it_back() {
    let rejected: AnyBox =
        square_entry().cast_box(Box::new(Rect { w: 2, h: 5 }).as_any_box()).err().unwrap();
    let shape = rect_entry().cast_box(rejected).unwrap();
    assert_eq!(shape.area(), 10);
}

#[test]
fn a_copy_of_an_entry_converts_the_same_type() {
    let entry = square_entry();
    let copy = entry.clone();
    assert_eq!(copy.tid(), entry.tid());
    assert_eq!(copy.from_name(), "dyn Shape");
    assert_eq!(copy.into_name(), "Square");
    let square = Square { side: 2 };
    assert_eq!(copy.cast_ref(square.as_any_ref()).unwrap().area(), 4);
    assert_eq!(entry.cast_ref(square.as_any_ref()).unwrap().area(), 4);
    assert!(copy.cast_ref(Dot.as_any_ref()).is_none());
}

#[test]
fn a_new_table_is_empty() {
    let table: CastIntoTrait<dyn Shape> = CastIntoTrait::new();
    assert_eq!(table.len(), 0);
    assert!(table.lookup(&TypeId::of::<Square>()).is_none());
    assert!(table.from_ref(&Square { side: 1 }).is_none());
    assert!(table.from_mut(&mut Square { side: 1 }).is_none());
    assert!(table.from_box(Box::new(Square { side: 1 })).is_err());
}

#[test]
fn a_table_is_keyed_by_its_interface() {
    let shapes: CastIntoTrait<dyn Shape> = CastIntoTrait::new();
    let squares: CastIntoTrait<Square> = CastIntoTrait::new();
    assert_eq!(shapes.key(), TypeId::of::<CastIntoTrait<dyn Shape>>());
    assert_eq!(squares.key(), TypeId::of::<CastIntoTrait<Square>>());
    assert_ne!(shapes.key(), squares.key());
    assert_eq!(shapes.key(), identity_of::<CastIntoTrait<dyn Shape>>());
    let filled = CastIntoTrait::from_iter(vec![square_entry()]);
    assert_eq!(filled.key(), shapes.key());
}

#[test]
fn inserting_adds_an_entry_per_concrete_type() {
    let mut table = CastIntoTrait::new();
    table.insert(square_entry());
    assert_eq!(table.len(), 1);
    assert_eq!(table.lookup(&TypeId::of::<Square>()).unwrap().into_name(), "Square");
    assert!(table.lookup(&TypeId::of::<Rect>()).is_none());

    table.insert(rect_entry());
    assert_eq!(table.len(), 2);
    assert_eq!(table.lookup(&TypeId::of::<Square>()).unwrap().into_name(), "Square");
    assert_eq!(table.lookup(&TypeId::of::<Rect>()).unwrap().into_name(), "Rect");
    assert_eq!(table.lookup(&TypeId::of::<Rect>()).unwrap().tid(), TypeId::of::<Rect>());
    assert!(table.lookup(&TypeId::of::<Dot>()).is_none());
}

#[test]
fn inserting_a_second_entry_of_a_type_replaces_the_first() {
    let mut table = CastIntoTrait::new();
    table.insert(ImplEntry::<dyn Shape>::new::<Square>("first", "Square"));
    table.insert(rect_entry());
    table.insert(ImplEntry::<dyn Shape>::new::<Square>("second", "Square"));
    assert_eq!(table.len(), 2);
    assert_eq!(table.lookup(&TypeId::of::<Square>()).unwrap().from_name(), "second");
    assert_eq!(table.lookup(&TypeId::of::<Rect>()).unwrap().from_name(), "dyn Shape");
    table.insert(ImplEntry::<dyn Shape>::new::<Rect>("third", "Rect"));
    assert_eq!(table.len(), 2);
    assert_eq!(table.lookup(&TypeId::of::<Rect>()).unwrap().from_name(), "third");
    assert_eq!(table.lookup(&TypeId::of::<Square>()).unwrap().from_name(), "second");
}

#[test]
fn a_table_from_entries_keeps_the_later_of_two() {
    let table = CastIntoTrait::from_iter(vec![
        ImplEntry::<dyn Shape>::new::<Square>("first", "Square"),
        rect_entry(),
        ImplEntry::<dyn Shape>::new::<Square>("second", "Square"),
    ]);
    assert_eq!(table.len(), 2);
    assert_eq!(table.lookup(&TypeId::of::<Square>()).unwrap().from_name(), "second");
    assert_eq!(table.lookup(&TypeId::of::<Rect>()).unwrap().into_name(), "Rect");

    let none: CastIntoTrait<dyn Shape> = CastIntoTrait::from_iter(Vec::new());
    assert_eq!(none.len(), 0);
}

#[test]
fn a_table_casts_opaque_values_of_its_types() {
    let table = CastIntoTrait::from_iter(vec![square_entry(), rect_entry()]);
    let mut square = Square { side: 3 };
    let mut rect = Rect { w: 2, h: 5 };
    let mut dot = Dot;

    assert_eq!(table.from_any_ref(square.as_any_ref()).unwrap().area(), 9);
    assert_eq!(table.from_any_ref(rect.as_any_ref()).unwrap().area(), 10);
    assert!(table.from_any_ref(dot.as_any_ref()).is_none());

    table.from_any_mut(square.as_any_mut()).unwrap().grow();
    table.from_any_mut(rect.as_any_mut()).unwrap().grow();
    assert!(table.from_any_mut(dot.as_any_mut()).is_none());
    assert_eq!(square.side, 4);
    assert_eq!((rect.w, rect.h), (3, 6));

    assert_eq!(table.from_any_box(Box::new(square).as_any_box()).unwrap().area(), 16);
    assert_eq!(table.from_any_box(Box::new(rect).as_any_box()).unwrap().area(), 18);
    assert!(table.from_any_box(Box::new(dot).as_any_box()).is_err());
}

#[test]
fn a_table_casts_values_by_their_concrete_type() {
    let table = CastIntoTrait::from_iter(vec![square_entry()]);
    let mut square = Square { side: 3 };
    let mut rect = Rect { w: 2, h: 5 };

    assert_eq!(table.from_ref(&square).unwrap().area(), 9);
    assert!(table.from_ref(&rect).is_none());

    table.from_mut(&mut square).unwrap().grow();
    assert_eq!(square.side, 4);
    assert!(table.from_mut(&mut rect).is_none());

    let as_shape: Box<dyn Shape> = Box::new(Square { side: 6 });
    assert_eq!(table.from_ref(&*as_shape).unwrap().area(), 36);
    assert_eq!(table.from_box(as_shape).unwrap().area(), 36);
    assert_eq!(table.from_box(Box::new(square)).unwrap().area(), 16);
}

#[test]
fn a_table_gives_back_the_owned_value_it_cannot_cast() {
    let squares = CastIntoTrait::from_iter(vec![square_entry()]);
    let rects = CastIntoTrait::from_iter(vec![rect_entry()]);

    let rejected = squares.from_box(Box::new(Rect { w: 4, h: 5 })).err().unwrap();
    let rejected = squares.from_any_box(rejected).err().unwrap();
    let shape = rects.from_any_box(rejected).unwrap();
    assert_eq!(shape.area(), 20);

    let as_shape: Box<dyn Shape> = Box::new(Square { side: 7 });
    let rejected = rects.from_box(as_shape).err().unwrap();
    let own: CastIntoTrait<Square> =
        CastIntoTrait::from_iter(vec![ImplEntry::new::<Square>("Square", "Square")]);
    assert_eq!(own.from_any_box(rejected).unwrap().side, 7);
}
