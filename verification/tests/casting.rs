use traitcast::{
    build_registry, cast_box, cast_mut, cast_ref, EntryBuilder, ImplEntry, Implements, Registry,
    Traitcast, TraitcastFrom,
};

/// The root capability: any value, known only by its concrete type.
trait Object: TraitcastFrom {}

impl<T: TraitcastFrom> Object for T {}

trait Foo: TraitcastFrom {
    fn foo(&mut self) -> i64;
}

trait Bar: TraitcastFrom {
    fn bar(&self) -> i64;
}

trait Baz: TraitcastFrom {
    fn baz(self: Box<Self>) -> i64;
}

struct A {
    x: i64,
}

struct B {
    y: i64,
}

impl Foo for A {
    fn foo(&mut self) -> i64 {
        self.x += 1;
        self.x
    }
}

impl Bar for A {
    fn bar(&self) -> i64 {
        self.x
    }
}

impl Foo for B {
    fn foo(&mut self) -> i64 {
        self.y *= 2;
        self.y
    }
}

impl Baz for B {
    fn baz(self: Box<Self>) -> i64 {
        self.y
    }
}

impl Implements<A> for A {
    fn upcast_ref(&self) -> &A {
        self
    }
    fn upcast_mut(&mut self) -> &mut A {
        self
    }
    fn upcast_box(self: Box<Self>) -> Box<A> {
        self
    }
}

impl Implements<B> for B {
    fn upcast_ref(&self) -> &B {
        self
    }
    fn upcast_mut(&mut self) -> &mut B {
        self
    }
    fn upcast_box(self: Box<Self>) -> Box<B> {
        self
    }
}

impl Implements<dyn Foo> for A {
    fn upcast_ref(&self) -> &(dyn Foo + 'static) {
        self
    }
    fn upcast_mut(&mut self) -> &mut (dyn Foo + 'static) {
        self
    }
    fn upcast_box(self: Box<Self>) -> Box<dyn Foo> {
        self
    }
}

impl Implements<dyn Bar> for A {
    fn upcast_ref(&self) -> &(dyn Bar + 'static) {
        self
    }
    fn upcast_mut(&mut self) -> &mut (dyn Bar + 'static) {
        self
    }
    fn upcast_box(self: Box<Self>) -> Box<dyn Bar> {
        self
    }
}

impl Implements<dyn Foo> for B {
    fn upcast_ref(&self) -> &(dyn Foo + 'static) {
        self
    }
    fn upcast_mut(&mut self) -> &mut (dyn Foo + 'static) {
        self
    }
    fn upcast_box(self: Box<Self>) -> Box<dyn Foo> {
        self
    }
}

impl Implements<dyn Baz> for B {
    fn upcast_ref(&self) -> &(dyn Baz + 'static) {
        self
    }
    fn upcast_mut(&mut self) -> &mut (dyn Baz + 'static) {
        self
    }
    fn upcast_box(self: Box<Self>) -> Box<dyn Baz> {
        self
    }
}

/// Every declaration of the fixtures, one step each: the structs as
/// castable into themselves, and each implementation of a trait.
fn registry() -> Registry {
    let steps = vec![
        EntryBuilder::inserting_entry(ImplEntry::<A>::new::<A>("A", "A")),
        EntryBuilder::inserting_entry(ImplEntry::<dyn Foo>::new::<A>("dyn Foo", "A")),
        EntryBuilder::inserting_entry(ImplEntry::<dyn Bar>::new::<A>("dyn Bar", "A")),
        EntryBuilder::inserting_entry(ImplEntry::<B>::new::<B>("B", "B")),
        EntryBuilder::inserting_entry(ImplEntry::<dyn Foo>::new::<B>("dyn Foo", "B")),
        EntryBuilder::inserting_entry(ImplEntry::<dyn Baz>::new::<B>("dyn Baz", "B")),
    ];
    let gathered: Vec<&EntryBuilder> = steps.iter().collect();
    build_registry(&gathered)
}

#[test]
fn test_traitcast() {
    let registry = registry();
    let mut x: Box<dyn Object> = Box::new(A { x: 0 });
    let mut y: Box<dyn Object> = Box::new(B { y: 1 });

    {
        // Can cast from the root to Bar
        let x: &dyn Bar = (*x).cast_ref(&registry).unwrap();
        assert_eq!(x.bar(), 0);

        // Can cast from Bar to Foo
        assert!(cast_ref::<dyn Bar, dyn Foo>(&registry, x).is_some());

        // The cast to Bar fails when the type does not implement Bar
        assert!(cast_ref::<dyn Object, dyn Bar>(&registry, &*y).is_none());
    }

    {
        // Can cast from the root to Foo
        let x: &mut dyn Foo = (*x).cast_mut(&registry).unwrap();
        assert_eq!(x.foo(), 1);
        assert_eq!(x.foo(), 2);

        // Can cast from Foo to Bar
        let x: &mut dyn Bar = x.cast_mut(&registry).unwrap();
        assert_eq!(x.bar(), 2);

        // Can also cast B from the root to Foo
        let y: &mut dyn Foo = (*y).cast_mut(&registry).unwrap();
        assert_eq!(y.foo(), 2);
        assert_eq!(y.foo(), 4);

        // Can cast from Foo to Baz
        assert!(cast_mut::<dyn Foo, dyn Baz>(&registry, y).is_some());
    }

    {
        // The cast to Baz fails when the type does not implement Baz
        assert!(cast_box::<dyn Object, dyn Baz>(&registry, x).is_err());

        let mut y: Box<dyn Baz> = y.cast_box(&registry).unwrap();
        // Can cast from Baz to Foo
        {
            let y: &mut dyn Foo = (*y).cast_mut(&registry).unwrap();
            assert_eq!(y.foo(), 8);
        }

        {
            // Can cast back up to the concrete type
            let y: &mut B = (*y).cast_mut(&registry).unwrap();
            assert_eq!(y.y, 8);
        }

        assert_eq!(y.baz(), 8);
    }
}

#[test]
fn tests_test_traitcast() {
    let registry = registry();
    let mut x: Box<dyn Object> = Box::new(A { x: 0 });
    let mut y: Box<dyn Object> = Box::new(B { y: 1 });

    {
        let x = cast_ref::<dyn Object, dyn Bar>(&registry, &*x).unwrap();
        assert_eq!(x.bar(), 0);

        assert!(cast_ref::<dyn Object, dyn Bar>(&registry, &*y).is_none());
    }

    {
        let x = cast_mut::<dyn Object, dyn Foo>(&registry, &mut *x).unwrap();
        assert_eq!(x.foo(), 1);
        assert_eq!(x.foo(), 2);

        let y = cast_mut::<dyn Object, dyn Foo>(&registry, &mut *y).unwrap();
        assert_eq!(y.foo(), 2);
        assert_eq!(y.foo(), 4);
    }

    {
        assert!(cast_box::<dyn Object, dyn Baz>(&registry, x).is_err());

        let y = cast_box::<dyn Object, dyn Baz>(&registry, y).unwrap();
        assert_eq!(y.baz(), 4);
    }
}
