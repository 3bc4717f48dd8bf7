use field_observer::observer::BazFieldObserver;
use field_observer::records::Bar;
use field_observer::records::BarFieldType;
use field_observer::records::Baz;
use field_observer::records::BazFieldType;
use field_observer::records::Foo;
use field_observer::records::FooFieldType;
use field_observer::records::Qux;
use field_observer::records::QuxFieldType;
use field_observer::setter::FieldSetter;

fn sample_baz() -> Baz {
    Baz {
        field5: 10,
        bar: Bar { field3: 20, foo: Foo { field1: 30, field2: 40 }, field4: false },
    }
}

// Applying a leaf event overwrites exactly that field.
#[test]
fn apply_leaf() {
    let mut foo = Foo { field1: 1, field2: 2 };
    foo.apply(FooFieldType::Field2(9));
    assert_eq!(foo, Foo { field1: 1, field2: 9 });
}

// Applying a nested event recurses into the participating field.
#[test]
fn apply_nested() {
    let mut bar = Bar { field3: 3, foo: Foo { field1: 1, field2: 2 }, field4: true };
    bar.apply(BarFieldType::Foo(FooFieldType::Field1(7)));
    assert_eq!(bar, Bar { field3: 3, foo: Foo { field1: 7, field2: 2 }, field4: true });
}

// Applying a doubly nested event reaches the deepest leaf and nothing else.
#[test]
fn apply_deep() {
    let mut baz = sample_baz();
    baz.apply(BazFieldType::Bar(BarFieldType::Foo(FooFieldType::Field2(99))));
    let mut expected = sample_baz();
    expected.bar.foo.field2 = 99;
    assert_eq!(baz, expected);
}

#[test]
fn apply_qux() {
    let mut qux = Qux { field6: 5, foo: Foo { field1: 1, field2: 2 } };
    qux.apply(QuxFieldType::Foo(FooFieldType::Field1(8)));
    qux.apply(QuxFieldType::Field6(6));
    assert_eq!(qux, Qux { field6: 6, foo: Foo { field1: 8, field2: 2 } });
}

// Round trip: replaying the events an observer recorded, in recorded
// order, equals directly assigning the same field values in that order.
#[test]
fn replay_round_trip() {
    let mut obs = BazFieldObserver::new();
    obs.setters().field5().set(11);
    obs.setters().bar().foo().field1().set(22);
    obs.setters().bar().field4().set(true);

    let mut replayed = sample_baz();
    replayed.apply_all(&obs.events());

    let mut assigned = sample_baz();
    assigned.field5 = 11;
    assigned.bar.foo.field1 = 22;
    assigned.bar.field4 = true;

    assert_eq!(replayed, assigned);
}

// Round trip with two writes to the same slot: only the newest event is
// recorded, so replay assigns only the newest value.
#[test]
fn replay_newest_only() {
    let mut obs = BazFieldObserver::new();
    obs.setters().bar().field3().set(1);
    obs.setters().bar().field3().set(2);

    let mut replayed = sample_baz();
    replayed.apply_all(&obs.events());

    let mut assigned = sample_baz();
    assigned.bar.field3 = 2;

    assert_eq!(replayed, assigned);
}
