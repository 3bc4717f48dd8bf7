use field_observer::observer::BarFieldObserver;
use field_observer::observer::BazFieldObserver;
use field_observer::observer::FooFieldObserver;
use field_observer::observer::QuxFieldObserver;
use field_observer::records::BarFieldType;
use field_observer::records::BazFieldType;
use field_observer::records::FooFieldType;
use field_observer::records::QuxFieldType;
use field_observer::setter::FieldSetter;

// A fresh buffer records nothing and has exactly one slot per leaf field
// of the fully flattened tree.
#[test]
fn empty_buffer_records_nothing() {
    let foo_obs = FooFieldObserver::new();
    assert_eq!(foo_obs.events(), Vec::<FooFieldType>::new());
    assert_eq!(foo_obs.slots.len(), field_observer::records::FOO_VARIANT_SIZE);

    let bar_obs = BarFieldObserver::new();
    assert_eq!(bar_obs.events(), Vec::<BarFieldType>::new());
    assert_eq!(bar_obs.slots.len(), field_observer::records::BAR_VARIANT_SIZE);

    let baz_obs = BazFieldObserver::new();
    assert_eq!(baz_obs.events(), Vec::<BazFieldType>::new());
    assert_eq!(baz_obs.slots.len(), field_observer::records::BAZ_VARIANT_SIZE);

    let qux_obs = QuxFieldObserver::new();
    assert_eq!(qux_obs.events(), Vec::<QuxFieldType>::new());
    assert_eq!(qux_obs.slots.len(), field_observer::records::QUX_VARIANT_SIZE);
}

#[test]
fn foo_observer_works() {
    let mut obs = FooFieldObserver::new();
    obs.setters().field1().set(0);
    assert_eq!(obs.events(), vec![FooFieldType::Field1(0)]);
    obs.clear_events();

    obs.setters().field1().set(1);
    obs.setters().field2().set(2);
    assert_eq!(obs.events(), vec![FooFieldType::Field1(1), FooFieldType::Field2(2)]);
}

#[test]
fn bar_observer_works() {
    let mut obs = BarFieldObserver::new();
    obs.setters().field3().set(0);
    assert_eq!(obs.events(), vec![BarFieldType::Field3(0)]);
    obs.clear_events();

    obs.setters().field3().set(1);
    obs.setters().foo().field1().set(2);
    assert_eq!(
        obs.events(),
        vec![BarFieldType::Field3(1), BarFieldType::Foo(FooFieldType::Field1(2))]
    );
}

#[test]
fn baz_observer_works() {
    let mut obs = BazFieldObserver::new();
    obs.setters().field5().set(0);
    assert_eq!(obs.events(), vec![BazFieldType::Field5(0)]);
    obs.clear_events();

    obs.setters().field5().set(1);
    obs.setters().bar().foo().field2().set(2);
    assert_eq!(
        obs.events(),
        vec![
            BazFieldType::Field5(1),
            BazFieldType::Bar(BarFieldType::Foo(FooFieldType::Field2(2)))
        ]
    );
}

// Two-level nesting scenario: a parent with one leaf at slot 0 and a nested
// record of two leaves at slots 1 and 2. Setting the parent's leaf to 7,
// then the nested record's second field to 9, yields exactly two events, in
// that order, the second at global slot 2.
#[test]
fn qux_two_level_scenario() {
    let mut obs = QuxFieldObserver::new();
    obs.setters().field6().set(7);
    obs.setters().foo().field2().set(9);

    let events = obs.events();
    assert_eq!(events.len(), 2);
    assert_eq!(
        events,
        vec![
            QuxFieldType::Field6(7),
            QuxFieldType::Foo(FooFieldType::Field2(9))
        ]
    );
    assert_eq!(obs.slots[0], Some(QuxFieldType::Field6(7)));
    assert_eq!(obs.slots[1], None);
    assert_eq!(obs.slots[2], Some(QuxFieldType::Foo(FooFieldType::Field2(9))));
}

// A terminal set mutates exactly one slot of the backing array.
#[test]
fn single_slot_write() {
    let mut obs = BazFieldObserver::new();
    obs.setters().bar().foo().field1().set(3);
    assert_eq!(obs.slots[0], None);
    assert_eq!(obs.slots[1], None);
    assert_eq!(
        obs.slots[2],
        Some(BazFieldType::Bar(BarFieldType::Foo(FooFieldType::Field1(3))))
    );
    assert_eq!(obs.slots[3], None);
    assert_eq!(obs.slots[4], None);
}

// Two writes through setters resolving to the same slot keep the second.
#[test]
fn newest_wins() {
    let mut obs = FooFieldObserver::new();
    obs.setters().field1().set(1);
    obs.setters().field1().set(5);
    assert_eq!(obs.events(), vec![FooFieldType::Field1(5)]);
}

// Events come out in field declaration order even when the calls were made
// in the opposite order.
#[test]
fn declaration_order_kept() {
    let mut obs = BarFieldObserver::new();
    obs.setters().field4().set(true);
    obs.setters().foo().field2().set(8);
    obs.setters().field3().set(6);
    assert_eq!(
        obs.events(),
        vec![
            BarFieldType::Field3(6),
            BarFieldType::Foo(FooFieldType::Field2(8)),
            BarFieldType::Field4(true)
        ]
    );
}

// After a reset nothing is recorded, whatever was set before, and the
// buffer is usable again.
#[test]
fn clear_events_resets() {
    let mut obs = BazFieldObserver::new();
    obs.setters().field5().set(1);
    obs.setters().bar().field3().set(2);
    obs.setters().bar().field4().set(true);
    obs.clear_events();
    assert_eq!(obs.events(), Vec::<BazFieldType>::new());

    obs.setters().bar().foo().field1().set(4);
    assert_eq!(
        obs.events(),
        vec![BazFieldType::Bar(BarFieldType::Foo(FooFieldType::Field1(4)))]
    );
}
