//! The record types, their flattened event types, the declared variant
//! sizes (validated against the shapes), and the replay operation that
//! mutates a record according to one captured event.

use vstd::prelude::*;

use crate::shape::FieldShape;
use crate::shape::spans_total;

verus! {

#[derive(Debug, PartialEq, Eq, Structural, Clone, Copy)]
pub struct Foo {
    pub field1: u16,
    pub field2: u32,
}

#[derive(Debug, PartialEq, Eq, Structural, Clone, Copy)]
pub struct Bar {
    pub field3: u64,
    pub foo: Foo,
    pub field4: bool,
}

#[derive(Debug, PartialEq, Eq, Structural, Clone, Copy)]
pub struct Baz {
    pub field5: u32,
    pub bar: Bar,
}

/// A two-field record whose nested half has exactly two leaves: one leaf
/// at slot 0 and a participating `Foo` occupying slots 1 and 2.
#[derive(Debug, PartialEq, Eq, Structural, Clone, Copy)]
pub struct Qux {
    pub field6: u32,
    pub foo: Foo,
}

/// Flattened event type of `Foo`: one case per direct field.
#[derive(Debug, PartialEq, Eq, Structural, Clone, Copy)]
pub enum FooFieldType {
    Field1(u16),
    Field2(u32),
}

/// Flattened event type of `Bar`: the participating field's case carries
/// the nested record's own flattened event type.
#[derive(Debug, PartialEq, Eq, Structural, Clone, Copy)]
pub enum BarFieldType {
    Field3(u64),
    Foo(FooFieldType),
    Field4(bool),
}

/// Flattened event type of `Baz`.
#[derive(Debug, PartialEq, Eq, Structural, Clone, Copy)]
pub enum BazFieldType {
    Field5(u32),
    Bar(BarFieldType),
}

/// Flattened event type of `Qux`.
#[derive(Debug, PartialEq, Eq, Structural, Clone, Copy)]
pub enum QuxFieldType {
    Field6(u32),
    Foo(FooFieldType),
}

pub const FOO_VARIANT_SIZE: usize = 2;

pub const BAR_VARIANT_SIZE: usize = 4;

pub const BAZ_VARIANT_SIZE: usize = 5;

pub const QUX_VARIANT_SIZE: usize = 3;

/// The declared shape of `Foo`: two leaf fields.
pub open spec fn foo_shape() -> Seq<FieldShape> {
    seq![FieldShape::Leaf, FieldShape::Leaf]
}

/// The declared shape of `Bar`: a leaf, a participating `Foo`, a leaf.
pub open spec fn bar_shape() -> Seq<FieldShape> {
    seq![FieldShape::Leaf, FieldShape::Nested(foo_shape()), FieldShape::Leaf]
}

/// The declared shape of `Baz`: a leaf and a participating `Bar`.
pub open spec fn baz_shape() -> Seq<FieldShape> {
    seq![FieldShape::Leaf, FieldShape::Nested(bar_shape())]
}

/// The declared shape of `Qux`: a leaf and a participating `Foo`.
pub open spec fn qux_shape() -> Seq<FieldShape> {
    seq![FieldShape::Leaf, FieldShape::Nested(foo_shape())]
}

/// The declared variant size of `Foo` matches its shape's true flattened
/// leaf count.
pub proof fn lemma_foo_variant_size()
    ensures
        spans_total(foo_shape()) == FOO_VARIANT_SIZE,
{
    reveal_with_fuel(spans_total, 6);
    reveal_with_fuel(crate::shape::span, 6);
    let s = foo_shape();
    assert(s.drop_first() =~= seq![FieldShape::Leaf]);
    assert(s.drop_first().drop_first() =~= Seq::<FieldShape>::empty());
    assert(spans_total(s.drop_first().drop_first()) == 0);
    assert(spans_total(s.drop_first()) == 1);
    assert(spans_total(s) == 2);
}

/// The declared variant size of `Bar` matches its shape's true flattened
/// leaf count.
pub proof fn lemma_bar_variant_size()
    ensures
        spans_total(bar_shape()) == BAR_VARIANT_SIZE,
{
    reveal_with_fuel(spans_total, 6);
    reveal_with_fuel(crate::shape::span, 6);
    lemma_foo_variant_size();
    let s = bar_shape();
    assert(s.drop_first() =~= seq![FieldShape::Nested(foo_shape()), FieldShape::Leaf]);
    assert(s.drop_first().drop_first() =~= seq![FieldShape::Leaf]);
    assert(s.drop_first().drop_first().drop_first() =~= Seq::<FieldShape>::empty());
    assert(spans_total(s.drop_first().drop_first().drop_first()) == 0);
    assert(spans_total(s.drop_first().drop_first()) == 1);
    assert(spans_total(s.drop_first()) == 3);
    assert(spans_total(s) == 4);
}

/// The declared variant size of `Baz` matches its shape's true flattened
/// leaf count.
pub proof fn lemma_baz_variant_size()
    ensures
        spans_total(baz_shape()) == BAZ_VARIANT_SIZE,
{
    reveal_with_fuel(spans_total, 6);
    reveal_with_fuel(crate::shape::span, 6);
    lemma_bar_variant_size();
    let s = baz_shape();
    assert(s.drop_first() =~= seq![FieldShape::Nested(bar_shape())]);
    assert(s.drop_first().drop_first() =~= Seq::<FieldShape>::empty());
    assert(spans_total(s.drop_first().drop_first()) == 0);
    assert(spans_total(s.drop_first()) == 4);
    assert(spans_total(s) == 5);
}

/// The declared variant size of `Qux` matches its shape's true flattened
/// leaf count.
pub proof fn lemma_qux_variant_size()
    ensures
        spans_total(qux_shape()) == QUX_VARIANT_SIZE,
{
    reveal_with_fuel(spans_total, 6);
    reveal_with_fuel(crate::shape::span, 6);
    lemma_foo_variant_size();
    let s = qux_shape();
    assert(s.drop_first() =~= seq![FieldShape::Nested(foo_shape())]);
    assert(s.drop_first().drop_first() =~= Seq::<FieldShape>::empty());
    assert(spans_total(s.drop_first().drop_first()) == 0);
    assert(spans_total(s.drop_first()) == 2);
    assert(spans_total(s) == 3);
}

impl Foo {
    /// Replaying one event of `Foo`, as a mathematical function: overwrite
    /// the field matched by the event's case with the carried value.
    pub open spec fn spec_apply(self, field: FooFieldType) -> Foo {
        match field {
            FooFieldType::Field1(x) => Foo { field1: x, ..self },
            FooFieldType::Field2(x) => Foo { field2: x, ..self },
        }
    }

    /// Mutates the record according to one captured event.
    pub fn apply(&mut self, field: FooFieldType)
        ensures
            *final(self) == old(self).spec_apply(field),
    {
        match field {
            FooFieldType::Field1(x) => self.field1 = x,
            FooFieldType::Field2(x) => self.field2 = x,
        }
    }
}

impl Bar {
    /// Replaying one event of `Bar`: a leaf case overwrites its field, the
    /// participating case recurses into the nested record.
    pub open spec fn spec_apply(self, field: BarFieldType) -> Bar {
        match field {
            BarFieldType::Field3(x) => Bar { field3: x, ..self },
            BarFieldType::Foo(inner) => Bar { foo: self.foo.spec_apply(inner), ..self },
            BarFieldType::Field4(x) => Bar { field4: x, ..self },
        }
    }

    /// Mutates the record according to one captured event, recursing into
    /// the nested record for the participating field's case.
    pub fn apply(&mut self, field: BarFieldType)
        ensures
            *final(self) == old(self).spec_apply(field),
    {
        match field {
            BarFieldType::Field3(x) => self.field3 = x,
            BarFieldType::Foo(inner) => self.foo.apply(inner),
            BarFieldType::Field4(x) => self.field4 = x,
        }
    }
}

impl Baz {
    /// Replaying one event of `Baz`.
    pub open spec fn spec_apply(self, field: BazFieldType) -> Baz {
        match field {
            BazFieldType::Field5(x) => Baz { field5: x, ..self },
            BazFieldType::Bar(inner) => Baz { bar: self.bar.spec_apply(inner), ..self },
        }
    }

    /// Mutates the record according to one captured event.
    pub fn apply(&mut self, field: BazFieldType)
        ensures
            *final(self) == old(self).spec_apply(field),
    {
        match field {
            BazFieldType::Field5(x) => self.field5 = x,
            BazFieldType::Bar(inner) => self.bar.apply(inner),
        }
    }

    /// Replaying a whole sequence of events, first to last.
    pub open spec fn spec_replay(self, events: Seq<BazFieldType>) -> Baz
        decreases events.len(),
    {
        if events.len() == 0 {
            self
        } else {
            self.spec_apply(events[0]).spec_replay(events.drop_first())
        }
    }

    /// Replays every event of the sequence, in order.
    pub fn apply_all(&mut self, events: &Vec<BazFieldType>)
        ensures
            *final(self) == old(self).spec_replay(events@),
    {
        let mut i: usize = 0;
        while i < events.len()
            invariant
                i <= events@.len(),
                *self == old(self).spec_replay(events@.take(i as int)),
            decreases events@.len() - i,
        {
            proof {
                assert(events@.take(i + 1) =~= events@.take(i as int).push(events@[i as int]));
                lemma_replay_push(*old(self), events@.take(i as int), events@[i as int]);
            }
            self.apply(events[i]);
            i += 1;
        }
        proof {
            assert(events@.take(events@.len() as int) =~= events@);
        }
    }
}

impl Qux {
    /// Replaying one event of `Qux`.
    pub open spec fn spec_apply(self, field: QuxFieldType) -> Qux {
        match field {
            QuxFieldType::Field6(x) => Qux { field6: x, ..self },
            QuxFieldType::Foo(inner) => Qux { foo: self.foo.spec_apply(inner), ..self },
        }
    }

    /// Mutates the record according to one captured event.
    pub fn apply(&mut self, field: QuxFieldType)
        ensures
            *final(self) == old(self).spec_apply(field),
    {
        match field {
            QuxFieldType::Field6(x) => self.field6 = x,
            QuxFieldType::Foo(inner) => self.foo.apply(inner),
        }
    }
}

/// Replaying a sequence extended by one event replays the sequence, then
/// the one event.
proof fn lemma_replay_push(r: Baz, events: Seq<BazFieldType>, e: BazFieldType)
    ensures
        r.spec_replay(events.push(e)) == r.spec_replay(events).spec_apply(e),
    decreases events.len(),
{
    reveal_with_fuel(Baz::spec_replay, 3);
    if events.len() == 0 {
        assert(events.push(e)[0] == e);
        assert(events.push(e).drop_first() =~= Seq::<BazFieldType>::empty());
    } else {
        assert(events.push(e)[0] == events[0]);
        assert(events.push(e).drop_first() =~= events.drop_first().push(e));
        lemma_replay_push(r.spec_apply(events[0]), events.drop_first(), e);
    }
}

/// Direct assignment of the leaf value an event of `Baz` carries, written
/// as a plain field update along the event's path.
pub open spec fn assign_baz(r: Baz, e: BazFieldType) -> Baz {
    match e {
        BazFieldType::Field5(x) => Baz { field5: x, ..r },
        BazFieldType::Bar(BarFieldType::Field3(x)) => Baz {
            bar: Bar { field3: x, ..r.bar },
            ..r
        },
        BazFieldType::Bar(BarFieldType::Foo(FooFieldType::Field1(x))) => Baz {
            bar: Bar { foo: Foo { field1: x, ..r.bar.foo }, ..r.bar },
            ..r
        },
        BazFieldType::Bar(BarFieldType::Foo(FooFieldType::Field2(x))) => Baz {
            bar: Bar { foo: Foo { field2: x, ..r.bar.foo }, ..r.bar },
            ..r
        },
        BazFieldType::Bar(BarFieldType::Field4(x)) => Baz {
            bar: Bar { field4: x, ..r.bar },
            ..r
        },
    }
}

/// Apply round trip, single event: replaying one captured event of `Baz`
/// overwrites exactly the leaf field the event addresses, however deeply
/// nested, as a direct assignment would.
pub proof fn lemma_apply_is_assignment(r: Baz, e: BazFieldType)
    ensures
        r.spec_apply(e) == assign_baz(r, e),
{
}

/// Apply round trip: replaying a sequence of captured events of `Baz` in
/// order yields the record produced by directly assigning the carried
/// values to the addressed leaf fields in the same order.
pub proof fn lemma_replay_round_trip(r: Baz, events: Seq<BazFieldType>)
    ensures
        r.spec_replay(events) == assign_all_baz(r, events),
    decreases events.len(),
{
    if events.len() > 0 {
        lemma_apply_is_assignment(r, events[0]);
        lemma_replay_round_trip(assign_baz(r, events[0]), events.drop_first());
    }
}

/// Direct assignment of a whole sequence of carried values, in order.
pub open spec fn assign_all_baz(r: Baz, events: Seq<BazFieldType>) -> Baz
    decreases events.len(),
{
    if events.len() == 0 {
        r
    } else {
        assign_all_baz(assign_baz(r, events[0]), events.drop_first())
    }
}

} // verus!
