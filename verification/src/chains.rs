//! The setter chains: one per record type, each exposing an accessor per
//! declared field. A leaf accessor yields a field setter bound to the
//! field's offset; a participating accessor yields the nested record's own
//! chain, bound to the sub-range starting at the field's offset and a
//! translation extended by the parent's enum case.

use vstd::prelude::*;

use core::marker::PhantomData;

use crate::records::BAR_VARIANT_SIZE;
use crate::records::BAZ_VARIANT_SIZE;
use crate::records::BarFieldType;
use crate::records::BazFieldType;
use crate::records::FOO_VARIANT_SIZE;
use crate::records::FooFieldType;
use crate::records::QUX_VARIANT_SIZE;
use crate::records::QuxFieldType;
use crate::records::bar_shape;
use crate::records::baz_shape;
use crate::records::foo_shape;
use crate::records::lemma_bar_variant_size;
use crate::records::lemma_baz_variant_size;
use crate::records::lemma_foo_variant_size;
use crate::records::lemma_qux_variant_size;
use crate::records::qux_shape;
use crate::setter::FieldSetter;
use crate::setter::FieldSetterImpl;
use crate::setter::Translate;
use crate::shape::lemma_offset_step;
use crate::shape::lemma_offset_zero;
use crate::shape::offset_of;
use crate::shape::span;
use crate::shape::spans_total;

verus! {

/// Wraps a value for `Foo`'s first field into `FooFieldType::Field1`, then
/// applies the outer translation.
pub struct Field1Wrap<F> {
    pub f: F,
}

impl<T, F: Translate<FooFieldType, T>> Translate<u16, T> for Field1Wrap<F> {
    open spec fn spec_translate(&self, a: u16) -> T {
        self.f.spec_translate(FooFieldType::Field1(a))
    }

    fn translate(&self, a: u16) -> (r: T) {
        self.f.translate(FooFieldType::Field1(a))
    }
}

/// Wraps a value for `Foo`'s second field into `FooFieldType::Field2`.
pub struct Field2Wrap<F> {
    pub f: F,
}

impl<T, F: Translate<FooFieldType, T>> Translate<u32, T> for Field2Wrap<F> {
    open spec fn spec_translate(&self, a: u32) -> T {
        self.f.spec_translate(FooFieldType::Field2(a))
    }

    fn translate(&self, a: u32) -> (r: T) {
        self.f.translate(FooFieldType::Field2(a))
    }
}

/// Wraps a value for `Bar`'s first field into `BarFieldType::Field3`.
pub struct Field3Wrap<F> {
    pub f: F,
}

impl<T, F: Translate<BarFieldType, T>> Translate<u64, T> for Field3Wrap<F> {
    open spec fn spec_translate(&self, a: u64) -> T {
        self.f.spec_translate(BarFieldType::Field3(a))
    }

    fn translate(&self, a: u64) -> (r: T) {
        self.f.translate(BarFieldType::Field3(a))
    }
}

/// Wraps a nested `Foo` event into `BarFieldType::Foo`.
pub struct BarFooWrap<F> {
    pub f: F,
}

impl<T, F: Translate<BarFieldType, T>> Translate<FooFieldType, T> for BarFooWrap<F> {
    open spec fn spec_translate(&self, a: FooFieldType) -> T {
        self.f.spec_translate(BarFieldType::Foo(a))
    }

    fn translate(&self, a: FooFieldType) -> (r: T) {
        self.f.translate(BarFieldType::Foo(a))
    }
}

/// Wraps a value for `Bar`'s last field into `BarFieldType::Field4`.
pub struct Field4Wrap<F> {
    pub f: F,
}

impl<T, F: Translate<BarFieldType, T>> Translate<bool, T> for Field4Wrap<F> {
    open spec fn spec_translate(&self, a: bool) -> T {
        self.f.spec_translate(BarFieldType::Field4(a))
    }

    fn translate(&self, a: bool) -> (r: T) {
        self.f.translate(BarFieldType::Field4(a))
    }
}

/// Wraps a value for `Baz`'s first field into `BazFieldType::Field5`.
pub struct Field5Wrap<F> {
    pub f: F,
}

impl<T, F: Translate<BazFieldType, T>> Translate<u32, T> for Field5Wrap<F> {
    open spec fn spec_translate(&self, a: u32) -> T {
        self.f.spec_translate(BazFieldType::Field5(a))
    }

    fn translate(&self, a: u32) -> (r: T) {
        self.f.translate(BazFieldType::Field5(a))
    }
}

/// Wraps a nested `Bar` event into `BazFieldType::Bar`.
pub struct BazBarWrap<F> {
    pub f: F,
}

impl<T, F: Translate<BazFieldType, T>> Translate<BarFieldType, T> for BazBarWrap<F> {
    open spec fn spec_translate(&self, a: BarFieldType) -> T {
        self.f.spec_translate(BazFieldType::Bar(a))
    }

    fn translate(&self, a: BarFieldType) -> (r: T) {
        self.f.translate(BazFieldType::Bar(a))
    }
}

/// Wraps a value for `Qux`'s first field into `QuxFieldType::Field6`.
pub struct Field6Wrap<F> {
    pub f: F,
}

impl<T, F: Translate<QuxFieldType, T>> Translate<u32, T> for Field6Wrap<F> {
    open spec fn spec_translate(&self, a: u32) -> T {
        self.f.spec_translate(QuxFieldType::Field6(a))
    }

    fn translate(&self, a: u32) -> (r: T) {
        self.f.translate(QuxFieldType::Field6(a))
    }
}

/// Wraps a nested `Foo` event into `QuxFieldType::Foo`.
pub struct QuxFooWrap<F> {
    pub f: F,
}

impl<T, F: Translate<QuxFieldType, T>> Translate<FooFieldType, T> for QuxFooWrap<F> {
    open spec fn spec_translate(&self, a: FooFieldType) -> T {
        self.f.spec_translate(QuxFieldType::Foo(a))
    }

    fn translate(&self, a: FooFieldType) -> (r: T) {
        self.f.translate(QuxFieldType::Foo(a))
    }
}

/// The offsets the accessors of `Foo`'s chain use are the ones the
/// partition model assigns to `Foo`'s direct fields.
pub proof fn lemma_foo_offsets()
    ensures
        offset_of(foo_shape(), 0) == 0,
        offset_of(foo_shape(), 1) == 1,
        spans_total(foo_shape()) == FOO_VARIANT_SIZE,
{
    reveal_with_fuel(crate::shape::span, 2);
    lemma_foo_variant_size();
    lemma_offset_zero(foo_shape());
    lemma_offset_step(foo_shape(), 0);
}

/// The offsets the accessors of `Bar`'s chain use are the ones the
/// partition model assigns to `Bar`'s direct fields.
pub proof fn lemma_bar_offsets()
    ensures
        offset_of(bar_shape(), 0) == 0,
        offset_of(bar_shape(), 1) == 1,
        offset_of(bar_shape(), 2) == 3,
        spans_total(bar_shape()) == BAR_VARIANT_SIZE,
{
    reveal_with_fuel(crate::shape::span, 2);
    lemma_foo_variant_size();
    lemma_bar_variant_size();
    lemma_offset_zero(bar_shape());
    lemma_offset_step(bar_shape(), 0);
    lemma_offset_step(bar_shape(), 1);
    assert(span(bar_shape()[1]) == spans_total(foo_shape()));
}

/// The offsets the accessors of `Baz`'s chain use are the ones the
/// partition model assigns to `Baz`'s direct fields.
pub proof fn lemma_baz_offsets()
    ensures
        offset_of(baz_shape(), 0) == 0,
        offset_of(baz_shape(), 1) == 1,
        spans_total(baz_shape()) == BAZ_VARIANT_SIZE,
{
    reveal_with_fuel(crate::shape::span, 2);
    lemma_baz_variant_size();
    lemma_offset_zero(baz_shape());
    lemma_offset_step(baz_shape(), 0);
}

/// The offsets the accessors of `Qux`'s chain use are the ones the
/// partition model assigns to `Qux`'s direct fields.
pub proof fn lemma_qux_offsets()
    ensures
        offset_of(qux_shape(), 0) == 0,
        offset_of(qux_shape(), 1) == 1,
        spans_total(qux_shape()) == QUX_VARIANT_SIZE,
{
    reveal_with_fuel(crate::shape::span, 2);
    lemma_qux_variant_size();
    lemma_offset_zero(qux_shape());
    lemma_offset_step(qux_shape(), 0);
}

/// The setter chain of `Foo`, bound to the sub-range of `variant_size`
/// slots starting at `base` and a translation into the buffer's event
/// type: the identity at the root, an enum-case wrap at nested levels.
pub struct FooSetters<'a, T, F> {
    pub buf: &'a mut Vec<Option<T>>,
    pub base: usize,
    pub f: F,
}

impl<'a, T, F: Translate<FooFieldType, T>> FooSetters<'a, T, F> {
    /// The chain's sub-range lies inside its buffer.
    pub open spec fn wf(&self) -> bool {
        self.base + FOO_VARIANT_SIZE <= self.buf.len()
    }

    /// The setter of `field1`, bound to offset 0 of the chain's range.
    pub fn field1(self) -> (r: FieldSetterImpl<'a, u16, T, Field1Wrap<F>>)
        requires
            self.wf(),
        ensures
            r.wf(),
            r.idx == self.base + offset_of(foo_shape(), 0),
            r.buf@ == old(self.buf)@,
            final(r.buf)@ == final(self.buf)@,
            r.wrap == (Field1Wrap { f: self.f }),
    {
        proof {
            lemma_foo_offsets();
        }
        let FooSetters { buf, base, f } = self;
        FieldSetterImpl { buf, idx: base, wrap: Field1Wrap { f }, marker: PhantomData }
    }

    /// The setter of `field2`, bound to offset 1 of the chain's range.
    pub fn field2(self) -> (r: FieldSetterImpl<'a, u32, T, Field2Wrap<F>>)
        requires
            self.wf(),
        ensures
            r.wf(),
            r.idx == self.base + offset_of(foo_shape(), 1),
            r.buf@ == old(self.buf)@,
            final(r.buf)@ == final(self.buf)@,
            r.wrap == (Field2Wrap { f: self.f }),
    {
        proof {
            lemma_foo_offsets();
        }
        let FooSetters { buf, base, f } = self;
        FieldSetterImpl { buf, idx: base + 1, wrap: Field2Wrap { f }, marker: PhantomData }
    }
}

/// The setter chain of `Bar`.
pub struct BarSetters<'a, T, F> {
    pub buf: &'a mut Vec<Option<T>>,
    pub base: usize,
    pub f: F,
}

impl<'a, T, F: Translate<BarFieldType, T>> BarSetters<'a, T, F> {
    /// The chain's sub-range lies inside its buffer.
    pub open spec fn wf(&self) -> bool {
        self.base + BAR_VARIANT_SIZE <= self.buf.len()
    }

    /// The setter of `field3`, bound to offset 0 of the chain's range.
    pub fn field3(self) -> (r: FieldSetterImpl<'a, u64, T, Field3Wrap<F>>)
        requires
            self.wf(),
        ensures
            r.wf(),
            r.idx == self.base + offset_of(bar_shape(), 0),
            r.buf@ == old(self.buf)@,
            final(r.buf)@ == final(self.buf)@,
            r.wrap == (Field3Wrap { f: self.f }),
    {
        proof {
            lemma_bar_offsets();
        }
        let BarSetters { buf, base, f } = self;
        FieldSetterImpl { buf, idx: base, wrap: Field3Wrap { f }, marker: PhantomData }
    }

    /// The chain of the participating field `foo`, bound to the sub-range
    /// of 2 slots at offset 1 and a translation extended by the
    /// `BarFieldType::Foo` case.
    pub fn foo(self) -> (r: FooSetters<'a, T, BarFooWrap<F>>)
        requires
            self.wf(),
        ensures
            r.wf(),
            r.base == self.base + offset_of(bar_shape(), 1),
            r.buf@ == old(self.buf)@,
            final(r.buf)@ == final(self.buf)@,
            r.f == (BarFooWrap { f: self.f }),
    {
        proof {
            lemma_bar_offsets();
        }
        let BarSetters { buf, base, f } = self;
        FooSetters { buf, base: base + 1, f: BarFooWrap { f } }
    }

    /// The setter of `field4`, bound to offset 3 of the chain's range.
    pub fn field4(self) -> (r: FieldSetterImpl<'a, bool, T, Field4Wrap<F>>)
        requires
            self.wf(),
        ensures
            r.wf(),
            r.idx == self.base + offset_of(bar_shape(), 2),
            r.buf@ == old(self.buf)@,
            final(r.buf)@ == final(self.buf)@,
            r.wrap == (Field4Wrap { f: self.f }),
    {
        proof {
            lemma_bar_offsets();
        }
        let BarSetters { buf, base, f } = self;
        FieldSetterImpl { buf, idx: base + 3, wrap: Field4Wrap { f }, marker: PhantomData }
    }
}

/// The setter chain of `Baz`.
pub struct BazSetters<'a, T, F> {
    pub buf: &'a mut Vec<Option<T>>,
    pub base: usize,
    pub f: F,
}

impl<'a, T, F: Translate<BazFieldType, T>> BazSetters<'a, T, F> {
    /// The chain's sub-range lies inside its buffer.
    pub open spec fn wf(&self) -> bool {
        self.base + BAZ_VARIANT_SIZE <= self.buf.len()
    }

    /// The setter of `field5`, bound to offset 0 of the chain's range.
    pub fn field5(self) -> (r: FieldSetterImpl<'a, u32, T, Field5Wrap<F>>)
        requires
            self.wf(),
        ensures
            r.wf(),
            r.idx == self.base + offset_of(baz_shape(), 0),
            r.buf@ == old(self.buf)@,
            final(r.buf)@ == final(self.buf)@,
            r.wrap == (Field5Wrap { f: self.f }),
    {
        proof {
            lemma_baz_offsets();
        }
        let BazSetters { buf, base, f } = self;
        FieldSetterImpl { buf, idx: base, wrap: Field5Wrap { f }, marker: PhantomData }
    }

    /// The chain of the participating field `bar`, bound to the sub-range
    /// of 4 slots at offset 1 and a translation extended by the
    /// `BazFieldType::Bar` case.
    pub fn bar(self) -> (r: BarSetters<'a, T, BazBarWrap<F>>)
        requires
            self.wf(),
        ensures
            r.wf(),
            r.base == self.base + offset_of(baz_shape(), 1),
            r.buf@ == old(self.buf)@,
            final(r.buf)@ == final(self.buf)@,
            r.f == (BazBarWrap { f: self.f }),
    {
        proof {
            lemma_baz_offsets();
        }
        let BazSetters { buf, base, f } = self;
        BarSetters { buf, base: base + 1, f: BazBarWrap { f } }
    }
}

/// The setter chain of `Qux`.
pub struct QuxSetters<'a, T, F> {
    pub buf: &'a mut Vec<Option<T>>,
    pub base: usize,
    pub f: F,
}

impl<'a, T, F: Translate<QuxFieldType, T>> QuxSetters<'a, T, F> {
    /// The chain's sub-range lies inside its buffer.
    pub open spec fn wf(&self) -> bool {
        self.base + QUX_VARIANT_SIZE <= self.buf.len()
    }

    /// The setter of `field6`, bound to offset 0 of the chain's range.
    pub fn field6(self) -> (r: FieldSetterImpl<'a, u32, T, Field6Wrap<F>>)
        requires
            self.wf(),
        ensures
            r.wf(),
            r.idx == self.base + offset_of(qux_shape(), 0),
            r.buf@ == old(self.buf)@,
            final(r.buf)@ == final(self.buf)@,
            r.wrap == (Field6Wrap { f: self.f }),
    {
        proof {
            lemma_qux_offsets();
        }
        let QuxSetters { buf, base, f } = self;
        FieldSetterImpl { buf, idx: base, wrap: Field6Wrap { f }, marker: PhantomData }
    }

    /// The chain of the participating field `foo`, bound to the sub-range
    /// of 2 slots at offset 1 and a translation extended by the
    /// `QuxFieldType::Foo` case.
    pub fn foo(self) -> (r: FooSetters<'a, T, QuxFooWrap<F>>)
        requires
            self.wf(),
        ensures
            r.wf(),
            r.base == self.base + offset_of(qux_shape(), 1),
            r.buf@ == old(self.buf)@,
            final(r.buf)@ == final(self.buf)@,
            r.f == (QuxFooWrap { f: self.f }),
    {
        proof {
            lemma_qux_offsets();
        }
        let QuxSetters { buf, base, f } = self;
        FooSetters { buf, base: base + 1, f: QuxFooWrap { f } }
    }
}

} // verus!
