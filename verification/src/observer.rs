//! The observer buffers: one per record type, each owning a fixed-length
//! array of optional pending events, one slot per leaf field of the fully
//! flattened tree. A buffer hands out the root setter chain, yields its
//! recorded events in slot order, and can be reset.

use vstd::prelude::*;

use crate::chains::BarSetters;
use crate::chains::BazSetters;
use crate::chains::FooSetters;
use crate::chains::QuxSetters;
use crate::records::BAR_VARIANT_SIZE;
use crate::records::BAZ_VARIANT_SIZE;
use crate::records::BarFieldType;
use crate::records::BazFieldType;
use crate::records::FOO_VARIANT_SIZE;
use crate::records::FooFieldType;
use crate::records::QUX_VARIANT_SIZE;
use crate::records::QuxFieldType;
use crate::setter::RootTranslate;

verus! {

/// The events recorded in a buffer: the values of its set slots, in
/// ascending slot order. Unset slots are skipped, not represented as holes.
pub open spec fn recorded<T>(s: Seq<Option<T>>) -> Seq<T>
    decreases s.len(),
{
    if s.len() == 0 {
        Seq::empty()
    } else {
        match s.last() {
            Some(e) => recorded(s.drop_last()).push(e),
            None => recorded(s.drop_last()),
        }
    }
}

/// Reset clears all: a buffer whose slots are all unset records nothing,
/// regardless of prior state.
pub proof fn lemma_recorded_all_unset<T>(s: Seq<Option<T>>)
    requires
        forall|k: int| 0 <= k < s.len() ==> s[k] is None,
    ensures
        recorded(s).len() == 0,
    decreases s.len(),
{
    if s.len() > 0 {
        lemma_recorded_all_unset(s.drop_last());
    }
}

/// Newest wins: of two writes through setters resolving to the same slot,
/// only the second remains recorded.
pub proof fn lemma_newest_wins<T>(s: Seq<Option<T>>, i: int, first: T, second: T)
    requires
        0 <= i < s.len(),
    ensures
        s.update(i, Some(first)).update(i, Some(second)) == s.update(i, Some(second)),
{
    assert(s.update(i, Some(first)).update(i, Some(second)) =~= s.update(i, Some(second)));
}

/// Order preservation: writes to distinct slots commute, so the buffer a
/// sequence of writes leaves behind, and with it the recorded sequence,
/// depends on the slots written, not on the order of the calls; recorded
/// events come out in slot order, which is field declaration order.
pub proof fn lemma_writes_commute<T>(s: Seq<Option<T>>, i: int, j: int, ei: T, ej: T)
    requires
        0 <= i < s.len(),
        0 <= j < s.len(),
        i != j,
    ensures
        s.update(i, Some(ei)).update(j, Some(ej)) == s.update(j, Some(ej)).update(i, Some(ei)),
{
    assert(s.update(i, Some(ei)).update(j, Some(ej)) =~= s.update(j, Some(ej)).update(
        i,
        Some(ei),
    ));
}

/// The observer buffer of `Foo`.
pub struct FooFieldObserver {
    pub slots: Vec<Option<FooFieldType>>,
}

impl FooFieldObserver {
    /// The backing array has exactly the record's variant size.
    pub open spec fn wf(&self) -> bool {
        self.slots.len() == FOO_VARIANT_SIZE
    }

    /// An empty buffer: all slots unset.
    pub fn new() -> (r: Self)
        ensures
            r.wf(),
            forall|k: int| 0 <= k < r.slots@.len() ==> r.slots@[k] is None,
    {
        let mut slots: Vec<Option<FooFieldType>> = Vec::new();
        slots.push(None);
        slots.push(None);
        FooFieldObserver { slots }
    }

    /// The root setter chain, bound to the entire backing array and the
    /// identity translation.
    pub fn setters(&mut self) -> (r: FooSetters<'_, FooFieldType, RootTranslate>)
        requires
            old(self).wf(),
        ensures
            r.wf(),
            r.base == 0,
            r.f == RootTranslate,
            r.buf@ == old(self).slots@,
            final(self).slots@ == final(r.buf)@,
    {
        FooSetters { buf: &mut self.slots, base: 0, f: RootTranslate }
    }

    /// The recorded events, in ascending slot order.
    pub fn events(&self) -> (r: Vec<FooFieldType>)
        ensures
            r@ == recorded(self.slots@),
    {
        let mut out: Vec<FooFieldType> = Vec::new();
        let mut i: usize = 0;
        while i < self.slots.len()
            invariant
                i <= self.slots@.len(),
                out@ == recorded(self.slots@.take(i as int)),
            decreases self.slots@.len() - i,
        {
            if let Some(e) = self.slots[i] {
                out.push(e);
            }
            proof {
                assert(self.slots@.take(i + 1).drop_last() =~= self.slots@.take(i as int));
                assert(self.slots@.take(i + 1).last() == self.slots@[i as int]);
            }
            i += 1;
        }
        proof {
            assert(self.slots@.take(self.slots@.len() as int) =~= self.slots@);
        }
        out
    }

    /// Resets every slot to unset; the backing array keeps its length, and
    /// nothing is recorded afterwards.
    pub fn clear_events(&mut self)
        ensures
            final(self).slots@.len() == old(self).slots@.len(),
            forall|k: int| 0 <= k < final(self).slots@.len() ==> final(self).slots@[k] is None,
            recorded(final(self).slots@).len() == 0,
    {
        let n = self.slots.len();
        let mut i: usize = 0;
        while i < n
            invariant
                i <= n,
                n == self.slots@.len(),
                forall|k: int| 0 <= k < i ==> self.slots@[k] is None,
            decreases n - i,
        {
            self.slots.set(i, None);
            i += 1;
        }
        proof {
            lemma_recorded_all_unset(self.slots@);
        }
    }
}

/// The observer buffer of `Bar`.
pub struct BarFieldObserver {
    pub slots: Vec<Option<BarFieldType>>,
}

impl BarFieldObserver {
    /// The backing array has exactly the record's variant size.
    pub open spec fn wf(&self) -> bool {
        self.slots.len() == BAR_VARIANT_SIZE
    }

    /// An empty buffer: all slots unset.
    pub fn new() -> (r: Self)
        ensures
            r.wf(),
            forall|k: int| 0 <= k < r.slots@.len() ==> r.slots@[k] is None,
    {
        let mut slots: Vec<Option<BarFieldType>> = Vec::new();
        slots.push(None);
        slots.push(None);
        slots.push(None);
        slots.push(None);
        BarFieldObserver { slots }
    }

    /// The root setter chain, bound to the entire backing array and the
    /// identity translation.
    pub fn setters(&mut self) -> (r: BarSetters<'_, BarFieldType, RootTranslate>)
        requires
            old(self).wf(),
        ensures
            r.wf(),
            r.base == 0,
            r.f == RootTranslate,
            r.buf@ == old(self).slots@,
            final(self).slots@ == final(r.buf)@,
    {
        BarSetters { buf: &mut self.slots, base: 0, f: RootTranslate }
    }

    /// The recorded events, in ascending slot order.
    pub fn events(&self) -> (r: Vec<BarFieldType>)
        ensures
            r@ == recorded(self.slots@),
    {
        let mut out: Vec<BarFieldType> = Vec::new();
        let mut i: usize = 0;
        while i < self.slots.len()
            invariant
                i <= self.slots@.len(),
                out@ == recorded(self.slots@.take(i as int)),
            decreases self.slots@.len() - i,
        {
            if let Some(e) = self.slots[i] {
                out.push(e);
            }
            proof {
                assert(self.slots@.take(i + 1).drop_last() =~= self.slots@.take(i as int));
                assert(self.slots@.take(i + 1).last() == self.slots@[i as int]);
            }
            i += 1;
        }
        proof {
            assert(self.slots@.take(self.slots@.len() as int) =~= self.slots@);
        }
        out
    }

    /// Resets every slot to unset; the backing array keeps its length, and
    /// nothing is recorded afterwards.
    pub fn clear_events(&mut self)
        ensures
            final(self).slots@.len() == old(self).slots@.len(),
            forall|k: int| 0 <= k < final(self).slots@.len() ==> final(self).slots@[k] is None,
            recorded(final(self).slots@).len() == 0,
    {
        let n = self.slots.len();
        let mut i: usize = 0;
        while i < n
            invariant
                i <= n,
                n == self.slots@.len(),
                forall|k: int| 0 <= k < i ==> self.slots@[k] is None,
            decreases n - i,
        {
            self.slots.set(i, None);
            i += 1;
        }
        proof {
            lemma_recorded_all_unset(self.slots@);
        }
    }
}

/// The observer buffer of `Baz`.
pub struct BazFieldObserver {
    pub slots: Vec<Option<BazFieldType>>,
}

impl BazFieldObserver {
    /// The backing array has exactly the record's variant size.
    pub open spec fn wf(&self) -> bool {
        self.slots.len() == BAZ_VARIANT_SIZE
    }

    /// An empty buffer: all slots unset.
    pub fn new() -> (r: Self)
        ensures
            r.wf(),
            forall|k: int| 0 <= k < r.slots@.len() ==> r.slots@[k] is None,
    {
        let mut slots: Vec<Option<BazFieldType>> = Vec::new();
        slots.push(None);
        slots.push(None);
        slots.push(None);
        slots.push(None);
        slots.push(None);
        BazFieldObserver { slots }
    }

    /// The root setter chain, bound to the entire backing array and the
    /// identity translation.
    pub fn setters(&mut self) -> (r: BazSetters<'_, BazFieldType, RootTranslate>)
        requires
            old(self).wf(),
        ensures
            r.wf(),
            r.base == 0,
            r.f == RootTranslate,
            r.buf@ == old(self).slots@,
            final(self).slots@ == final(r.buf)@,
    {
        BazSetters { buf: &mut self.slots, base: 0, f: RootTranslate }
    }

    /// The recorded events, in ascending slot order.
    pub fn events(&self) -> (r: Vec<BazFieldType>)
        ensures
            r@ == recorded(self.slots@),
    {
        let mut out: Vec<BazFieldType> = Vec::new();
        let mut i: usize = 0;
        while i < self.slots.len()
            invariant
                i <= self.slots@.len(),
                out@ == recorded(self.slots@.take(i as int)),
            decreases self.slots@.len() - i,
        {
            if let Some(e) = self.slots[i] {
                out.push(e);
            }
            proof {
                assert(self.slots@.take(i + 1).drop_last() =~= self.slots@.take(i as int));
                assert(self.slots@.take(i + 1).last() == self.slots@[i as int]);
            }
            i += 1;
        }
        proof {
            assert(self.slots@.take(self.slots@.len() as int) =~= self.slots@);
        }
        out
    }

    /// Resets every slot to unset; the backing array keeps its length, and
    /// nothing is recorded afterwards.
    pub fn clear_events(&mut self)
        ensures
            final(self).slots@.len() == old(self).slots@.len(),
            forall|k: int| 0 <= k < final(self).slots@.len() ==> final(self).slots@[k] is None,
            recorded(final(self).slots@).len() == 0,
    {
        let n = self.slots.len();
        let mut i: usize = 0;
        while i < n
            invariant
                i <= n,
                n == self.slots@.len(),
                forall|k: int| 0 <= k < i ==> self.slots@[k] is None,
            decreases n - i,
        {
            self.slots.set(i, None);
            i += 1;
        }
        proof {
            lemma_recorded_all_unset(self.slots@);
        }
    }
}

/// The observer buffer of `Qux`.
pub struct QuxFieldObserver {
    pub slots: Vec<Option<QuxFieldType>>,
}

impl QuxFieldObserver {
    /// The backing array has exactly the record's variant size.
    pub open spec fn wf(&self) -> bool {
        self.slots.len() == QUX_VARIANT_SIZE
    }

    /// An empty buffer: all slots unset.
    pub fn new() -> (r: Self)
        ensures
            r.wf(),
            forall|k: int| 0 <= k < r.slots@.len() ==> r.slots@[k] is None,
    {
        let mut slots: Vec<Option<QuxFieldType>> = Vec::new();
        slots.push(None);
        slots.push(None);
        slots.push(None);
        QuxFieldObserver { slots }
    }

    /// The root setter chain, bound to the entire backing array and the
    /// identity translation.
    pub fn setters(&mut self) -> (r: QuxSetters<'_, QuxFieldType, RootTranslate>)
        requires
            old(self).wf(),
        ensures
            r.wf(),
            r.base == 0,
            r.f == RootTranslate,
            r.buf@ == old(self).slots@,
            final(self).slots@ == final(r.buf)@,
    {
        QuxSetters { buf: &mut self.slots, base: 0, f: RootTranslate }
    }

    /// The recorded events, in ascending slot order.
    pub fn events(&self) -> (r: Vec<QuxFieldType>)
        ensures
            r@ == recorded(self.slots@),
    {
        let mut out: Vec<QuxFieldType> = Vec::new();
        let mut i: usize = 0;
        while i < self.slots.len()
            invariant
                i <= self.slots@.len(),
                out@ == recorded(self.slots@.take(i as int)),
            decreases self.slots@.len() - i,
        {
            if let Some(e) = self.slots[i] {
                out.push(e);
            }
            proof {
                assert(self.slots@.take(i + 1).drop_last() =~= self.slots@.take(i as int));
                assert(self.slots@.take(i + 1).last() == self.slots@[i as int]);
            }
            i += 1;
        }
        proof {
            assert(self.slots@.take(self.slots@.len() as int) =~= self.slots@);
        }
        out
    }

    /// Resets every slot to unset; the backing array keeps its length, and
    /// nothing is recorded afterwards.
    pub fn clear_events(&mut self)
        ensures
            final(self).slots@.len() == old(self).slots@.len(),
            forall|k: int| 0 <= k < final(self).slots@.len() ==> final(self).slots@[k] is None,
            recorded(final(self).slots@).len() == 0,
    {
        let n = self.slots.len();
        let mut i: usize = 0;
        while i < n
            invariant
                i <= n,
                n == self.slots@.len(),
                forall|k: int| 0 <= k < i ==> self.slots@[k] is None,
            decreases n - i,
        {
            self.slots.set(i, None);
            i += 1;
        }
        proof {
            lemma_recorded_all_unset(self.slots@);
        }
    }
}

} // verus!
