//! The field-setter capability: a place a single value can be written to,
//! together with the translation protocol that wraps a locally produced
//! event into the enum layers its buffer slot expects.

use vstd::prelude::*;

use core::marker::PhantomData;

verus! {

/// A translation applied to a locally produced event before it is stored:
/// the identity at the root of a record tree, or "wrap into the parent's
/// enum case" at nested levels. Composing translations lets a terminal
/// `set` call at any depth perform exactly one buffer write.
pub trait Translate<A, B>: Sized {
    /// What the translation produces, as a mathematical function.
    spec fn spec_translate(&self, a: A) -> B;

    fn translate(&self, a: A) -> (r: B)
        ensures
            r == self.spec_translate(a),
    ;
}

/// The identity translation, bound to the root of a record tree, where no
/// case-wrapping is needed.
pub struct RootTranslate;

impl<A> Translate<A, A> for RootTranslate {
    open spec fn spec_translate(&self, a: A) -> A {
        a
    }

    fn translate(&self, a: A) -> (r: A) {
        a
    }
}

/// A place a single value of type `V` can be written to.
pub trait FieldSetter<V>: Sized {
    /// When the place is usable: its slot lies inside its buffer.
    spec fn wf(&self) -> bool;

    fn set(self, value: V)
        requires
            self.wf(),
    ;
}

/// A setter bound to one slot of a flat event buffer. The slot index is
/// fixed at construction and never recomputed; the bound translation wraps
/// the value in the full nesting of enum cases in one step.
pub struct FieldSetterImpl<'a, V, T, F> {
    pub buf: &'a mut Vec<Option<T>>,
    pub idx: usize,
    pub wrap: F,
    pub marker: PhantomData<V>,
}

impl<'a, V, T, F: Translate<V, T>> FieldSetter<V> for FieldSetterImpl<'a, V, T, F> {
    open spec fn wf(&self) -> bool {
        self.idx < self.buf@.len()
    }

    /// Writes the translated value into the single bound slot, overwriting
    /// any previously pending value there; every other slot is unaffected.
    fn set(self, value: V)
        ensures
            final(self.buf)@ == old(self.buf)@.update(
                self.idx as int,
                Some(self.wrap.spec_translate(value)),
            ),
            final(self.buf)@.len() == old(self.buf)@.len(),
            final(self.buf)@[self.idx as int] == Some(self.wrap.spec_translate(value)),
            forall|k: int|
                0 <= k < old(self.buf)@.len() && k != self.idx ==> final(self.buf)@[k] == old(
                    self.buf,
                )@[k],
    {
        let FieldSetterImpl { buf, idx, wrap, marker } = self;
        let t = wrap.translate(value);
        buf.set(idx, Some(t));
    }
}

} // verus!
