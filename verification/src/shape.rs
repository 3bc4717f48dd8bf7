//! The flattening model: a record's declared shape as a tree of leaf and
//! participating fields, the span and offset each direct field is assigned
//! in the flat buffer, and the proof that those ranges partition the
//! buffer exactly.

use vstd::prelude::*;

verus! {

/// The shape of one direct field of a record: a leaf tracked as a single
/// value, or a participating field whose type is itself a record with its
/// own direct fields.
pub enum FieldShape {
    Leaf,
    Nested(Seq<FieldShape>),
}

/// The number of buffer slots a field occupies: one for a leaf, the nested
/// record's own variant size for a participating field.
pub open spec fn span(f: FieldShape) -> nat
    decreases f,
{
    match f {
        FieldShape::Leaf => 1,
        FieldShape::Nested(fields) => spans_total(fields),
    }
}

/// The variant size of a record with direct fields `fields`: the total
/// number of leaf slots reachable transitively through them.
pub open spec fn spans_total(fields: Seq<FieldShape>) -> nat
    decreases fields,
{
    if fields.len() == 0 {
        0
    } else {
        span(fields[0]) + spans_total(fields.drop_first())
    }
}

/// The offset of direct field `i` in its record's buffer: the sum of the
/// spans of the fields declared before it.
pub open spec fn offset_of(fields: Seq<FieldShape>, i: int) -> nat {
    spans_total(fields.take(i))
}

/// Whether buffer slot `k` belongs to the index range of direct field `i`.
pub open spec fn slot_in_field(fields: Seq<FieldShape>, i: int, k: int) -> bool {
    offset_of(fields, i) <= k < offset_of(fields, i) + span(fields[i])
}

/// Whether buffer slot `k` belongs to the index range of some direct field.
pub open spec fn slot_covered(fields: Seq<FieldShape>, k: int) -> bool {
    exists|i: int| 0 <= i < fields.len() && slot_in_field(fields, i, k)
}

pub proof fn lemma_offset_zero(fields: Seq<FieldShape>)
    ensures
        offset_of(fields, 0) == 0,
{
    assert(fields.take(0) =~= Seq::<FieldShape>::empty());
}

pub proof fn lemma_offset_full(fields: Seq<FieldShape>)
    ensures
        offset_of(fields, fields.len() as int) == spans_total(fields),
{
    assert(fields.take(fields.len() as int) =~= fields);
}

/// Dropping the first field shifts every later offset down by its span.
proof fn lemma_offset_unshift(fields: Seq<FieldShape>, i: int)
    requires
        1 <= i <= fields.len(),
    ensures
        offset_of(fields, i) == span(fields[0]) + offset_of(fields.drop_first(), i - 1),
{
    assert(fields.take(i).drop_first() =~= fields.drop_first().take(i - 1));
    assert(fields.take(i)[0] == fields[0]);
}

/// Ranges are contiguous: field `i + 1` starts exactly where field `i` ends.
pub proof fn lemma_offset_step(fields: Seq<FieldShape>, i: int)
    requires
        0 <= i < fields.len(),
    ensures
        offset_of(fields, i + 1) == offset_of(fields, i) + span(fields[i]),
    decreases i,
{
    if i == 0 {
        reveal_with_fuel(spans_total, 3);
        lemma_offset_zero(fields);
        assert(fields.take(1).drop_first() =~= Seq::<FieldShape>::empty());
        assert(fields.take(1)[0] == fields[0]);
        assert(spans_total(fields.take(1)) == span(fields[0]));
    } else {
        let rest = fields.drop_first();
        lemma_offset_unshift(fields, i + 1);
        lemma_offset_unshift(fields, i);
        lemma_offset_step(rest, i - 1);
        assert(rest[i - 1] == fields[i]);
    }
}

pub proof fn lemma_offset_mono(fields: Seq<FieldShape>, i: int, j: int)
    requires
        0 <= i <= j <= fields.len(),
    ensures
        offset_of(fields, i) <= offset_of(fields, j),
    decreases j - i,
{
    if i < j {
        lemma_offset_mono(fields, i, j - 1);
        lemma_offset_step(fields, j - 1);
    }
}

/// Every slot below the variant size is covered by some field's range.
pub proof fn lemma_slot_covered(fields: Seq<FieldShape>, k: int) -> (i: int)
    requires
        0 <= k < spans_total(fields),
    ensures
        0 <= i < fields.len(),
        slot_in_field(fields, i, k),
    decreases fields.len(),
{
    lemma_offset_zero(fields);
    if k < span(fields[0]) {
        0
    } else {
        let rest = fields.drop_first();
        let j = lemma_slot_covered(rest, k - span(fields[0]));
        lemma_offset_unshift(fields, j + 1);
        assert(rest[j] == fields[j + 1]);
        lemma_offset_step(fields, j + 1);
        lemma_offset_step(rest, j);
        j + 1
    }
}

/// No slot is covered by two distinct fields' ranges.
pub proof fn lemma_slot_unique(fields: Seq<FieldShape>, i: int, j: int, k: int)
    requires
        0 <= i < fields.len(),
        0 <= j < fields.len(),
        slot_in_field(fields, i, k),
        slot_in_field(fields, j, k),
    ensures
        i == j,
{
    if i < j {
        lemma_offset_step(fields, i);
        lemma_offset_mono(fields, i + 1, j);
    } else if j < i {
        lemma_offset_step(fields, j);
        lemma_offset_mono(fields, j + 1, i);
    }
}

/// Partition completeness: for a record with direct fields `fields`, the
/// per-field index ranges are contiguous, non-overlapping, and together
/// cover exactly the interval from zero to the record's variant size.
pub proof fn lemma_index_partition(fields: Seq<FieldShape>)
    ensures
        offset_of(fields, 0) == 0,
        offset_of(fields, fields.len() as int) == spans_total(fields),
        forall|i: int|
            0 <= i < fields.len() ==> offset_of(fields, i) + span(fields[i]) == offset_of(
                fields,
                i + 1,
            ),
        forall|k: int| 0 <= k < spans_total(fields) ==> #[trigger] slot_covered(fields, k),
        forall|i: int, j: int, k: int|
            0 <= i < fields.len() && 0 <= j < fields.len() && slot_in_field(fields, i, k)
                && slot_in_field(fields, j, k) ==> i == j,
{
    lemma_offset_zero(fields);
    lemma_offset_full(fields);
    assert forall|i: int| 0 <= i < fields.len() implies offset_of(fields, i) + span(fields[i])
        == offset_of(fields, i + 1) by {
        lemma_offset_step(fields, i);
    }
    assert forall|k: int| 0 <= k < spans_total(fields) implies #[trigger] slot_covered(
        fields,
        k,
    ) by {
        let i = lemma_slot_covered(fields, k);
        assert(0 <= i < fields.len() && slot_in_field(fields, i, k));
    }
    assert forall|i: int, j: int, k: int|
        0 <= i < fields.len() && 0 <= j < fields.len() && slot_in_field(fields, i, k)
            && slot_in_field(fields, j, k) implies i == j by {
        lemma_slot_unique(fields, i, j, k);
    }
}

/// Nesting composition: a nested record's local slot `k` under direct
/// field `i` lands inside field `i`'s own range of the parent partition,
/// and hence below the parent's variant size. Applied at every level of a
/// record tree, this carries the partition down to all nesting depths.
pub proof fn lemma_nested_slot(fields: Seq<FieldShape>, i: int, k: int)
    requires
        0 <= i < fields.len(),
        0 <= k < span(fields[i]),
    ensures
        slot_in_field(fields, i, offset_of(fields, i) + k),
        offset_of(fields, i) + k < spans_total(fields),
{
    lemma_offset_step(fields, i);
    lemma_offset_mono(fields, i + 1, fields.len() as int);
    lemma_offset_full(fields);
}

} // verus!
