//! Fields of a few bits inside a 32-bit word: how the packed state objects read and write
//! them, and the facts about them that their proofs rest on.

use vstd::prelude::*;

verus! {

/// The word whose `width` lowest bits are set. It is also the largest value that a field of
/// that width holds.
pub open spec fn low_mask(width: u32) -> u32 {
    !(0xFFFF_FFFFu32 << width)
}

/// The field of `width` bits that starts at bit `offset` of `word`.
pub open spec fn extract(word: u32, offset: u32, width: u32) -> u32 {
    (word >> offset) & low_mask(width)
}

/// `word` with the field of `width` bits at `offset` replaced by the low bits of `value`.
pub open spec fn insert(word: u32, offset: u32, width: u32, value: u32) -> u32 {
    (word & !(low_mask(width) << offset)) | ((value & low_mask(width)) << offset)
}

/// The field lies inside a 32-bit word and is narrower than the word.
pub open spec fn field_in_word(offset: u32, width: u32) -> bool {
    0 < width < 32 && offset < 32 && offset + width <= 32
}

/// The two fields share no bit.
pub open spec fn fields_disjoint(o1: u32, w1: u32, o2: u32, w2: u32) -> bool {
    o1 + w1 <= o2 || o2 + w2 <= o1
}

/// The bit that stands for a boolean.
pub open spec fn flag_bit(on: bool) -> u32 {
    if on {
        1
    } else {
        0
    }
}

pub fn bit_of(on: bool) -> (bit: u32)
    ensures
        bit == flag_bit(on),
{
    if on {
        1
    } else {
        0
    }
}

pub fn get_field(word: u32, offset: u32, width: u32) -> (value: u32)
    requires
        field_in_word(offset, width),
    ensures
        value == extract(word, offset, width),
{
    (word >> offset) & !(0xFFFF_FFFFu32 << width)
}

pub fn set_field(word: u32, offset: u32, width: u32, value: u32) -> (updated: u32)
    requires
        field_in_word(offset, width),
    ensures
        updated == insert(word, offset, width, value),
{
    let mask: u32 = !(0xFFFF_FFFFu32 << width);
    (word & !(mask << offset)) | ((value & mask) << offset)
}

proof fn lemma_extract_insert_same(word: u32, offset: u32, width: u32, value: u32)
    by (bit_vector)
    requires
        0 < width < 32 && offset < 32 && offset + width <= 32,
    ensures
        extract(insert(word, offset, width, value), offset, width) == value & low_mask(width),
{
}

proof fn lemma_extract_insert_other(word: u32, o1: u32, w1: u32, value: u32, o2: u32, w2: u32)
    by (bit_vector)
    requires
        0 < w1 < 32 && o1 < 32 && o1 + w1 <= 32,
        0 < w2 < 32 && o2 < 32 && o2 + w2 <= 32,
        o1 + w1 <= o2 || o2 + w2 <= o1,
    ensures
        extract(insert(word, o1, w1, value), o2, w2) == extract(word, o2, w2),
{
}

proof fn lemma_fits(value: u32, width: u32)
    by (bit_vector)
    requires
        0 < width < 32,
        value <= low_mask(width),
    ensures
        value & low_mask(width) == value,
{
}

proof fn lemma_extract_bound(word: u32, offset: u32, width: u32)
    by (bit_vector)
    requires
        0 < width < 32 && offset < 32,
    ensures
        extract(word, offset, width) <= low_mask(width),
{
}

proof fn lemma_low_mask_values()
    by (bit_vector)
    ensures
        low_mask(1) == 0x1,
        low_mask(2) == 0x3,
        low_mask(3) == 0x7,
        low_mask(4) == 0xF,
        low_mask(5) == 0x1F,
        low_mask(6) == 0x3F,
        low_mask(7) == 0x7F,
        low_mask(8) == 0xFF,
        low_mask(14) == 0x3FFF,
{
}

/// What the packed state objects need to know of fields: the masks of the widths in use,
/// that a field reads back what was written to it, that writing one field leaves every
/// disjoint field as it was, that a field never exceeds its mask, and that a value within
/// the mask passes through it unchanged.
pub proof fn lemma_fields()
    ensures
        low_mask(1) == 0x1,
        low_mask(2) == 0x3,
        low_mask(3) == 0x7,
        low_mask(4) == 0xF,
        low_mask(5) == 0x1F,
        low_mask(6) == 0x3F,
        low_mask(7) == 0x7F,
        low_mask(8) == 0xFF,
        low_mask(14) == 0x3FFF,
        forall|word: u32, o: u32, w: u32, v: u32|
            field_in_word(o, w) ==> #[trigger] extract(insert(word, o, w, v), o, w) == v & low_mask(
                w,
            ),
        forall|word: u32, o1: u32, w1: u32, v: u32, o2: u32, w2: u32|
            field_in_word(o1, w1) && field_in_word(o2, w2) && fields_disjoint(o1, w1, o2, w2)
                ==> #[trigger] extract(insert(word, o1, w1, v), o2, w2) == extract(word, o2, w2),
        forall|word: u32, o: u32, w: u32|
            field_in_word(o, w) ==> #[trigger] extract(word, o, w) <= low_mask(w),
        forall|v: u32, w: u32| 0 < w < 32 && v <= low_mask(w) ==> #[trigger] (v & low_mask(w)) == v,
{
    lemma_low_mask_values();
    assert forall|word: u32, o: u32, w: u32, v: u32| field_in_word(o, w) implies #[trigger] extract(
        insert(word, o, w, v),
        o,
        w,
    ) == v & low_mask(w) by {
        lemma_extract_insert_same(word, o, w, v);
    }
    assert forall|word: u32, o1: u32, w1: u32, v: u32, o2: u32, w2: u32|
        field_in_word(o1, w1) && field_in_word(o2, w2) && fields_disjoint(
            o1,
            w1,
            o2,
            w2,
        ) implies #[trigger] extract(insert(word, o1, w1, v), o2, w2) == extract(word, o2, w2) by {
        lemma_extract_insert_other(word, o1, w1, v, o2, w2);
    }
    assert forall|word: u32, o: u32, w: u32| field_in_word(o, w) implies #[trigger] extract(
        word,
        o,
        w,
    ) <= low_mask(w) by {
        lemma_extract_bound(word, o, w);
    }
    assert forall|v: u32, w: u32| 0 < w < 32 && v <= low_mask(w) implies #[trigger] (v & low_mask(
        w,
    )) == v by {
        lemma_fits(v, w);
    }
}

/// A word lies within `mask` when it has no bit outside it.
pub open spec fn within(word: u32, mask: u32) -> bool {
    word & !mask == 0
}

/// Truncating to a mask gives a word within it and keeps a word that already was; the union
/// of two words within a mask is within it.
pub proof fn lemma_within(a: u32, b: u32, mask: u32)
    by (bit_vector)
    ensures
        within(a & mask, mask),
        within(a, mask) ==> a & mask == a,
        within(a, mask) && within(b, mask) ==> within(a | b, mask),
        within(0, mask),
{
}

} // verus!
