//! The color state and the color write state: blending switches, the logic operation, the
//! alpha test, and which color components reach each render target.

use crate::bits::{extract, get_field, lemma_fields, lemma_within, set_field, within};
use crate::compare::CompareOp;
use vstd::pervasive::unreached;
use vstd::prelude::*;

verus! {

/// How the color of a fragment is combined, bit by bit, with the color in the render
/// target.
#[derive(Debug, Copy, Clone, PartialEq, Eq, Hash, Structural)]
pub enum LogicOp {
    /// All bits zero.
    Clear,
    And,
    AndReverse,
    /// The color of the fragment.
    Copy,
    AndInverted,
    /// The color in the render target.
    NoOp,
    Xor,
    Or,
    Nor,
    Equivalent,
    Invert,
    OrReverse,
    CopyInverted,
    OrInverted,
    Nand,
    /// All bits one.
    SetAll,
}

impl LogicOp {
    /// The number that stands for this value in driver structures and command streams.
    pub open spec fn raw(self) -> u32 {
        match self {
            LogicOp::Clear => 0,
            LogicOp::And => 1,
            LogicOp::AndReverse => 2,
            LogicOp::Copy => 3,
            LogicOp::AndInverted => 4,
            LogicOp::NoOp => 5,
            LogicOp::Xor => 6,
            LogicOp::Or => 7,
            LogicOp::Nor => 8,
            LogicOp::Equivalent => 9,
            LogicOp::Invert => 10,
            LogicOp::OrReverse => 11,
            LogicOp::CopyInverted => 12,
            LogicOp::OrInverted => 13,
            LogicOp::Nand => 14,
            LogicOp::SetAll => 15,
        }
    }

    /// Whether `code` is the number of some value of this type.
    pub open spec fn is_raw(code: u32) -> bool {
        code <= 15
    }

    /// The value whose number is `code`; it means nothing where `code` is no such number.
    pub open spec fn of_raw(code: u32) -> LogicOp {
        match code {
            0 => LogicOp::Clear,
            1 => LogicOp::And,
            2 => LogicOp::AndReverse,
            3 => LogicOp::Copy,
            4 => LogicOp::AndInverted,
            5 => LogicOp::NoOp,
            6 => LogicOp::Xor,
            7 => LogicOp::Or,
            8 => LogicOp::Nor,
            9 => LogicOp::Equivalent,
            10 => LogicOp::Invert,
            11 => LogicOp::OrReverse,
            12 => LogicOp::CopyInverted,
            13 => LogicOp::OrInverted,
            14 => LogicOp::Nand,
            15 => LogicOp::SetAll,
            _ => arbitrary(),
        }
    }

    pub fn to_raw(self) -> (code: u32)
        ensures
            code == self.raw(),
            LogicOp::is_raw(code),
            LogicOp::of_raw(code) == self,
    {
        match self {
            LogicOp::Clear => 0,
            LogicOp::And => 1,
            LogicOp::AndReverse => 2,
            LogicOp::Copy => 3,
            LogicOp::AndInverted => 4,
            LogicOp::NoOp => 5,
            LogicOp::Xor => 6,
            LogicOp::Or => 7,
            LogicOp::Nor => 8,
            LogicOp::Equivalent => 9,
            LogicOp::Invert => 10,
            LogicOp::OrReverse => 11,
            LogicOp::CopyInverted => 12,
            LogicOp::OrInverted => 13,
            LogicOp::Nand => 14,
            LogicOp::SetAll => 15,
        }
    }

    pub fn is_valid_raw(code: u32) -> (valid: bool)
        ensures
            valid == LogicOp::is_raw(code),
    {
        code <= 15
    }

    /// Reads a number handed back by the driver. Numbers that stand for no value are
    /// left to the caller, who can tell them apart with `is_valid_raw`.
    pub fn from(code: u32) -> (value: LogicOp)
        requires
            LogicOp::is_raw(code),
        ensures
            value == LogicOp::of_raw(code),
            value.raw() == code,
    {
        match code {
            0 => LogicOp::Clear,
            1 => LogicOp::And,
            2 => LogicOp::AndReverse,
            3 => LogicOp::Copy,
            4 => LogicOp::AndInverted,
            5 => LogicOp::NoOp,
            6 => LogicOp::Xor,
            7 => LogicOp::Or,
            8 => LogicOp::Nor,
            9 => LogicOp::Equivalent,
            10 => LogicOp::Invert,
            11 => LogicOp::OrReverse,
            12 => LogicOp::CopyInverted,
            13 => LogicOp::OrInverted,
            14 => LogicOp::Nand,
            15 => LogicOp::SetAll,
            _ => unreached(),
        }
    }
}

/// The blend enable mask `mask` after blending of render target `id` was turned on or off. The
/// mask has eight bits; a bit above them is dropped.
pub open spec fn with_blend_enable(mask: u8, id: u32, enable: bool) -> u8 {
    if enable {
        ((mask as u32 | (1u32 << id)) & 0xFF) as u8
    } else {
        ((mask as u32 & !(1u32 << id)) & 0xFF) as u8
    }
}

/// Whether render target `id` blends under the blend enable mask `mask`.
pub open spec fn blend_enabled(mask: u8, id: u32) -> bool {
    mask as u32 & (1u32 << id) != 0
}

/// Turning blending of one of the eight render targets on or off shows when that target is
/// asked for, and changes nothing for the others. For an `id` that is no render target the
/// mask stays as it is.
pub proof fn lemma_blend_enable(mask: u8, id: u32, enable: bool, other: u32)
    by (bit_vector)
    requires
        id < 32,
        other < 8,
    ensures
        id < 8 ==> blend_enabled(with_blend_enable(mask, id, enable), id) == enable,
        other != id ==> blend_enabled(with_blend_enable(mask, id, enable), other) == blend_enabled(
            mask,
            other,
        ),
        id >= 8 ==> with_blend_enable(mask, id, enable) == mask,
{
}

/// The fields of a color state.
pub struct ColorStateView {
    /// The render targets that blend, one bit for each of the eight.
    pub blend_enable_mask: u8,
    pub logic_op: LogicOp,
    /// The alpha test that a fragment must pass.
    pub alpha_compare_op: CompareOp,
}

impl ColorStateView {
    /// The state of the hardware after a reset: no render target blends, colors are copied,
    /// and the alpha test always passes.
    pub open spec fn defaults() -> ColorStateView {
        ColorStateView {
            blend_enable_mask: 0,
            logic_op: LogicOp::Copy,
            alpha_compare_op: CompareOp::Always,
        }
    }

    /// Every state of these fields can be packed.
    pub open spec fn is_legal(self) -> bool {
        true
    }
}

/// Fixed-function configuration of the color outputs, packed into one word.
///
/// | bits  | field             |
/// |-------|-------------------|
/// | 0-7   | blend enable mask |
/// | 8-15  | logic operation   |
/// | 16-23 | alpha comparison  |
/// | 24-31 | zero              |
#[derive(Debug, Copy, Clone, PartialEq, Eq, Hash)]
pub struct ColorState {
    bits: u32,
}

impl View for ColorState {
    type V = ColorStateView;

    closed spec fn view(&self) -> ColorStateView {
        ColorState::unpack(self.bits)
    }
}

impl ColorState {
    /// The word made of the field values, each at its place.
    pub open spec fn pack_fields(
        blend_enable_mask: u32,
        logic_op: u32,
        alpha_compare_op: u32,
    ) -> u32 {
        blend_enable_mask | (logic_op << 8u32) | (alpha_compare_op << 16u32)
    }

    /// The word that holds the state `view`.
    pub open spec fn pack(view: ColorStateView) -> u32 {
        ColorState::pack_fields(
            view.blend_enable_mask as u32,
            view.logic_op.raw(),
            view.alpha_compare_op.raw(),
        )
    }

    /// The state that the word holds.
    pub open spec fn unpack(bits: u32) -> ColorStateView {
        ColorStateView {
            blend_enable_mask: extract(bits, 0, 8) as u8,
            logic_op: LogicOp::of_raw(extract(bits, 8, 8)),
            alpha_compare_op: CompareOp::of_raw(extract(bits, 16, 8)),
        }
    }

    /// The words that hold a state: the logic operation and the comparison are numbers of
    /// one, and the bits above the fields are zero.
    pub open spec fn is_packed(bits: u32) -> bool {
        &&& LogicOp::is_raw(extract(bits, 8, 8))
        &&& CompareOp::is_raw(extract(bits, 16, 8))
        &&& extract(bits, 24, 8) == 0
    }

    #[verifier::type_invariant]
    spec fn well_formed(&self) -> bool {
        ColorState::is_packed(self.bits)
    }

    proof fn lemma_fields_of_pack(word: u32, a0: u32, a1: u32, a2: u32)
        by (bit_vector)
        requires
            word == ColorState::pack_fields(a0, a1, a2),
            a0 <= 0xFF,
            a1 <= 0xFF,
            a2 <= 0xFF,
        ensures
            extract(word, 0, 8) == a0,
            extract(word, 8, 8) == a1,
            extract(word, 16, 8) == a2,
            extract(word, 24, 8) == 0,
            ColorState::pack_fields(0, 3, 8) == 0x80300,
    {
    }

    proof fn lemma_pack_of_fields(bits: u32)
        by (bit_vector)
        requires
            extract(bits, 24, 8) == 0,
        ensures
            ColorState::pack_fields(
                extract(bits, 0, 8),
                extract(bits, 8, 8),
                extract(bits, 16, 8),
            ) == bits,
    {
    }

    /// What is read back from the packed word after the state `view` was put there.
    pub open spec fn read_back(view: ColorStateView) -> ColorStateView {
        ColorState::unpack(ColorState::pack(view))
    }

    /// Packing a legal state and unpacking the word gives the state back: every field
    /// holds every value of its domain, whatever the other fields hold. The word
    /// is one that holds a state.
    pub proof fn lemma_unpack_pack(view: ColorStateView)
        requires
            view.is_legal(),
        ensures
            ColorState::read_back(view) == view,
            ColorState::is_packed(ColorState::pack(view)),
    {
        ColorState::lemma_fields_of_pack(
            ColorState::pack(view),
            view.blend_enable_mask as u32,
            view.logic_op.raw(),
            view.alpha_compare_op.raw(),
        );
    }

    /// Unpacking a word that holds a state and packing the state gives the word back:
    /// a state has one packed form. The state is legal.
    pub proof fn lemma_pack_unpack(bits: u32)
        requires
            ColorState::is_packed(bits),
        ensures
            ColorState::pack(ColorState::unpack(bits)) == bits,
            ColorState::unpack(bits).is_legal(),
    {
        lemma_fields();
        ColorState::lemma_pack_of_fields(bits);
    }

    /// A field that is set on the reset state reads back as it was set. This holds of every
    /// field and of every value of its domain: here each field in turn is set to what it is
    /// in `view`.
    pub proof fn lemma_set_then_get(view: ColorStateView)
        requires
            view.is_legal(),
        ensures
            ColorState::read_back(
                ColorStateView {
                    blend_enable_mask: view.blend_enable_mask,
                    ..ColorStateView::defaults()
                },
            ).blend_enable_mask == view.blend_enable_mask,
            ColorState::read_back(
                ColorStateView { logic_op: view.logic_op, ..ColorStateView::defaults() },
            ).logic_op == view.logic_op,
            ColorState::read_back(
                ColorStateView {
                    alpha_compare_op: view.alpha_compare_op,
                    ..ColorStateView::defaults()
                },
            ).alpha_compare_op == view.alpha_compare_op,
    {
        ColorState::lemma_unpack_pack(
            ColorStateView {
                blend_enable_mask: view.blend_enable_mask,
                ..ColorStateView::defaults()
            },
        );
        ColorState::lemma_unpack_pack(
            ColorStateView { logic_op: view.logic_op, ..ColorStateView::defaults() },
        );
        ColorState::lemma_unpack_pack(
            ColorStateView {
                alpha_compare_op: view.alpha_compare_op,
                ..ColorStateView::defaults()
            },
        );
    }

    /// The state of the hardware after a reset.
    pub fn new() -> (state: ColorState)
        ensures
            state@ == ColorStateView::defaults(),
    {
        proof {
            ColorState::lemma_fields_of_pack(
                ColorState::pack_fields(0, 3, 8),
                0,
                3,
                8,
            );
        }
        ColorState { bits: 0x80300 }
    }

    /// The packed word, as it is bound into a command stream.
    pub fn to_bits(&self) -> (bits: u32)
        ensures
            bits == ColorState::pack(self@),
            ColorState::unpack(bits) == self@,
            ColorState::is_packed(bits),
    {
        proof {
            use_type_invariant(self);
            ColorState::lemma_pack_unpack(self.bits);
        }
        self.bits
    }

    /// Turns blending of render target `id` on or off. There are eight render targets; for
    /// a larger `id` nothing changes.
    pub fn set_blend_enable(&mut self, id: u32, enable: bool) -> (ret: &mut Self)
        requires
            id < 32,
        ensures
            ret@ == (ColorStateView {
                blend_enable_mask: with_blend_enable(old(self)@.blend_enable_mask, id, enable),
                ..old(self)@
            }),
            id < 8 ==> blend_enabled(ret@.blend_enable_mask, id) == enable,
            id >= 8 ==> ret@ == old(self)@,
            *final(self) == *final(ret),
    {
        proof {
            use_type_invariant(&*self);
            lemma_fields();
            lemma_blend_enable(self@.blend_enable_mask, id, enable, 0);
        }
        let mask = get_field(self.bits, 0, 8);
        let mask = if enable {
            mask | (1u32 << id)
        } else {
            mask & !(1u32 << id)
        };
        self.bits = set_field(self.bits, 0, 8, mask);
        self
    }

    pub fn set_blend_enable_mask(&mut self, mask: u8) -> (ret: &mut Self)
        ensures
            ret@ == (ColorStateView { blend_enable_mask: mask, ..old(self)@ }),
            *final(self) == *final(ret),
    {
        proof {
            use_type_invariant(&*self);
            lemma_fields();
        }
        self.bits = set_field(self.bits, 0, 8, mask as u32);
        self
    }

    pub fn set_logic_op(&mut self, op: LogicOp) -> (ret: &mut Self)
        ensures
            ret@ == (ColorStateView { logic_op: op, ..old(self)@ }),
            *final(self) == *final(ret),
    {
        proof {
            use_type_invariant(&*self);
            lemma_fields();
        }
        self.bits = set_field(self.bits, 8, 8, op.to_raw());
        self
    }

    pub fn set_alpha_compare_op(&mut self, op: CompareOp) -> (ret: &mut Self)
        ensures
            ret@ == (ColorStateView { alpha_compare_op: op, ..old(self)@ }),
            *final(self) == *final(ret),
    {
        proof {
            use_type_invariant(&*self);
            lemma_fields();
        }
        self.bits = set_field(self.bits, 16, 8, op.to_raw());
        self
    }

    /// Whether render target `id` blends.
    pub fn get_blend_enable(&self, id: u32) -> (enable: bool)
        requires
            id < 32,
        ensures
            enable == blend_enabled(self@.blend_enable_mask, id),
    {
        proof {
            lemma_fields();
        }
        (get_field(self.bits, 0, 8) & (1u32 << id)) != 0
    }

    pub fn get_blend_enable_mask(&self) -> (mask: u8)
        ensures
            mask == self@.blend_enable_mask,
    {
        proof {
            lemma_fields();
        }
        get_field(self.bits, 0, 8) as u8
    }

    pub fn get_logic_op(&self) -> (op: LogicOp)
        ensures
            op == self@.logic_op,
    {
        proof {
            use_type_invariant(self);
        }
        LogicOp::from(get_field(self.bits, 8, 8))
    }

    pub fn get_alpha_compare_op(&self) -> (op: CompareOp)
        ensures
            op == self@.alpha_compare_op,
    {
        proof {
            use_type_invariant(self);
        }
        CompareOp::from(get_field(self.bits, 16, 8))
    }
}

/// A set of color components.
#[derive(Debug, Copy, Clone, PartialEq, Eq, Hash, Structural)]
pub struct ColorMask {
    bits: u32,
}

impl View for ColorMask {
    type V = u32;

    /// The bits that are set.
    closed spec fn view(&self) -> u32 {
        self.bits
    }
}

impl ColorMask {
    /// Every bit that a flag of this set uses.
    pub open spec fn all_bits() -> u32 {
        0xF
    }

    #[verifier::type_invariant]
    spec fn holds_known_bits_only(&self) -> bool {
        within(self.bits, ColorMask::all_bits())
    }

    proof fn lemma_flag_values()
        by (bit_vector)
        ensures
            within(0x1, 0xF),
            within(0x2, 0xF),
            within(0x4, 0xF),
            within(0x8, 0xF),
            within(0x7, 0xF),
            within(0xF, 0xF),
    {
    }

    /// The set without any flag.
    pub fn empty() -> (flags: Self)
        ensures
            flags@ == 0,
    {
        proof {
            lemma_within(0, 0, ColorMask::all_bits());
        }
        ColorMask { bits: 0 }
    }

    /// The set of all flags.
    pub fn all() -> (flags: Self)
        ensures
            flags@ == ColorMask::all_bits(),
    {
        proof {
            ColorMask::lemma_flag_values();
        }
        ColorMask { bits: 0xF }
    }

    /// The red component.
    pub fn r() -> (flags: Self)
        ensures
            flags@ == 0x1,
    {
        proof {
            ColorMask::lemma_flag_values();
        }
        ColorMask { bits: 0x1 }
    }

    /// The green component.
    pub fn g() -> (flags: Self)
        ensures
            flags@ == 0x2,
    {
        proof {
            ColorMask::lemma_flag_values();
        }
        ColorMask { bits: 0x2 }
    }

    /// The blue component.
    pub fn b() -> (flags: Self)
        ensures
            flags@ == 0x4,
    {
        proof {
            ColorMask::lemma_flag_values();
        }
        ColorMask { bits: 0x4 }
    }

    /// The alpha component.
    pub fn a() -> (flags: Self)
        ensures
            flags@ == 0x8,
    {
        proof {
            ColorMask::lemma_flag_values();
        }
        ColorMask { bits: 0x8 }
    }

    /// Red, green and blue.
    pub fn rgb() -> (flags: Self)
        ensures
            flags@ == 0x7,
    {
        proof {
            ColorMask::lemma_flag_values();
        }
        ColorMask { bits: 0x7 }
    }

    /// All four components.
    pub fn rgba() -> (flags: Self)
        ensures
            flags@ == 0xF,
    {
        proof {
            ColorMask::lemma_flag_values();
        }
        ColorMask { bits: 0xF }
    }

    pub fn bits(&self) -> (bits: u32)
        ensures
            bits == self@,
            within(bits, ColorMask::all_bits()),
    {
        proof {
            use_type_invariant(self);
        }
        self.bits
    }

    /// The flags among `bits`; bits that belong to no flag are dropped.
    pub fn from_bits_truncate(bits: u32) -> (flags: Self)
        ensures
            flags@ == bits & ColorMask::all_bits(),
            within(bits, ColorMask::all_bits()) ==> flags@ == bits,
    {
        proof {
            lemma_within(bits, 0, ColorMask::all_bits());
        }
        ColorMask { bits: bits & 0xF }
    }

    /// The flags of either set.
    pub fn union(self, other: Self) -> (flags: Self)
        ensures
            flags@ == self@ | other@,
    {
        proof {
            use_type_invariant(self);
            use_type_invariant(other);
            lemma_within(self.bits, other.bits, ColorMask::all_bits());
        }
        ColorMask { bits: self.bits | other.bits }
    }

    /// Whether every flag of `other` is in this set.
    pub fn contains(&self, other: Self) -> (yes: bool)
        ensures
            yes == (self@ & other@ == other@),
    {
        self.bits & other.bits == other.bits
    }
}

/// The write masks of the eight render targets, four bits each, packed into one word: the
/// mask of render target `i` is in bits `4 i` to `4 i + 3`. A mask holds the bits of a
/// `ColorMask`.
#[derive(Debug, Copy, Clone, PartialEq, Eq, Hash)]
pub struct ColorWriteState {
    masks: u32,
}

impl View for ColorWriteState {
    type V = Seq<u32>;

    /// The write mask of each of the eight render targets.
    closed spec fn view(&self) -> Seq<u32> {
        ColorWriteState::unpack(self.masks)
    }
}

impl ColorWriteState {
    /// The word that holds the eight masks.
    pub open spec fn pack(masks: Seq<u32>) -> u32 {
        ColorWriteState::pack_fields(
            masks[0],
            masks[1],
            masks[2],
            masks[3],
            masks[4],
            masks[5],
            masks[6],
            masks[7],
        )
    }

    /// The word made of eight masks, each at its place.
    pub open spec fn pack_fields(
        m0: u32,
        m1: u32,
        m2: u32,
        m3: u32,
        m4: u32,
        m5: u32,
        m6: u32,
        m7: u32,
    ) -> u32 {
        m0 | (m1 << 4u32) | (m2 << 8u32) | (m3 << 12u32) | (m4 << 16u32) | (m5 << 20u32) | (m6
            << 24u32) | (m7 << 28u32)
    }

    /// The eight masks that the word holds.
    pub open spec fn unpack(word: u32) -> Seq<u32> {
        Seq::new(8, |i: int| extract(word, (4 * i) as u32, 4))
    }

    /// Eight masks of four bits each.
    pub open spec fn is_legal(masks: Seq<u32>) -> bool {
        masks.len() == 8 && forall|i: int| 0 <= i < 8 ==> #[trigger] masks[i] <= 0xF
    }

    proof fn lemma_fields_of_pack(
        word: u32,
        m0: u32,
        m1: u32,
        m2: u32,
        m3: u32,
        m4: u32,
        m5: u32,
        m6: u32,
        m7: u32,
    )
        by (bit_vector)
        requires
            word == ColorWriteState::pack_fields(m0, m1, m2, m3, m4, m5, m6, m7),
            m0 <= 0xF,
            m1 <= 0xF,
            m2 <= 0xF,
            m3 <= 0xF,
            m4 <= 0xF,
            m5 <= 0xF,
            m6 <= 0xF,
            m7 <= 0xF,
        ensures
            extract(word, 0, 4) == m0,
            extract(word, 4, 4) == m1,
            extract(word, 8, 4) == m2,
            extract(word, 12, 4) == m3,
            extract(word, 16, 4) == m4,
            extract(word, 20, 4) == m5,
            extract(word, 24, 4) == m6,
            extract(word, 28, 4) == m7,
    {
    }

    proof fn lemma_pack_of_fields(word: u32)
        by (bit_vector)
        ensures
            ColorWriteState::pack_fields(
                extract(word, 0, 4),
                extract(word, 4, 4),
                extract(word, 8, 4),
                extract(word, 12, 4),
                extract(word, 16, 4),
                extract(word, 20, 4),
                extract(word, 24, 4),
                extract(word, 28, 4),
            ) == word,
            extract(0xFFFF_FFFF, 0, 4) == 0xF,
            extract(0xFFFF_FFFF, 4, 4) == 0xF,
            extract(0xFFFF_FFFF, 8, 4) == 0xF,
            extract(0xFFFF_FFFF, 12, 4) == 0xF,
            extract(0xFFFF_FFFF, 16, 4) == 0xF,
            extract(0xFFFF_FFFF, 20, 4) == 0xF,
            extract(0xFFFF_FFFF, 24, 4) == 0xF,
            extract(0xFFFF_FFFF, 28, 4) == 0xF,
    {
    }

    /// Packing eight masks and unpacking the word gives the masks back: the mask of each
    /// render target holds every set of components, whatever the others hold.
    pub proof fn lemma_unpack_pack(masks: Seq<u32>)
        requires
            ColorWriteState::is_legal(masks),
        ensures
            ColorWriteState::unpack(ColorWriteState::pack(masks)) == masks,
    {
        ColorWriteState::lemma_fields_of_pack(
            ColorWriteState::pack(masks),
            masks[0],
            masks[1],
            masks[2],
            masks[3],
            masks[4],
            masks[5],
            masks[6],
            masks[7],
        );
        assert(ColorWriteState::unpack(ColorWriteState::pack(masks)) =~= masks);
    }

    /// Unpacking a word and packing the masks gives the word back; every word holds eight
    /// masks.
    pub proof fn lemma_pack_unpack(word: u32)
        ensures
            ColorWriteState::pack(ColorWriteState::unpack(word)) == word,
            ColorWriteState::is_legal(ColorWriteState::unpack(word)),
    {
        lemma_fields();
        ColorWriteState::lemma_pack_of_fields(word);
    }

    /// The mask that is set for a render target reads back as it was set, from the packed
    /// word in which the masks are kept, and the masks of the other render targets stay.
    pub proof fn lemma_set_then_get(masks: Seq<u32>, id: int, mask: u32)
        requires
            ColorWriteState::is_legal(masks),
            0 <= id < 8,
            mask <= 0xF,
        ensures
            ColorWriteState::unpack(ColorWriteState::pack(masks.update(id, mask)))[id] == mask,
            forall|other: int|
                0 <= other < 8 && other != id ==> ColorWriteState::unpack(
                    ColorWriteState::pack(masks.update(id, mask)),
                )[other] == masks[other],
    {
        ColorWriteState::lemma_unpack_pack(masks.update(id, mask));
    }

    /// The state of the hardware after a reset: every component reaches every render
    /// target.
    pub fn new() -> (state: ColorWriteState)
        ensures
            state@ == Seq::new(8, |i: int| 0xFu32),
    {
        proof {
            ColorWriteState::lemma_pack_of_fields(0xFFFF_FFFF);
            assert(ColorWriteState::unpack(0xFFFF_FFFF) =~= Seq::new(8, |i: int| 0xFu32));
        }
        ColorWriteState { masks: 0xFFFF_FFFF }
    }

    /// The packed word, as it is bound into a command stream.
    pub fn to_bits(&self) -> (bits: u32)
        ensures
            bits == ColorWriteState::pack(self@),
            ColorWriteState::unpack(bits) == self@,
    {
        proof {
            ColorWriteState::lemma_pack_unpack(self.masks);
        }
        self.masks
    }

    /// Sets the write mask of render target `id` to the four low bits of `mask`.
    pub fn set_mask(&mut self, id: u32, mask: u32) -> (ret: &mut Self)
        requires
            id < 8,
        ensures
            ret@ == old(self)@.update(id as int, mask & 0xF),
            mask <= 0xF ==> ret@[id as int] == mask,
            *final(self) == *final(ret),
    {
        proof {
            lemma_fields();
        }
        let ghost before = self.masks;
        self.masks = set_field(self.masks, id * 4, 4, mask);
        proof {
            assert(ColorWriteState::unpack(self.masks) =~= ColorWriteState::unpack(before).update(
                id as int,
                mask & 0xF,
            ));
        }
        self
    }
}

} // verus!
