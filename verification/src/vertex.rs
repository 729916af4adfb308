//! Vertex input: the description of each vertex attribute and of each vertex buffer.

use crate::bits::{bit_of, extract, flag_bit, get_field, lemma_fields, set_field};
use vstd::pervasive::unreached;
use vstd::prelude::*;

verus! {

/// The number and the width of the components of a vertex attribute.
#[derive(Debug, Copy, Clone, PartialEq, Eq, Hash, Structural)]
pub enum VtxAttribSize {
    /// One component of 32 bits; the names that follow read alike.
    _1x32,
    _2x32,
    _3x32,
    _4x32,
    _1x16,
    _2x16,
    _3x16,
    _4x16,
    _1x8,
    _2x8,
    _3x8,
    _4x8,
    /// Three components of 10 bits and one of 2.
    _10_10_10_2,
    /// Two components of 11 bits and one of 10.
    _11_11_10,
}

impl VtxAttribSize {
    /// The number that stands for this value in driver structures and command streams.
    pub open spec fn raw(self) -> u32 {
        match self {
            VtxAttribSize::_1x32 => 0x12,
            VtxAttribSize::_2x32 => 0x04,
            VtxAttribSize::_3x32 => 0x02,
            VtxAttribSize::_4x32 => 0x01,
            VtxAttribSize::_1x16 => 0x1B,
            VtxAttribSize::_2x16 => 0x0F,
            VtxAttribSize::_3x16 => 0x05,
            VtxAttribSize::_4x16 => 0x03,
            VtxAttribSize::_1x8 => 0x1D,
            VtxAttribSize::_2x8 => 0x18,
            VtxAttribSize::_3x8 => 0x13,
            VtxAttribSize::_4x8 => 0x0A,
            VtxAttribSize::_10_10_10_2 => 0x30,
            VtxAttribSize::_11_11_10 => 0x31,
        }
    }

    /// Whether `code` is the number of some value of this type.
    pub open spec fn is_raw(code: u32) -> bool {
        0x01 <= code <= 0x05
            || code == 0x0A
            || code == 0x0F
            || 0x12 <= code <= 0x13
            || code == 0x18
            || code == 0x1B
            || code == 0x1D
            || 0x30 <= code <= 0x31
    }

    /// The value whose number is `code`; it means nothing where `code` is no such number.
    pub open spec fn of_raw(code: u32) -> VtxAttribSize {
        match code {
            0x12 => VtxAttribSize::_1x32,
            0x04 => VtxAttribSize::_2x32,
            0x02 => VtxAttribSize::_3x32,
            0x01 => VtxAttribSize::_4x32,
            0x1B => VtxAttribSize::_1x16,
            0x0F => VtxAttribSize::_2x16,
            0x05 => VtxAttribSize::_3x16,
            0x03 => VtxAttribSize::_4x16,
            0x1D => VtxAttribSize::_1x8,
            0x18 => VtxAttribSize::_2x8,
            0x13 => VtxAttribSize::_3x8,
            0x0A => VtxAttribSize::_4x8,
            0x30 => VtxAttribSize::_10_10_10_2,
            0x31 => VtxAttribSize::_11_11_10,
            _ => arbitrary(),
        }
    }

    pub fn to_raw(self) -> (code: u32)
        ensures
            code == self.raw(),
            VtxAttribSize::is_raw(code),
            VtxAttribSize::of_raw(code) == self,
    {
        match self {
            VtxAttribSize::_1x32 => 0x12,
            VtxAttribSize::_2x32 => 0x04,
            VtxAttribSize::_3x32 => 0x02,
            VtxAttribSize::_4x32 => 0x01,
            VtxAttribSize::_1x16 => 0x1B,
            VtxAttribSize::_2x16 => 0x0F,
            VtxAttribSize::_3x16 => 0x05,
            VtxAttribSize::_4x16 => 0x03,
            VtxAttribSize::_1x8 => 0x1D,
            VtxAttribSize::_2x8 => 0x18,
            VtxAttribSize::_3x8 => 0x13,
            VtxAttribSize::_4x8 => 0x0A,
            VtxAttribSize::_10_10_10_2 => 0x30,
            VtxAttribSize::_11_11_10 => 0x31,
        }
    }

    pub fn is_valid_raw(code: u32) -> (valid: bool)
        ensures
            valid == VtxAttribSize::is_raw(code),
    {
        (0x01 <= code && code <= 0x05)
            || code == 0x0A
            || code == 0x0F
            || (0x12 <= code && code <= 0x13)
            || code == 0x18
            || code == 0x1B
            || code == 0x1D
            || (0x30 <= code && code <= 0x31)
    }

    /// Reads a number handed back by the driver. Numbers that stand for no value are
    /// left to the caller, who can tell them apart with `is_valid_raw`.
    pub fn from(code: u32) -> (value: VtxAttribSize)
        requires
            VtxAttribSize::is_raw(code),
        ensures
            value == VtxAttribSize::of_raw(code),
            value.raw() == code,
    {
        match code {
            0x12 => VtxAttribSize::_1x32,
            0x04 => VtxAttribSize::_2x32,
            0x02 => VtxAttribSize::_3x32,
            0x01 => VtxAttribSize::_4x32,
            0x1B => VtxAttribSize::_1x16,
            0x0F => VtxAttribSize::_2x16,
            0x05 => VtxAttribSize::_3x16,
            0x03 => VtxAttribSize::_4x16,
            0x1D => VtxAttribSize::_1x8,
            0x18 => VtxAttribSize::_2x8,
            0x13 => VtxAttribSize::_3x8,
            0x0A => VtxAttribSize::_4x8,
            0x30 => VtxAttribSize::_10_10_10_2,
            0x31 => VtxAttribSize::_11_11_10,
            _ => unreached(),
        }
    }
}

/// How the components of a vertex attribute are read.
#[derive(Debug, Copy, Clone, PartialEq, Eq, Hash, Structural)]
pub enum VtxAttribType {
    NoType,
    /// Signed, scaled to the range from -1 to 1.
    Snorm,
    /// Unsigned, scaled to the range from 0 to 1.
    Unorm,
    /// Signed integers.
    Sint,
    /// Unsigned integers.
    Uint,
    /// Unsigned integers turned into floating point.
    Uscaled,
    /// Signed integers turned into floating point.
    Sscaled,
    Float,
}

impl VtxAttribType {
    /// The number that stands for this value in driver structures and command streams.
    pub open spec fn raw(self) -> u32 {
        match self {
            VtxAttribType::NoType => 0,
            VtxAttribType::Snorm => 1,
            VtxAttribType::Unorm => 2,
            VtxAttribType::Sint => 3,
            VtxAttribType::Uint => 4,
            VtxAttribType::Uscaled => 5,
            VtxAttribType::Sscaled => 6,
            VtxAttribType::Float => 7,
        }
    }

    /// Whether `code` is the number of some value of this type.
    pub open spec fn is_raw(code: u32) -> bool {
        code <= 7
    }

    /// The value whose number is `code`; it means nothing where `code` is no such number.
    pub open spec fn of_raw(code: u32) -> VtxAttribType {
        match code {
            0 => VtxAttribType::NoType,
            1 => VtxAttribType::Snorm,
            2 => VtxAttribType::Unorm,
            3 => VtxAttribType::Sint,
            4 => VtxAttribType::Uint,
            5 => VtxAttribType::Uscaled,
            6 => VtxAttribType::Sscaled,
            7 => VtxAttribType::Float,
            _ => arbitrary(),
        }
    }

    pub fn to_raw(self) -> (code: u32)
        ensures
            code == self.raw(),
            VtxAttribType::is_raw(code),
            VtxAttribType::of_raw(code) == self,
    {
        match self {
            VtxAttribType::NoType => 0,
            VtxAttribType::Snorm => 1,
            VtxAttribType::Unorm => 2,
            VtxAttribType::Sint => 3,
            VtxAttribType::Uint => 4,
            VtxAttribType::Uscaled => 5,
            VtxAttribType::Sscaled => 6,
            VtxAttribType::Float => 7,
        }
    }

    pub fn is_valid_raw(code: u32) -> (valid: bool)
        ensures
            valid == VtxAttribType::is_raw(code),
    {
        code <= 7
    }

    /// Reads a number handed back by the driver. Numbers that stand for no value are
    /// left to the caller, who can tell them apart with `is_valid_raw`.
    pub fn from(code: u32) -> (value: VtxAttribType)
        requires
            VtxAttribType::is_raw(code),
        ensures
            value == VtxAttribType::of_raw(code),
            value.raw() == code,
    {
        match code {
            0 => VtxAttribType::NoType,
            1 => VtxAttribType::Snorm,
            2 => VtxAttribType::Unorm,
            3 => VtxAttribType::Sint,
            4 => VtxAttribType::Uint,
            5 => VtxAttribType::Uscaled,
            6 => VtxAttribType::Sscaled,
            7 => VtxAttribType::Float,
            _ => unreached(),
        }
    }
}

/// The fields of a vertex attribute state.
pub struct VtxAttribStateView {
    /// The vertex buffer that the attribute is read from, 0 to 31.
    pub buffer_id: u8,
    /// The attribute has one value for all vertices.
    pub is_fixed: bool,
    /// Where the attribute starts within a vertex, in bytes.
    pub offset: u16,
    /// The size of the attribute, once one has been chosen.
    pub size: Option<VtxAttribSize>,
    pub attrib_type: VtxAttribType,
    /// The first and third component change places.
    pub is_bgra: bool,
}

impl VtxAttribStateView {
    /// A fresh description: everything zero, and no size chosen.
    pub open spec fn defaults() -> VtxAttribStateView {
        VtxAttribStateView {
            buffer_id: 0,
            is_fixed: false,
            offset: 0,
            size: None,
            attrib_type: VtxAttribType::NoType,
            is_bgra: false,
        }
    }

    /// The buffer id fits its five bits and the offset its fourteen.
    pub open spec fn is_legal(self) -> bool {
        &&& self.buffer_id <= 0x1F
        &&& self.offset <= 0x3FFF
    }
}

/// The description of one vertex attribute, packed into one word.
///
/// | bits  | field      |
/// |-------|------------|
/// | 0-4   | buffer id  |
/// | 5     | zero       |
/// | 6     | is fixed   |
/// | 7-20  | offset     |
/// | 21-26 | size       |
/// | 27-29 | type       |
/// | 30    | zero       |
/// | 31    | is BGRA    |
#[derive(Debug, Copy, Clone, PartialEq, Eq, Hash)]
pub struct VtxAttribState {
    bits: u32,
}

impl View for VtxAttribState {
    type V = VtxAttribStateView;

    closed spec fn view(&self) -> VtxAttribStateView {
        VtxAttribState::unpack(self.bits)
    }
}

impl VtxAttribState {
    /// The word made of the field values, each at its place.
    pub open spec fn pack_fields(
        buffer_id: u32,
        is_fixed: u32,
        offset: u32,
        size: u32,
        attrib_type: u32,
        is_bgra: u32,
    ) -> u32 {
        buffer_id | (is_fixed << 6u32) | (offset << 7u32) | (size << 21u32)
            | (attrib_type << 27u32) | (is_bgra << 31u32)
    }

    /// The word that holds the state `view`.
    pub open spec fn pack(view: VtxAttribStateView) -> u32 {
        VtxAttribState::pack_fields(
            view.buffer_id as u32,
            flag_bit(view.is_fixed),
            view.offset as u32,
            match view.size {
                Some(value) => value.raw(),
                None => 0,
            },
            view.attrib_type.raw(),
            flag_bit(view.is_bgra),
        )
    }

    /// The state that the word holds.
    pub open spec fn unpack(bits: u32) -> VtxAttribStateView {
        VtxAttribStateView {
            buffer_id: extract(bits, 0, 5) as u8,
            is_fixed: extract(bits, 6, 1) != 0,
            offset: extract(bits, 7, 14) as u16,
            size: if extract(bits, 21, 6) == 0 {
                None
            } else {
                Some(VtxAttribSize::of_raw(extract(bits, 21, 6)))
            },
            attrib_type: VtxAttribType::of_raw(extract(bits, 27, 3)),
            is_bgra: extract(bits, 31, 1) != 0,
        }
    }

    /// The words that hold a state: the size is zero or the number of a size, and the two
    /// unused bits are zero.
    pub open spec fn is_packed(bits: u32) -> bool {
        &&& (extract(bits, 21, 6) == 0 || VtxAttribSize::is_raw(extract(bits, 21, 6)))
        &&& extract(bits, 5, 1) == 0
        &&& extract(bits, 30, 1) == 0
    }

    #[verifier::type_invariant]
    spec fn well_formed(&self) -> bool {
        VtxAttribState::is_packed(self.bits)
    }

    proof fn lemma_fields_of_pack(word: u32, a0: u32, a1: u32, a2: u32, a3: u32, a4: u32, a5: u32)
        by (bit_vector)
        requires
            word == VtxAttribState::pack_fields(a0, a1, a2, a3, a4, a5),
            a0 <= 0x1F,
            a1 <= 1,
            a2 <= 0x3FFF,
            a3 <= 0x3F,
            a4 <= 7,
            a5 <= 1,
        ensures
            extract(word, 0, 5) == a0,
            extract(word, 6, 1) == a1,
            extract(word, 7, 14) == a2,
            extract(word, 21, 6) == a3,
            extract(word, 27, 3) == a4,
            extract(word, 31, 1) == a5,
            extract(word, 5, 1) == 0,
            extract(word, 30, 1) == 0,
            VtxAttribState::pack_fields(0, 0, 0, 0, 0, 0) == 0x0,
    {
    }

    proof fn lemma_pack_of_fields(bits: u32)
        by (bit_vector)
        requires
            extract(bits, 5, 1) == 0,
            extract(bits, 30, 1) == 0,
        ensures
            VtxAttribState::pack_fields(
                extract(bits, 0, 5),
                extract(bits, 6, 1),
                extract(bits, 7, 14),
                extract(bits, 21, 6),
                extract(bits, 27, 3),
                extract(bits, 31, 1),
            ) == bits,
    {
    }

    /// What is read back from the packed word after the state `view` was put there.
    pub open spec fn read_back(view: VtxAttribStateView) -> VtxAttribStateView {
        VtxAttribState::unpack(VtxAttribState::pack(view))
    }

    /// Packing a legal state and unpacking the word gives the state back: every field
    /// holds every value of its domain, whatever the other fields hold. The word
    /// is one that holds a state.
    pub proof fn lemma_unpack_pack(view: VtxAttribStateView)
        requires
            view.is_legal(),
        ensures
            VtxAttribState::read_back(view) == view,
            VtxAttribState::is_packed(VtxAttribState::pack(view)),
    {
        VtxAttribState::lemma_fields_of_pack(
            VtxAttribState::pack(view),
            view.buffer_id as u32,
            flag_bit(view.is_fixed),
            view.offset as u32,
            match view.size {
            Some(value) => value.raw(),
            None => 0,
        },
            view.attrib_type.raw(),
            flag_bit(view.is_bgra),
        );
    }

    /// Unpacking a word that holds a state and packing the state gives the word back:
    /// a state has one packed form. The state is legal.
    pub proof fn lemma_pack_unpack(bits: u32)
        requires
            VtxAttribState::is_packed(bits),
        ensures
            VtxAttribState::pack(VtxAttribState::unpack(bits)) == bits,
            VtxAttribState::unpack(bits).is_legal(),
    {
        lemma_fields();
        VtxAttribState::lemma_pack_of_fields(bits);
    }

    /// A field that is set on the reset state reads back as it was set. This holds of every
    /// field and of every value of its domain: here each field in turn is set to what it is
    /// in `view`.
    pub proof fn lemma_set_then_get(view: VtxAttribStateView)
        requires
            view.is_legal(),
        ensures
            VtxAttribState::read_back(
                VtxAttribStateView { buffer_id: view.buffer_id, ..VtxAttribStateView::defaults() },
            ).buffer_id == view.buffer_id,
            VtxAttribState::read_back(
                VtxAttribStateView { is_fixed: view.is_fixed, ..VtxAttribStateView::defaults() },
            ).is_fixed == view.is_fixed,
            VtxAttribState::read_back(
                VtxAttribStateView { offset: view.offset, ..VtxAttribStateView::defaults() },
            ).offset == view.offset,
            VtxAttribState::read_back(
                VtxAttribStateView { size: view.size, ..VtxAttribStateView::defaults() },
            ).size == view.size,
            VtxAttribState::read_back(
                VtxAttribStateView {
                    attrib_type: view.attrib_type,
                    ..VtxAttribStateView::defaults()
                },
            ).attrib_type == view.attrib_type,
            VtxAttribState::read_back(
                VtxAttribStateView { is_bgra: view.is_bgra, ..VtxAttribStateView::defaults() },
            ).is_bgra == view.is_bgra,
    {
        VtxAttribState::lemma_unpack_pack(
            VtxAttribStateView { buffer_id: view.buffer_id, ..VtxAttribStateView::defaults() },
        );
        VtxAttribState::lemma_unpack_pack(
            VtxAttribStateView { is_fixed: view.is_fixed, ..VtxAttribStateView::defaults() },
        );
        VtxAttribState::lemma_unpack_pack(
            VtxAttribStateView { offset: view.offset, ..VtxAttribStateView::defaults() },
        );
        VtxAttribState::lemma_unpack_pack(
            VtxAttribStateView { size: view.size, ..VtxAttribStateView::defaults() },
        );
        VtxAttribState::lemma_unpack_pack(
            VtxAttribStateView { attrib_type: view.attrib_type, ..VtxAttribStateView::defaults() },
        );
        VtxAttribState::lemma_unpack_pack(
            VtxAttribStateView { is_bgra: view.is_bgra, ..VtxAttribStateView::defaults() },
        );
    }

    /// A fresh description: everything zero, and no size chosen.
    pub fn new() -> (state: VtxAttribState)
        ensures
            state@ == VtxAttribStateView::defaults(),
    {
        proof {
            VtxAttribState::lemma_fields_of_pack(
                VtxAttribState::pack_fields(0, 0, 0, 0, 0, 0),
                0,
                0,
                0,
                0,
                0,
                0,
            );
        }
        VtxAttribState { bits: 0 }
    }

    /// The packed word, as it is bound into a command stream.
    pub fn to_bits(&self) -> (bits: u32)
        ensures
            bits == VtxAttribState::pack(self@),
            VtxAttribState::unpack(bits) == self@,
            VtxAttribState::is_packed(bits),
    {
        proof {
            use_type_invariant(self);
            VtxAttribState::lemma_pack_unpack(self.bits);
        }
        self.bits
    }

    /// Keeps the five low bits of `buffer_id`.
    pub fn set_buffer_id(&mut self, buffer_id: u8) -> (ret: &mut Self)
        ensures
            ret@ == (VtxAttribStateView { buffer_id: buffer_id & 0x1F, ..old(self)@ }),
            buffer_id <= 0x1F ==> ret@.buffer_id == buffer_id,
            *final(self) == *final(ret),
    {
        proof {
            use_type_invariant(&*self);
            lemma_fields();
        }
        self.bits = set_field(self.bits, 0, 5, buffer_id as u32);
        self
    }

    pub fn get_buffer_id(&self) -> (buffer_id: u8)
        ensures
            buffer_id == self@.buffer_id,
            buffer_id <= 0x1F,
    {
        proof {
            lemma_fields();
        }
        get_field(self.bits, 0, 5) as u8
    }

    pub fn set_is_fixed(&mut self, is_fixed: bool) -> (ret: &mut Self)
        ensures
            ret@ == (VtxAttribStateView { is_fixed, ..old(self)@ }),
            *final(self) == *final(ret),
    {
        proof {
            use_type_invariant(&*self);
            lemma_fields();
        }
        self.bits = set_field(self.bits, 6, 1, bit_of(is_fixed));
        self
    }

    pub fn get_is_fixed(&self) -> (is_fixed: bool)
        ensures
            is_fixed == self@.is_fixed,
    {
        get_field(self.bits, 6, 1) != 0
    }

    /// Keeps the fourteen low bits of `offset`.
    pub fn set_offset(&mut self, offset: u16) -> (ret: &mut Self)
        ensures
            ret@ == (VtxAttribStateView { offset: offset & 0x3FFF, ..old(self)@ }),
            offset <= 0x3FFF ==> ret@.offset == offset,
            *final(self) == *final(ret),
    {
        proof {
            use_type_invariant(&*self);
            lemma_fields();
        }
        self.bits = set_field(self.bits, 7, 14, offset as u32);
        self
    }

    pub fn get_offset(&self) -> (offset: u16)
        ensures
            offset == self@.offset,
            offset <= 0x3FFF,
    {
        proof {
            lemma_fields();
        }
        get_field(self.bits, 7, 14) as u16
    }

    pub fn set_size(&mut self, size: VtxAttribSize) -> (ret: &mut Self)
        ensures
            ret@ == (VtxAttribStateView { size: Some(size), ..old(self)@ }),
            *final(self) == *final(ret),
    {
        proof {
            use_type_invariant(&*self);
            lemma_fields();
        }
        self.bits = set_field(self.bits, 21, 6, size.to_raw());
        self
    }

    /// The size of the attribute. A fresh description has none: one must have been set.
    pub fn get_size(&self) -> (size: VtxAttribSize)
        requires
            self@.size is Some,
        ensures
            self@.size == Some(size),
    {
        proof {
            use_type_invariant(self);
        }
        VtxAttribSize::from(get_field(self.bits, 21, 6))
    }

    pub fn set_type(&mut self, attrib_type: VtxAttribType) -> (ret: &mut Self)
        ensures
            ret@ == (VtxAttribStateView { attrib_type, ..old(self)@ }),
            *final(self) == *final(ret),
    {
        proof {
            use_type_invariant(&*self);
            lemma_fields();
        }
        self.bits = set_field(self.bits, 27, 3, attrib_type.to_raw());
        self
    }

    pub fn get_type(&self) -> (attrib_type: VtxAttribType)
        ensures
            attrib_type == self@.attrib_type,
    {
        proof {
            lemma_fields();
        }
        VtxAttribType::from(get_field(self.bits, 27, 3))
    }

    pub fn set_is_bgra(&mut self, is_bgra: bool) -> (ret: &mut Self)
        ensures
            ret@ == (VtxAttribStateView { is_bgra, ..old(self)@ }),
            *final(self) == *final(ret),
    {
        proof {
            use_type_invariant(&*self);
            lemma_fields();
        }
        self.bits = set_field(self.bits, 31, 1, bit_of(is_bgra));
        self
    }

    pub fn get_is_bgra(&self) -> (is_bgra: bool)
        ensures
            is_bgra == self@.is_bgra,
    {
        get_field(self.bits, 31, 1) != 0
    }
}

/// How the vertices of one vertex buffer are laid out and stepped through.
#[derive(Debug, Copy, Clone, PartialEq, Eq, Hash, Structural)]
pub struct VtxBufferState {
    /// Bytes from one vertex to the next.
    pub stride: u32,
    /// Instances that share one value of the attributes of this buffer; zero where the
    /// attributes change with each vertex.
    pub divisor: u32,
}

impl VtxBufferState {
    /// A buffer of zero stride whose attributes change with each vertex.
    pub fn new() -> (state: VtxBufferState)
        ensures
            state == (VtxBufferState { stride: 0, divisor: 0 }),
    {
        VtxBufferState { stride: 0, divisor: 0 }
    }
}

} // verus!
