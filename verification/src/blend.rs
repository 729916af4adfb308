//! The blend state: how the color of a fragment is mixed with the color in a render target.

use crate::bits::{extract, lemma_fields, set_field};
use vstd::pervasive::unreached;
use vstd::prelude::*;

verus! {

/// How the weighted source and destination colors are combined.
#[derive(Debug, Copy, Clone, PartialEq, Eq, Hash, Structural)]
pub enum BlendOp {
    Add,
    /// Source minus destination.
    Sub,
    /// Destination minus source.
    RevSub,
    Min,
    Max,
}

impl BlendOp {
    /// The number that stands for this value in driver structures and command streams.
    pub open spec fn raw(self) -> u32 {
        match self {
            BlendOp::Add => 1,
            BlendOp::Sub => 2,
            BlendOp::RevSub => 3,
            BlendOp::Min => 4,
            BlendOp::Max => 5,
        }
    }

    /// Whether `code` is the number of some value of this type.
    pub open spec fn is_raw(code: u32) -> bool {
        1 <= code <= 5
    }

    /// The value whose number is `code`; it means nothing where `code` is no such number.
    pub open spec fn of_raw(code: u32) -> BlendOp {
        match code {
            1 => BlendOp::Add,
            2 => BlendOp::Sub,
            3 => BlendOp::RevSub,
            4 => BlendOp::Min,
            5 => BlendOp::Max,
            _ => arbitrary(),
        }
    }

    pub fn to_raw(self) -> (code: u32)
        ensures
            code == self.raw(),
            BlendOp::is_raw(code),
            BlendOp::of_raw(code) == self,
    {
        match self {
            BlendOp::Add => 1,
            BlendOp::Sub => 2,
            BlendOp::RevSub => 3,
            BlendOp::Min => 4,
            BlendOp::Max => 5,
        }
    }

    pub fn is_valid_raw(code: u32) -> (valid: bool)
        ensures
            valid == BlendOp::is_raw(code),
    {
        1 <= code && code <= 5
    }

    /// Reads a number handed back by the driver. Numbers that stand for no value are
    /// left to the caller, who can tell them apart with `is_valid_raw`.
    pub fn from(code: u32) -> (value: BlendOp)
        requires
            BlendOp::is_raw(code),
        ensures
            value == BlendOp::of_raw(code),
            value.raw() == code,
    {
        match code {
            1 => BlendOp::Add,
            2 => BlendOp::Sub,
            3 => BlendOp::RevSub,
            4 => BlendOp::Min,
            5 => BlendOp::Max,
            _ => unreached(),
        }
    }
}

/// The weight of a color in a blend.
#[derive(Debug, Copy, Clone, PartialEq, Eq, Hash, Structural)]
pub enum BlendFactor {
    Zero,
    One,
    SrcColor,
    InvSrcColor,
    SrcAlpha,
    InvSrcAlpha,
    DstAlpha,
    InvDstAlpha,
    DstColor,
    InvDstColor,
    SrcAlphaSaturate,
    Src1Color,
    InvSrc1Color,
    Src1Alpha,
    InvSrc1Alpha,
    ConstColor,
    InvConstColor,
    ConstAlpha,
    InvConstAlpha,
}

impl BlendFactor {
    /// The number that stands for this value in driver structures and command streams.
    pub open spec fn raw(self) -> u32 {
        match self {
            BlendFactor::Zero => 1,
            BlendFactor::One => 2,
            BlendFactor::SrcColor => 3,
            BlendFactor::InvSrcColor => 4,
            BlendFactor::SrcAlpha => 5,
            BlendFactor::InvSrcAlpha => 6,
            BlendFactor::DstAlpha => 7,
            BlendFactor::InvDstAlpha => 8,
            BlendFactor::DstColor => 9,
            BlendFactor::InvDstColor => 10,
            BlendFactor::SrcAlphaSaturate => 11,
            BlendFactor::Src1Color => 16,
            BlendFactor::InvSrc1Color => 17,
            BlendFactor::Src1Alpha => 18,
            BlendFactor::InvSrc1Alpha => 19,
            BlendFactor::ConstColor => 0x61,
            BlendFactor::InvConstColor => 0x62,
            BlendFactor::ConstAlpha => 0x63,
            BlendFactor::InvConstAlpha => 0x64,
        }
    }

    /// Whether `code` is the number of some value of this type.
    pub open spec fn is_raw(code: u32) -> bool {
        1 <= code <= 11 || 16 <= code <= 19 || 0x61 <= code <= 0x64
    }

    /// The value whose number is `code`; it means nothing where `code` is no such number.
    pub open spec fn of_raw(code: u32) -> BlendFactor {
        match code {
            1 => BlendFactor::Zero,
            2 => BlendFactor::One,
            3 => BlendFactor::SrcColor,
            4 => BlendFactor::InvSrcColor,
            5 => BlendFactor::SrcAlpha,
            6 => BlendFactor::InvSrcAlpha,
            7 => BlendFactor::DstAlpha,
            8 => BlendFactor::InvDstAlpha,
            9 => BlendFactor::DstColor,
            10 => BlendFactor::InvDstColor,
            11 => BlendFactor::SrcAlphaSaturate,
            16 => BlendFactor::Src1Color,
            17 => BlendFactor::InvSrc1Color,
            18 => BlendFactor::Src1Alpha,
            19 => BlendFactor::InvSrc1Alpha,
            0x61 => BlendFactor::ConstColor,
            0x62 => BlendFactor::InvConstColor,
            0x63 => BlendFactor::ConstAlpha,
            0x64 => BlendFactor::InvConstAlpha,
            _ => arbitrary(),
        }
    }

    pub fn to_raw(self) -> (code: u32)
        ensures
            code == self.raw(),
            BlendFactor::is_raw(code),
            BlendFactor::of_raw(code) == self,
    {
        match self {
            BlendFactor::Zero => 1,
            BlendFactor::One => 2,
            BlendFactor::SrcColor => 3,
            BlendFactor::InvSrcColor => 4,
            BlendFactor::SrcAlpha => 5,
            BlendFactor::InvSrcAlpha => 6,
            BlendFactor::DstAlpha => 7,
            BlendFactor::InvDstAlpha => 8,
            BlendFactor::DstColor => 9,
            BlendFactor::InvDstColor => 10,
            BlendFactor::SrcAlphaSaturate => 11,
            BlendFactor::Src1Color => 16,
            BlendFactor::InvSrc1Color => 17,
            BlendFactor::Src1Alpha => 18,
            BlendFactor::InvSrc1Alpha => 19,
            BlendFactor::ConstColor => 0x61,
            BlendFactor::InvConstColor => 0x62,
            BlendFactor::ConstAlpha => 0x63,
            BlendFactor::InvConstAlpha => 0x64,
        }
    }

    pub fn is_valid_raw(code: u32) -> (valid: bool)
        ensures
            valid == BlendFactor::is_raw(code),
    {
        (1 <= code && code <= 11) || (16 <= code && code <= 19) || (0x61 <= code && code <= 0x64)
    }

    /// Reads a number handed back by the driver. Numbers that stand for no value are
    /// left to the caller, who can tell them apart with `is_valid_raw`.
    pub fn from(code: u32) -> (value: BlendFactor)
        requires
            BlendFactor::is_raw(code),
        ensures
            value == BlendFactor::of_raw(code),
            value.raw() == code,
    {
        match code {
            1 => BlendFactor::Zero,
            2 => BlendFactor::One,
            3 => BlendFactor::SrcColor,
            4 => BlendFactor::InvSrcColor,
            5 => BlendFactor::SrcAlpha,
            6 => BlendFactor::InvSrcAlpha,
            7 => BlendFactor::DstAlpha,
            8 => BlendFactor::InvDstAlpha,
            9 => BlendFactor::DstColor,
            10 => BlendFactor::InvDstColor,
            11 => BlendFactor::SrcAlphaSaturate,
            16 => BlendFactor::Src1Color,
            17 => BlendFactor::InvSrc1Color,
            18 => BlendFactor::Src1Alpha,
            19 => BlendFactor::InvSrc1Alpha,
            0x61 => BlendFactor::ConstColor,
            0x62 => BlendFactor::InvConstColor,
            0x63 => BlendFactor::ConstAlpha,
            0x64 => BlendFactor::InvConstAlpha,
            _ => unreached(),
        }
    }
}

/// The fields of a blend state.
pub struct BlendStateView {
    pub color_blend_op: BlendOp,
    pub src_color_blend_factor: BlendFactor,
    pub dst_color_blend_factor: BlendFactor,
    pub alpha_blend_op: BlendOp,
    pub src_alpha_blend_factor: BlendFactor,
    pub dst_alpha_blend_factor: BlendFactor,
}

impl BlendStateView {
    /// The state of the hardware after a reset: the color is the source weighted by its alpha
    /// plus the destination weighted by the rest, and the alpha is that of the source.
    pub open spec fn defaults() -> BlendStateView {
        BlendStateView {
            color_blend_op: BlendOp::Add,
            src_color_blend_factor: BlendFactor::SrcAlpha,
            dst_color_blend_factor: BlendFactor::InvSrcAlpha,
            alpha_blend_op: BlendOp::Add,
            src_alpha_blend_factor: BlendFactor::One,
            dst_alpha_blend_factor: BlendFactor::Zero,
        }
    }

    /// Every state of these fields can be packed.
    pub open spec fn is_legal(self) -> bool {
        true
    }
}

/// How one render target blends, packed into two words.
///
/// | word | bits  | field                          |
/// |------|-------|--------------------------------|
/// | 0    | 0-2   | color blend operation          |
/// | 0    | 3-9   | source color blend factor      |
/// | 0    | 10-16 | destination color blend factor |
/// | 0    | 17-19 | alpha blend operation          |
/// | 0    | 20-26 | source alpha blend factor      |
/// | 0    | 27-31 | zero                           |
/// | 1    | 0-6   | destination alpha blend factor |
/// | 1    | 7-31  | zero                           |
#[derive(Debug, Copy, Clone, PartialEq, Eq, Hash)]
pub struct BlendState {
    word0: u32,
    word1: u32,
}

impl View for BlendState {
    type V = BlendStateView;

    closed spec fn view(&self) -> BlendStateView {
        BlendState::unpack(self.word0, self.word1)
    }
}

impl BlendState {
    /// The first word, made of its field values, each at its place.
    pub open spec fn pack_fields_word0(
        color_blend_op: u32,
        src_color_blend_factor: u32,
        dst_color_blend_factor: u32,
        alpha_blend_op: u32,
        src_alpha_blend_factor: u32,
    ) -> u32 {
        color_blend_op | (src_color_blend_factor << 3u32) | (dst_color_blend_factor << 10u32)
            | (alpha_blend_op << 17u32) | (src_alpha_blend_factor << 20u32)
    }

    /// The second word, made of its field values, each at its place.
    pub open spec fn pack_fields_word1(
        dst_alpha_blend_factor: u32,
    ) -> u32 {
        dst_alpha_blend_factor
    }

    /// The two words that hold the state `view`.
    pub open spec fn pack(view: BlendStateView) -> (u32, u32) {
        (
            BlendState::pack_fields_word0(
                view.color_blend_op.raw(),
                view.src_color_blend_factor.raw(),
                view.dst_color_blend_factor.raw(),
                view.alpha_blend_op.raw(),
                view.src_alpha_blend_factor.raw(),
            ),
            BlendState::pack_fields_word1(
                view.dst_alpha_blend_factor.raw(),
            ),
        )
    }

    /// The state that the two words hold.
    pub open spec fn unpack(word0: u32, word1: u32) -> BlendStateView {
        BlendStateView {
            color_blend_op: BlendOp::of_raw(extract(word0, 0, 3)),
            src_color_blend_factor: BlendFactor::of_raw(extract(word0, 3, 7)),
            dst_color_blend_factor: BlendFactor::of_raw(extract(word0, 10, 7)),
            alpha_blend_op: BlendOp::of_raw(extract(word0, 17, 3)),
            src_alpha_blend_factor: BlendFactor::of_raw(extract(word0, 20, 7)),
            dst_alpha_blend_factor: BlendFactor::of_raw(extract(word1, 0, 7)),
        }
    }

    /// The words that hold a state: every field is the number of an operation or of a factor,
    /// and the bits above the fields are zero.
    pub open spec fn is_packed(word0: u32, word1: u32) -> bool {
        &&& BlendOp::is_raw(extract(word0, 0, 3))
        &&& BlendFactor::is_raw(extract(word0, 3, 7))
        &&& BlendFactor::is_raw(extract(word0, 10, 7))
        &&& BlendOp::is_raw(extract(word0, 17, 3))
        &&& BlendFactor::is_raw(extract(word0, 20, 7))
        &&& BlendFactor::is_raw(extract(word1, 0, 7))
        &&& extract(word0, 27, 5) == 0
        &&& extract(word1, 7, 25) == 0
    }

    #[verifier::type_invariant]
    spec fn well_formed(&self) -> bool {
        BlendState::is_packed(self.word0, self.word1)
    }

    proof fn lemma_fields_of_pack_word0(word: u32, a0: u32, a1: u32, a2: u32, a3: u32, a4: u32)
        by (bit_vector)
        requires
            word == BlendState::pack_fields_word0(a0, a1, a2, a3, a4),
            a0 <= 7,
            a1 <= 0x7F,
            a2 <= 0x7F,
            a3 <= 7,
            a4 <= 0x7F,
        ensures
            extract(word, 0, 3) == a0,
            extract(word, 3, 7) == a1,
            extract(word, 10, 7) == a2,
            extract(word, 17, 3) == a3,
            extract(word, 20, 7) == a4,
            extract(word, 27, 5) == 0,
            BlendState::pack_fields_word0(1, 5, 6, 1, 2) == 0x221829,
    {
    }

    proof fn lemma_pack_of_fields_word0(word0: u32)
        by (bit_vector)
        requires
            extract(word0, 27, 5) == 0,
        ensures
            BlendState::pack_fields_word0(
                extract(word0, 0, 3),
                extract(word0, 3, 7),
                extract(word0, 10, 7),
                extract(word0, 17, 3),
                extract(word0, 20, 7),
            ) == word0,
    {
    }

    proof fn lemma_fields_of_pack_word1(word: u32, a0: u32)
        by (bit_vector)
        requires
            word == BlendState::pack_fields_word1(a0),
            a0 <= 0x7F,
        ensures
            extract(word, 0, 7) == a0,
            extract(word, 7, 25) == 0,
            BlendState::pack_fields_word1(1) == 0x1,
    {
    }

    proof fn lemma_pack_of_fields_word1(word1: u32)
        by (bit_vector)
        requires
            extract(word1, 7, 25) == 0,
        ensures
            BlendState::pack_fields_word1(
                extract(word1, 0, 7),
            ) == word1,
    {
    }

    /// What is read back from the packed words after the state `view` was put there.
    pub open spec fn read_back(view: BlendStateView) -> BlendStateView {
        BlendState::unpack(BlendState::pack(view).0, BlendState::pack(view).1)
    }

    /// Packing a legal state and unpacking the words gives the state back: every field
    /// holds every value of its domain, whatever the other fields hold. The words
    /// are such as hold a state.
    pub proof fn lemma_unpack_pack(view: BlendStateView)
        requires
            view.is_legal(),
        ensures
            BlendState::read_back(view) == view,
            BlendState::is_packed(BlendState::pack(view).0, BlendState::pack(view).1),
    {
        BlendState::lemma_fields_of_pack_word0(
            BlendState::pack(view).0,
            view.color_blend_op.raw(),
            view.src_color_blend_factor.raw(),
            view.dst_color_blend_factor.raw(),
            view.alpha_blend_op.raw(),
            view.src_alpha_blend_factor.raw(),
        );
        BlendState::lemma_fields_of_pack_word1(
            BlendState::pack(view).1,
            view.dst_alpha_blend_factor.raw(),
        );
    }

    /// Unpacking two words that hold a state and packing the state gives the words back:
    /// a state has one packed form. The state is legal.
    pub proof fn lemma_pack_unpack(word0: u32, word1: u32)
        requires
            BlendState::is_packed(word0, word1),
        ensures
            BlendState::pack(BlendState::unpack(word0, word1)) == (word0, word1),
            BlendState::unpack(word0, word1).is_legal(),
    {
        lemma_fields();
        BlendState::lemma_pack_of_fields_word0(word0);
        BlendState::lemma_pack_of_fields_word1(word1);
    }

    /// A field that is set on the reset state reads back as it was set. This holds of every
    /// field and of every value of its domain: here each field in turn is set to what it is
    /// in `view`.
    pub proof fn lemma_set_then_get(view: BlendStateView)
        requires
            view.is_legal(),
        ensures
            BlendState::read_back(
                BlendStateView {
                    color_blend_op: view.color_blend_op,
                    ..BlendStateView::defaults()
                },
            ).color_blend_op == view.color_blend_op,
            BlendState::read_back(
                BlendStateView {
                    src_color_blend_factor: view.src_color_blend_factor,
                    ..BlendStateView::defaults()
                },
            ).src_color_blend_factor == view.src_color_blend_factor,
            BlendState::read_back(
                BlendStateView {
                    dst_color_blend_factor: view.dst_color_blend_factor,
                    ..BlendStateView::defaults()
                },
            ).dst_color_blend_factor == view.dst_color_blend_factor,
            BlendState::read_back(
                BlendStateView {
                    alpha_blend_op: view.alpha_blend_op,
                    ..BlendStateView::defaults()
                },
            ).alpha_blend_op == view.alpha_blend_op,
            BlendState::read_back(
                BlendStateView {
                    src_alpha_blend_factor: view.src_alpha_blend_factor,
                    ..BlendStateView::defaults()
                },
            ).src_alpha_blend_factor == view.src_alpha_blend_factor,
            BlendState::read_back(
                BlendStateView {
                    dst_alpha_blend_factor: view.dst_alpha_blend_factor,
                    ..BlendStateView::defaults()
                },
            ).dst_alpha_blend_factor == view.dst_alpha_blend_factor,
    {
        BlendState::lemma_unpack_pack(
            BlendStateView { color_blend_op: view.color_blend_op, ..BlendStateView::defaults() },
        );
        BlendState::lemma_unpack_pack(
            BlendStateView {
                src_color_blend_factor: view.src_color_blend_factor,
                ..BlendStateView::defaults()
            },
        );
        BlendState::lemma_unpack_pack(
            BlendStateView {
                dst_color_blend_factor: view.dst_color_blend_factor,
                ..BlendStateView::defaults()
            },
        );
        BlendState::lemma_unpack_pack(
            BlendStateView { alpha_blend_op: view.alpha_blend_op, ..BlendStateView::defaults() },
        );
        BlendState::lemma_unpack_pack(
            BlendStateView {
                src_alpha_blend_factor: view.src_alpha_blend_factor,
                ..BlendStateView::defaults()
            },
        );
        BlendState::lemma_unpack_pack(
            BlendStateView {
                dst_alpha_blend_factor: view.dst_alpha_blend_factor,
                ..BlendStateView::defaults()
            },
        );
    }

    /// The state of the hardware after a reset.
    pub fn new() -> (state: BlendState)
        ensures
            state@ == BlendStateView::defaults(),
    {
        proof {
            BlendState::lemma_fields_of_pack_word0(
                BlendState::pack_fields_word0(1, 5, 6, 1, 2),
                1,
                5,
                6,
                1,
                2,
            );
            BlendState::lemma_fields_of_pack_word1(
                BlendState::pack_fields_word1(1),
                1,
            );
        }
        BlendState { word0: 0x221829, word1: 1 }
    }

    /// The two packed words, as they are bound into a command stream.
    pub fn to_words(&self) -> (words: (u32, u32))
        ensures
            words == BlendState::pack(self@),
            BlendState::unpack(words.0, words.1) == self@,
            BlendState::is_packed(words.0, words.1),
    {
        proof {
            use_type_invariant(self);
            BlendState::lemma_pack_unpack(self.word0, self.word1);
        }
        (self.word0, self.word1)
    }

    /// Sets the blend operation of the color and that of the alpha.
    pub fn set_ops(&mut self, color_blend_op: BlendOp, alpha_blend_op: BlendOp) -> (ret: &mut Self)
        ensures
            ret@ == (BlendStateView { color_blend_op, alpha_blend_op, ..old(self)@ }),
            *final(self) == *final(ret),
    {
        proof {
            use_type_invariant(&*self);
            lemma_fields();
        }
        self.word0 = set_field(self.word0, 0, 3, color_blend_op.to_raw());
        self.word0 = set_field(self.word0, 17, 3, alpha_blend_op.to_raw());
        self
    }

    /// Sets the four blend factors.
    pub fn set_factors(
        &mut self,
        src_color_blend_factor: BlendFactor,
        dst_color_blend_factor: BlendFactor,
        src_alpha_blend_factor: BlendFactor,
        dst_alpha_blend_factor: BlendFactor,
    ) -> (ret: &mut Self)
        ensures
            ret@ == (BlendStateView {
                src_color_blend_factor,
                dst_color_blend_factor,
                src_alpha_blend_factor,
                dst_alpha_blend_factor,
                ..old(self)@
            }),
            *final(self) == *final(ret),
    {
        proof {
            use_type_invariant(&*self);
            lemma_fields();
        }
        self.word0 = set_field(self.word0, 3, 7, src_color_blend_factor.to_raw());
        self.word0 = set_field(self.word0, 10, 7, dst_color_blend_factor.to_raw());
        self.word0 = set_field(self.word0, 20, 7, src_alpha_blend_factor.to_raw());
        self.word1 = set_field(self.word1, 0, 7, dst_alpha_blend_factor.to_raw());
        self
    }

    pub fn set_color_blend_op(&mut self, color_blend_op: BlendOp) -> (ret: &mut Self)
        ensures
            ret@ == (BlendStateView { color_blend_op, ..old(self)@ }),
            *final(self) == *final(ret),
    {
        proof {
            use_type_invariant(&*self);
            lemma_fields();
        }
        self.word0 = set_field(self.word0, 0, 3, color_blend_op.to_raw());
        self
    }

    pub fn set_src_color_blend_factor(
        &mut self,
        src_color_blend_factor: BlendFactor,
    ) -> (ret: &mut Self)
        ensures
            ret@ == (BlendStateView { src_color_blend_factor, ..old(self)@ }),
            *final(self) == *final(ret),
    {
        proof {
            use_type_invariant(&*self);
            lemma_fields();
        }
        self.word0 = set_field(self.word0, 3, 7, src_color_blend_factor.to_raw());
        self
    }

    pub fn set_dst_color_blend_factor(
        &mut self,
        dst_color_blend_factor: BlendFactor,
    ) -> (ret: &mut Self)
        ensures
            ret@ == (BlendStateView { dst_color_blend_factor, ..old(self)@ }),
            *final(self) == *final(ret),
    {
        proof {
            use_type_invariant(&*self);
            lemma_fields();
        }
        self.word0 = set_field(self.word0, 10, 7, dst_color_blend_factor.to_raw());
        self
    }

    pub fn set_alpha_blend_op(&mut self, alpha_blend_op: BlendOp) -> (ret: &mut Self)
        ensures
            ret@ == (BlendStateView { alpha_blend_op, ..old(self)@ }),
            *final(self) == *final(ret),
    {
        proof {
            use_type_invariant(&*self);
            lemma_fields();
        }
        self.word0 = set_field(self.word0, 17, 3, alpha_blend_op.to_raw());
        self
    }

    pub fn set_src_alpha_blend_factor(
        &mut self,
        src_alpha_blend_factor: BlendFactor,
    ) -> (ret: &mut Self)
        ensures
            ret@ == (BlendStateView { src_alpha_blend_factor, ..old(self)@ }),
            *final(self) == *final(ret),
    {
        proof {
            use_type_invariant(&*self);
            lemma_fields();
        }
        self.word0 = set_field(self.word0, 20, 7, src_alpha_blend_factor.to_raw());
        self
    }

    pub fn set_dst_alpha_blend_factor(
        &mut self,
        dst_alpha_blend_factor: BlendFactor,
    ) -> (ret: &mut Self)
        ensures
            ret@ == (BlendStateView { dst_alpha_blend_factor, ..old(self)@ }),
            *final(self) == *final(ret),
    {
        proof {
            use_type_invariant(&*self);
            lemma_fields();
        }
        self.word1 = set_field(self.word1, 0, 7, dst_alpha_blend_factor.to_raw());
        self
    }
}

} // verus!
