//! The depth-stencil state: the depth test, and the stencil test of front and back faces.

use crate::bits::{bit_of, extract, flag_bit, lemma_fields, set_field};
use crate::compare::CompareOp;
use vstd::prelude::*;

verus! {

/// What becomes of a stencil value after the tests.
#[derive(Debug, Copy, Clone, PartialEq, Eq, Hash, Structural)]
pub enum StencilOp {
    Keep,
    Zero,
    /// The reference value.
    Replace,
    /// One more, stopping at the largest value.
    Incr,
    /// One less, stopping at zero.
    Decr,
    Invert,
    /// One more, wrapping to zero.
    IncrWrap,
    /// One less, wrapping to the largest value.
    DecrWrap,
}

impl StencilOp {
    /// The number that stands for this value in driver structures and command streams.
    pub open spec fn raw(self) -> u32 {
        match self {
            StencilOp::Keep => 1,
            StencilOp::Zero => 2,
            StencilOp::Replace => 3,
            StencilOp::Incr => 4,
            StencilOp::Decr => 5,
            StencilOp::Invert => 6,
            StencilOp::IncrWrap => 7,
            StencilOp::DecrWrap => 8,
        }
    }

    /// Whether `code` is the number of some value of this type.
    pub open spec fn is_raw(code: u32) -> bool {
        1 <= code <= 8
    }

    /// The value whose number is `code`; it means nothing where `code` is no such number.
    pub open spec fn of_raw(code: u32) -> StencilOp {
        match code {
            1 => StencilOp::Keep,
            2 => StencilOp::Zero,
            3 => StencilOp::Replace,
            4 => StencilOp::Incr,
            5 => StencilOp::Decr,
            6 => StencilOp::Invert,
            7 => StencilOp::IncrWrap,
            8 => StencilOp::DecrWrap,
            _ => arbitrary(),
        }
    }

    pub fn to_raw(self) -> (code: u32)
        ensures
            code == self.raw(),
            StencilOp::is_raw(code),
            StencilOp::of_raw(code) == self,
    {
        match self {
            StencilOp::Keep => 1,
            StencilOp::Zero => 2,
            StencilOp::Replace => 3,
            StencilOp::Incr => 4,
            StencilOp::Decr => 5,
            StencilOp::Invert => 6,
            StencilOp::IncrWrap => 7,
            StencilOp::DecrWrap => 8,
        }
    }
}

/// The fields of a depth-stencil state.
pub struct DepthStencilStateView {
    pub depth_test_enable: bool,
    pub depth_write_enable: bool,
    pub stencil_test_enable: bool,
    pub depth_compare_op: CompareOp,
    pub stencil_front_fail_op: StencilOp,
    pub stencil_front_pass_op: StencilOp,
    pub stencil_front_depth_fail_op: StencilOp,
    pub stencil_front_compare_op: CompareOp,
    pub stencil_back_fail_op: StencilOp,
    pub stencil_back_pass_op: StencilOp,
    pub stencil_back_depth_fail_op: StencilOp,
    pub stencil_back_compare_op: CompareOp,
}

impl DepthStencilStateView {
    /// The state of the hardware after a reset: the depth test is on, passes nearer fragments
    /// and writes their depth; the stencil test is off, would always pass, and would replace
    /// the stencil value where both tests pass.
    pub open spec fn defaults() -> DepthStencilStateView {
        DepthStencilStateView {
            depth_test_enable: true,
            depth_write_enable: true,
            stencil_test_enable: false,
            depth_compare_op: CompareOp::Less,
            stencil_front_fail_op: StencilOp::Keep,
            stencil_front_pass_op: StencilOp::Replace,
            stencil_front_depth_fail_op: StencilOp::Keep,
            stencil_front_compare_op: CompareOp::Always,
            stencil_back_fail_op: StencilOp::Keep,
            stencil_back_pass_op: StencilOp::Replace,
            stencil_back_depth_fail_op: StencilOp::Keep,
            stencil_back_compare_op: CompareOp::Always,
        }
    }

    /// Every state of these fields can be packed.
    pub open spec fn is_legal(self) -> bool {
        true
    }
}

/// Fixed-function configuration of the depth test and the stencil test, packed into two
/// words.
///
/// | word | bits  | field                           |
/// |------|-------|---------------------------------|
/// | 0    | 0     | depth test enable               |
/// | 0    | 1     | depth write enable              |
/// | 0    | 2     | stencil test enable             |
/// | 0    | 3-6   | depth comparison                |
/// | 0    | 7-10  | front faces: stencil test fails |
/// | 0    | 11-14 | front faces: both tests pass    |
/// | 0    | 15-18 | front faces: depth test fails   |
/// | 0    | 19-22 | front faces: stencil comparison |
/// | 0    | 23-26 | back faces: stencil test fails  |
/// | 0    | 27-30 | back faces: both tests pass     |
/// | 0    | 31    | zero                            |
/// | 1    | 0-3   | back faces: depth test fails    |
/// | 1    | 4-7   | back faces: stencil comparison  |
/// | 1    | 8-31  | zero                            |
#[derive(Debug, Copy, Clone, PartialEq, Eq, Hash)]
pub struct DepthStencilState {
    word0: u32,
    word1: u32,
}

impl View for DepthStencilState {
    type V = DepthStencilStateView;

    closed spec fn view(&self) -> DepthStencilStateView {
        DepthStencilState::unpack(self.word0, self.word1)
    }
}

impl DepthStencilState {
    /// The first word, made of its field values, each at its place.
    pub open spec fn pack_fields_word0(
        depth_test_enable: u32,
        depth_write_enable: u32,
        stencil_test_enable: u32,
        depth_compare_op: u32,
        stencil_front_fail_op: u32,
        stencil_front_pass_op: u32,
        stencil_front_depth_fail_op: u32,
        stencil_front_compare_op: u32,
        stencil_back_fail_op: u32,
        stencil_back_pass_op: u32,
    ) -> u32 {
        depth_test_enable | (depth_write_enable << 1u32) | (stencil_test_enable << 2u32)
            | (depth_compare_op << 3u32) | (stencil_front_fail_op << 7u32)
            | (stencil_front_pass_op << 11u32) | (stencil_front_depth_fail_op << 15u32)
            | (stencil_front_compare_op << 19u32) | (stencil_back_fail_op << 23u32)
            | (stencil_back_pass_op << 27u32)
    }

    /// The second word, made of its field values, each at its place.
    pub open spec fn pack_fields_word1(
        stencil_back_depth_fail_op: u32,
        stencil_back_compare_op: u32,
    ) -> u32 {
        stencil_back_depth_fail_op | (stencil_back_compare_op << 4u32)
    }

    /// The two words that hold the state `view`.
    pub open spec fn pack(view: DepthStencilStateView) -> (u32, u32) {
        (
            DepthStencilState::pack_fields_word0(
                flag_bit(view.depth_test_enable),
                flag_bit(view.depth_write_enable),
                flag_bit(view.stencil_test_enable),
                view.depth_compare_op.raw(),
                view.stencil_front_fail_op.raw(),
                view.stencil_front_pass_op.raw(),
                view.stencil_front_depth_fail_op.raw(),
                view.stencil_front_compare_op.raw(),
                view.stencil_back_fail_op.raw(),
                view.stencil_back_pass_op.raw(),
            ),
            DepthStencilState::pack_fields_word1(
                view.stencil_back_depth_fail_op.raw(),
                view.stencil_back_compare_op.raw(),
            ),
        )
    }

    /// The state that the two words hold.
    pub open spec fn unpack(word0: u32, word1: u32) -> DepthStencilStateView {
        DepthStencilStateView {
            depth_test_enable: extract(word0, 0, 1) != 0,
            depth_write_enable: extract(word0, 1, 1) != 0,
            stencil_test_enable: extract(word0, 2, 1) != 0,
            depth_compare_op: CompareOp::of_raw(extract(word0, 3, 4)),
            stencil_front_fail_op: StencilOp::of_raw(extract(word0, 7, 4)),
            stencil_front_pass_op: StencilOp::of_raw(extract(word0, 11, 4)),
            stencil_front_depth_fail_op: StencilOp::of_raw(extract(word0, 15, 4)),
            stencil_front_compare_op: CompareOp::of_raw(extract(word0, 19, 4)),
            stencil_back_fail_op: StencilOp::of_raw(extract(word0, 23, 4)),
            stencil_back_pass_op: StencilOp::of_raw(extract(word0, 27, 4)),
            stencil_back_depth_fail_op: StencilOp::of_raw(extract(word1, 0, 4)),
            stencil_back_compare_op: CompareOp::of_raw(extract(word1, 4, 4)),
        }
    }

    /// The words that hold a state: every field is the number of a comparison or of a stencil
    /// operation, and the bits above the fields are zero.
    pub open spec fn is_packed(word0: u32, word1: u32) -> bool {
        &&& CompareOp::is_raw(extract(word0, 3, 4))
        &&& StencilOp::is_raw(extract(word0, 7, 4))
        &&& StencilOp::is_raw(extract(word0, 11, 4))
        &&& StencilOp::is_raw(extract(word0, 15, 4))
        &&& CompareOp::is_raw(extract(word0, 19, 4))
        &&& StencilOp::is_raw(extract(word0, 23, 4))
        &&& StencilOp::is_raw(extract(word0, 27, 4))
        &&& StencilOp::is_raw(extract(word1, 0, 4))
        &&& CompareOp::is_raw(extract(word1, 4, 4))
        &&& extract(word0, 31, 1) == 0
        &&& extract(word1, 8, 24) == 0
    }

    #[verifier::type_invariant]
    spec fn well_formed(&self) -> bool {
        DepthStencilState::is_packed(self.word0, self.word1)
    }

    proof fn lemma_fields_of_pack_word0(
        word: u32,
        a0: u32,
        a1: u32,
        a2: u32,
        a3: u32,
        a4: u32,
        a5: u32,
        a6: u32,
        a7: u32,
        a8: u32,
        a9: u32,
    )
        by (bit_vector)
        requires
            word == DepthStencilState::pack_fields_word0(a0, a1, a2, a3, a4, a5, a6, a7, a8, a9),
            a0 <= 1,
            a1 <= 1,
            a2 <= 1,
            a3 <= 0xF,
            a4 <= 0xF,
            a5 <= 0xF,
            a6 <= 0xF,
            a7 <= 0xF,
            a8 <= 0xF,
            a9 <= 0xF,
        ensures
            extract(word, 0, 1) == a0,
            extract(word, 1, 1) == a1,
            extract(word, 2, 1) == a2,
            extract(word, 3, 4) == a3,
            extract(word, 7, 4) == a4,
            extract(word, 11, 4) == a5,
            extract(word, 15, 4) == a6,
            extract(word, 19, 4) == a7,
            extract(word, 23, 4) == a8,
            extract(word, 27, 4) == a9,
            extract(word, 31, 1) == 0,
            DepthStencilState::pack_fields_word0(1, 1, 0, 2, 1, 3, 1, 8, 1, 3) == 0x18C09893,
    {
    }

    proof fn lemma_pack_of_fields_word0(word0: u32)
        by (bit_vector)
        requires
            extract(word0, 31, 1) == 0,
        ensures
            DepthStencilState::pack_fields_word0(
                extract(word0, 0, 1),
                extract(word0, 1, 1),
                extract(word0, 2, 1),
                extract(word0, 3, 4),
                extract(word0, 7, 4),
                extract(word0, 11, 4),
                extract(word0, 15, 4),
                extract(word0, 19, 4),
                extract(word0, 23, 4),
                extract(word0, 27, 4),
            ) == word0,
    {
    }

    proof fn lemma_fields_of_pack_word1(word: u32, a0: u32, a1: u32)
        by (bit_vector)
        requires
            word == DepthStencilState::pack_fields_word1(a0, a1),
            a0 <= 0xF,
            a1 <= 0xF,
        ensures
            extract(word, 0, 4) == a0,
            extract(word, 4, 4) == a1,
            extract(word, 8, 24) == 0,
            DepthStencilState::pack_fields_word1(1, 8) == 0x81,
    {
    }

    proof fn lemma_pack_of_fields_word1(word1: u32)
        by (bit_vector)
        requires
            extract(word1, 8, 24) == 0,
        ensures
            DepthStencilState::pack_fields_word1(
                extract(word1, 0, 4),
                extract(word1, 4, 4),
            ) == word1,
    {
    }

    /// What is read back from the packed words after the state `view` was put there.
    pub open spec fn read_back(view: DepthStencilStateView) -> DepthStencilStateView {
        DepthStencilState::unpack(DepthStencilState::pack(view).0, DepthStencilState::pack(view).1)
    }

    /// Packing a legal state and unpacking the words gives the state back: every field
    /// holds every value of its domain, whatever the other fields hold. The words
    /// are such as hold a state.
    pub proof fn lemma_unpack_pack(view: DepthStencilStateView)
        requires
            view.is_legal(),
        ensures
            DepthStencilState::read_back(view) == view,
            DepthStencilState::is_packed(
                DepthStencilState::pack(view).0,
                DepthStencilState::pack(view).1,
            ),
    {
        assert(CompareOp::of_raw(view.depth_compare_op.raw()) == view.depth_compare_op);
        assert(StencilOp::of_raw(view.stencil_front_fail_op.raw()) == view.stencil_front_fail_op);
        assert(StencilOp::of_raw(view.stencil_front_pass_op.raw()) == view.stencil_front_pass_op);
        assert(StencilOp::of_raw(view.stencil_front_depth_fail_op.raw())
            == view.stencil_front_depth_fail_op);
        assert(CompareOp::of_raw(view.stencil_front_compare_op.raw())
            == view.stencil_front_compare_op);
        assert(StencilOp::of_raw(view.stencil_back_fail_op.raw()) == view.stencil_back_fail_op);
        assert(StencilOp::of_raw(view.stencil_back_pass_op.raw()) == view.stencil_back_pass_op);
        assert(StencilOp::of_raw(view.stencil_back_depth_fail_op.raw())
            == view.stencil_back_depth_fail_op);
        assert(CompareOp::of_raw(view.stencil_back_compare_op.raw())
            == view.stencil_back_compare_op);
        DepthStencilState::lemma_fields_of_pack_word0(
            DepthStencilState::pack(view).0,
            flag_bit(view.depth_test_enable),
            flag_bit(view.depth_write_enable),
            flag_bit(view.stencil_test_enable),
            view.depth_compare_op.raw(),
            view.stencil_front_fail_op.raw(),
            view.stencil_front_pass_op.raw(),
            view.stencil_front_depth_fail_op.raw(),
            view.stencil_front_compare_op.raw(),
            view.stencil_back_fail_op.raw(),
            view.stencil_back_pass_op.raw(),
        );
        DepthStencilState::lemma_fields_of_pack_word1(
            DepthStencilState::pack(view).1,
            view.stencil_back_depth_fail_op.raw(),
            view.stencil_back_compare_op.raw(),
        );
    }

    /// Unpacking two words that hold a state and packing the state gives the words back:
    /// a state has one packed form. The state is legal.
    pub proof fn lemma_pack_unpack(word0: u32, word1: u32)
        requires
            DepthStencilState::is_packed(word0, word1),
        ensures
            DepthStencilState::pack(DepthStencilState::unpack(word0, word1)) == (word0, word1),
            DepthStencilState::unpack(word0, word1).is_legal(),
    {
        lemma_fields();
        DepthStencilState::lemma_pack_of_fields_word0(word0);
        DepthStencilState::lemma_pack_of_fields_word1(word1);
    }

    /// A field that is set on the reset state reads back as it was set. This holds of every
    /// field and of every value of its domain: here each field in turn is set to what it is
    /// in `view`.
    pub proof fn lemma_set_then_get(view: DepthStencilStateView)
        requires
            view.is_legal(),
        ensures
            DepthStencilState::read_back(
                DepthStencilStateView {
                    depth_test_enable: view.depth_test_enable,
                    ..DepthStencilStateView::defaults()
                },
            ).depth_test_enable == view.depth_test_enable,
            DepthStencilState::read_back(
                DepthStencilStateView {
                    depth_write_enable: view.depth_write_enable,
                    ..DepthStencilStateView::defaults()
                },
            ).depth_write_enable == view.depth_write_enable,
            DepthStencilState::read_back(
                DepthStencilStateView {
                    stencil_test_enable: view.stencil_test_enable,
                    ..DepthStencilStateView::defaults()
                },
            ).stencil_test_enable == view.stencil_test_enable,
            DepthStencilState::read_back(
                DepthStencilStateView {
                    depth_compare_op: view.depth_compare_op,
                    ..DepthStencilStateView::defaults()
                },
            ).depth_compare_op == view.depth_compare_op,
            DepthStencilState::read_back(
                DepthStencilStateView {
                    stencil_front_fail_op: view.stencil_front_fail_op,
                    ..DepthStencilStateView::defaults()
                },
            ).stencil_front_fail_op == view.stencil_front_fail_op,
            DepthStencilState::read_back(
                DepthStencilStateView {
                    stencil_front_pass_op: view.stencil_front_pass_op,
                    ..DepthStencilStateView::defaults()
                },
            ).stencil_front_pass_op == view.stencil_front_pass_op,
            DepthStencilState::read_back(
                DepthStencilStateView {
                    stencil_front_depth_fail_op: view.stencil_front_depth_fail_op,
                    ..DepthStencilStateView::defaults()
                },
            ).stencil_front_depth_fail_op == view.stencil_front_depth_fail_op,
            DepthStencilState::read_back(
                DepthStencilStateView {
                    stencil_front_compare_op: view.stencil_front_compare_op,
                    ..DepthStencilStateView::defaults()
                },
            ).stencil_front_compare_op == view.stencil_front_compare_op,
            DepthStencilState::read_back(
                DepthStencilStateView {
                    stencil_back_fail_op: view.stencil_back_fail_op,
                    ..DepthStencilStateView::defaults()
                },
            ).stencil_back_fail_op == view.stencil_back_fail_op,
            DepthStencilState::read_back(
                DepthStencilStateView {
                    stencil_back_pass_op: view.stencil_back_pass_op,
                    ..DepthStencilStateView::defaults()
                },
            ).stencil_back_pass_op == view.stencil_back_pass_op,
            DepthStencilState::read_back(
                DepthStencilStateView {
                    stencil_back_depth_fail_op: view.stencil_back_depth_fail_op,
                    ..DepthStencilStateView::defaults()
                },
            ).stencil_back_depth_fail_op == view.stencil_back_depth_fail_op,
            DepthStencilState::read_back(
                DepthStencilStateView {
                    stencil_back_compare_op: view.stencil_back_compare_op,
                    ..DepthStencilStateView::defaults()
                },
            ).stencil_back_compare_op == view.stencil_back_compare_op,
    {
        DepthStencilState::lemma_unpack_pack(
            DepthStencilStateView {
                depth_test_enable: view.depth_test_enable,
                ..DepthStencilStateView::defaults()
            },
        );
        DepthStencilState::lemma_unpack_pack(
            DepthStencilStateView {
                depth_write_enable: view.depth_write_enable,
                ..DepthStencilStateView::defaults()
            },
        );
        DepthStencilState::lemma_unpack_pack(
            DepthStencilStateView {
                stencil_test_enable: view.stencil_test_enable,
                ..DepthStencilStateView::defaults()
            },
        );
        DepthStencilState::lemma_unpack_pack(
            DepthStencilStateView {
                depth_compare_op: view.depth_compare_op,
                ..DepthStencilStateView::defaults()
            },
        );
        DepthStencilState::lemma_unpack_pack(
            DepthStencilStateView {
                stencil_front_fail_op: view.stencil_front_fail_op,
                ..DepthStencilStateView::defaults()
            },
        );
        DepthStencilState::lemma_unpack_pack(
            DepthStencilStateView {
                stencil_front_pass_op: view.stencil_front_pass_op,
                ..DepthStencilStateView::defaults()
            },
        );
        DepthStencilState::lemma_unpack_pack(
            DepthStencilStateView {
                stencil_front_depth_fail_op: view.stencil_front_depth_fail_op,
                ..DepthStencilStateView::defaults()
            },
        );
        DepthStencilState::lemma_unpack_pack(
            DepthStencilStateView {
                stencil_front_compare_op: view.stencil_front_compare_op,
                ..DepthStencilStateView::defaults()
            },
        );
        DepthStencilState::lemma_unpack_pack(
            DepthStencilStateView {
                stencil_back_fail_op: view.stencil_back_fail_op,
                ..DepthStencilStateView::defaults()
            },
        );
        DepthStencilState::lemma_unpack_pack(
            DepthStencilStateView {
                stencil_back_pass_op: view.stencil_back_pass_op,
                ..DepthStencilStateView::defaults()
            },
        );
        DepthStencilState::lemma_unpack_pack(
            DepthStencilStateView {
                stencil_back_depth_fail_op: view.stencil_back_depth_fail_op,
                ..DepthStencilStateView::defaults()
            },
        );
        DepthStencilState::lemma_unpack_pack(
            DepthStencilStateView {
                stencil_back_compare_op: view.stencil_back_compare_op,
                ..DepthStencilStateView::defaults()
            },
        );
    }

    /// The state of the hardware after a reset.
    pub fn new() -> (state: DepthStencilState)
        ensures
            state@ == DepthStencilStateView::defaults(),
    {
        proof {
            DepthStencilState::lemma_fields_of_pack_word0(
                DepthStencilState::pack_fields_word0(1, 1, 0, 2, 1, 3, 1, 8, 1, 3),
                1,
                1,
                0,
                2,
                1,
                3,
                1,
                8,
                1,
                3,
            );
            DepthStencilState::lemma_fields_of_pack_word1(
                DepthStencilState::pack_fields_word1(1, 8),
                1,
                8,
            );
        }
        DepthStencilState { word0: 0x18C09893, word1: 0x81 }
    }

    /// The two packed words, as they are bound into a command stream.
    pub fn to_words(&self) -> (words: (u32, u32))
        ensures
            words == DepthStencilState::pack(self@),
            DepthStencilState::unpack(words.0, words.1) == self@,
            DepthStencilState::is_packed(words.0, words.1),
    {
        proof {
            use_type_invariant(self);
            DepthStencilState::lemma_pack_unpack(self.word0, self.word1);
        }
        (self.word0, self.word1)
    }

    pub fn set_depth_test_enable(&mut self, enable: bool) -> (ret: &mut Self)
        ensures
            ret@ == (DepthStencilStateView { depth_test_enable: enable, ..old(self)@ }),
            *final(self) == *final(ret),
    {
        proof {
            use_type_invariant(&*self);
            lemma_fields();
        }
        self.word0 = set_field(self.word0, 0, 1, bit_of(enable));
        self
    }

    pub fn set_depth_write_enable(&mut self, enable: bool) -> (ret: &mut Self)
        ensures
            ret@ == (DepthStencilStateView { depth_write_enable: enable, ..old(self)@ }),
            *final(self) == *final(ret),
    {
        proof {
            use_type_invariant(&*self);
            lemma_fields();
        }
        self.word0 = set_field(self.word0, 1, 1, bit_of(enable));
        self
    }

    pub fn set_stencil_test_enable(&mut self, enable: bool) -> (ret: &mut Self)
        ensures
            ret@ == (DepthStencilStateView { stencil_test_enable: enable, ..old(self)@ }),
            *final(self) == *final(ret),
    {
        proof {
            use_type_invariant(&*self);
            lemma_fields();
        }
        self.word0 = set_field(self.word0, 2, 1, bit_of(enable));
        self
    }

    pub fn set_depth_compare_op(&mut self, op: CompareOp) -> (ret: &mut Self)
        ensures
            ret@ == (DepthStencilStateView { depth_compare_op: op, ..old(self)@ }),
            *final(self) == *final(ret),
    {
        proof {
            use_type_invariant(&*self);
            lemma_fields();
        }
        self.word0 = set_field(self.word0, 3, 4, op.to_raw());
        self
    }

    pub fn set_stencil_front_fail_op(&mut self, op: StencilOp) -> (ret: &mut Self)
        ensures
            ret@ == (DepthStencilStateView { stencil_front_fail_op: op, ..old(self)@ }),
            *final(self) == *final(ret),
    {
        proof {
            use_type_invariant(&*self);
            lemma_fields();
        }
        self.word0 = set_field(self.word0, 7, 4, op.to_raw());
        self
    }

    pub fn set_stencil_front_pass_op(&mut self, op: StencilOp) -> (ret: &mut Self)
        ensures
            ret@ == (DepthStencilStateView { stencil_front_pass_op: op, ..old(self)@ }),
            *final(self) == *final(ret),
    {
        proof {
            use_type_invariant(&*self);
            lemma_fields();
        }
        self.word0 = set_field(self.word0, 11, 4, op.to_raw());
        self
    }

    pub fn set_stencil_front_depth_fail_op(&mut self, op: StencilOp) -> (ret: &mut Self)
        ensures
            ret@ == (DepthStencilStateView { stencil_front_depth_fail_op: op, ..old(self)@ }),
            *final(self) == *final(ret),
    {
        proof {
            use_type_invariant(&*self);
            lemma_fields();
        }
        self.word0 = set_field(self.word0, 15, 4, op.to_raw());
        self
    }

    pub fn set_stencil_front_compare_op(&mut self, op: CompareOp) -> (ret: &mut Self)
        ensures
            ret@ == (DepthStencilStateView { stencil_front_compare_op: op, ..old(self)@ }),
            *final(self) == *final(ret),
    {
        proof {
            use_type_invariant(&*self);
            lemma_fields();
        }
        self.word0 = set_field(self.word0, 19, 4, op.to_raw());
        self
    }

    pub fn set_stencil_back_fail_op(&mut self, op: StencilOp) -> (ret: &mut Self)
        ensures
            ret@ == (DepthStencilStateView { stencil_back_fail_op: op, ..old(self)@ }),
            *final(self) == *final(ret),
    {
        proof {
            use_type_invariant(&*self);
            lemma_fields();
        }
        self.word0 = set_field(self.word0, 23, 4, op.to_raw());
        self
    }

    pub fn set_stencil_back_pass_op(&mut self, op: StencilOp) -> (ret: &mut Self)
        ensures
            ret@ == (DepthStencilStateView { stencil_back_pass_op: op, ..old(self)@ }),
            *final(self) == *final(ret),
    {
        proof {
            use_type_invariant(&*self);
            lemma_fields();
        }
        self.word0 = set_field(self.word0, 27, 4, op.to_raw());
        self
    }

    pub fn set_stencil_back_depth_fail_op(&mut self, op: StencilOp) -> (ret: &mut Self)
        ensures
            ret@ == (DepthStencilStateView { stencil_back_depth_fail_op: op, ..old(self)@ }),
            *final(self) == *final(ret),
    {
        proof {
            use_type_invariant(&*self);
            lemma_fields();
        }
        self.word1 = set_field(self.word1, 0, 4, op.to_raw());
        self
    }

    pub fn set_stencil_back_compare_op(&mut self, op: CompareOp) -> (ret: &mut Self)
        ensures
            ret@ == (DepthStencilStateView { stencil_back_compare_op: op, ..old(self)@ }),
            *final(self) == *final(ret),
    {
        proof {
            use_type_invariant(&*self);
            lemma_fields();
        }
        self.word1 = set_field(self.word1, 4, 4, op.to_raw());
        self
    }
}

} // verus!
