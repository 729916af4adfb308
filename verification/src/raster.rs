//! The rasterizer state: what becomes of primitives between the vertex stages and the
//! fragment stage.

use crate::bits::{
    bit_of, extract, flag_bit, get_field, lemma_fields, lemma_within, set_field, within,
};
use vstd::pervasive::unreached;
use vstd::prelude::*;

verus! {

/// How the inside of a polygon is drawn.
#[derive(Debug, Copy, Clone, PartialEq, Eq, Hash, Structural)]
pub enum PolygonMode {
    Point,
    Line,
    Fill,
}

impl PolygonMode {
    /// The number that stands for this value in driver structures and command streams.
    pub open spec fn raw(self) -> u32 {
        match self {
            PolygonMode::Point => 0,
            PolygonMode::Line => 1,
            PolygonMode::Fill => 2,
        }
    }

    /// Whether `code` is the number of some value of this type.
    pub open spec fn is_raw(code: u32) -> bool {
        code <= 2
    }

    /// The value whose number is `code`; it means nothing where `code` is no such number.
    pub open spec fn of_raw(code: u32) -> PolygonMode {
        match code {
            0 => PolygonMode::Point,
            1 => PolygonMode::Line,
            2 => PolygonMode::Fill,
            _ => arbitrary(),
        }
    }

    pub fn to_raw(self) -> (code: u32)
        ensures
            code == self.raw(),
            PolygonMode::is_raw(code),
            PolygonMode::of_raw(code) == self,
    {
        match self {
            PolygonMode::Point => 0,
            PolygonMode::Line => 1,
            PolygonMode::Fill => 2,
        }
    }

    pub fn is_valid_raw(code: u32) -> (valid: bool)
        ensures
            valid == PolygonMode::is_raw(code),
    {
        code <= 2
    }

    /// Reads a number handed back by the driver. Numbers that stand for no value are
    /// left to the caller, who can tell them apart with `is_valid_raw`.
    pub fn from(code: u32) -> (value: PolygonMode)
        requires
            PolygonMode::is_raw(code),
        ensures
            value == PolygonMode::of_raw(code),
            value.raw() == code,
    {
        match code {
            0 => PolygonMode::Point,
            1 => PolygonMode::Line,
            2 => PolygonMode::Fill,
            _ => unreached(),
        }
    }
}

/// A set of polygon modes, one bit for each.
#[derive(Debug, Copy, Clone, PartialEq, Eq, Hash, Structural)]
pub struct PolygonFlag {
    bits: u32,
}

impl View for PolygonFlag {
    type V = u32;

    /// The bits that are set.
    closed spec fn view(&self) -> u32 {
        self.bits
    }
}

impl PolygonFlag {
    /// Every bit that a flag of this set uses.
    pub open spec fn all_bits() -> u32 {
        0x7
    }

    #[verifier::type_invariant]
    spec fn holds_known_bits_only(&self) -> bool {
        within(self.bits, PolygonFlag::all_bits())
    }

    proof fn lemma_flag_values()
        by (bit_vector)
        ensures
            within(0x1, 0x7),
            within(0x2, 0x7),
            within(0x4, 0x7),
            within(0x7, 0x7),
    {
    }

    /// The set without any flag.
    pub fn empty() -> (flags: Self)
        ensures
            flags@ == 0,
    {
        proof {
            lemma_within(0, 0, PolygonFlag::all_bits());
        }
        PolygonFlag { bits: 0 }
    }

    /// The set of all flags.
    pub fn all() -> (flags: Self)
        ensures
            flags@ == PolygonFlag::all_bits(),
    {
        proof {
            PolygonFlag::lemma_flag_values();
        }
        PolygonFlag { bits: 0x7 }
    }

    /// Polygons drawn as points.
    pub fn point() -> (flags: Self)
        ensures
            flags@ == 0x1,
    {
        proof {
            PolygonFlag::lemma_flag_values();
        }
        PolygonFlag { bits: 0x1 }
    }

    /// Polygons drawn as lines.
    pub fn line() -> (flags: Self)
        ensures
            flags@ == 0x2,
    {
        proof {
            PolygonFlag::lemma_flag_values();
        }
        PolygonFlag { bits: 0x2 }
    }

    /// Filled polygons.
    pub fn fill() -> (flags: Self)
        ensures
            flags@ == 0x4,
    {
        proof {
            PolygonFlag::lemma_flag_values();
        }
        PolygonFlag { bits: 0x4 }
    }

    pub fn bits(&self) -> (bits: u32)
        ensures
            bits == self@,
            within(bits, PolygonFlag::all_bits()),
    {
        proof {
            use_type_invariant(self);
        }
        self.bits
    }

    /// The flags among `bits`; bits that belong to no flag are dropped.
    pub fn from_bits_truncate(bits: u32) -> (flags: Self)
        ensures
            flags@ == bits & PolygonFlag::all_bits(),
            within(bits, PolygonFlag::all_bits()) ==> flags@ == bits,
    {
        proof {
            lemma_within(bits, 0, PolygonFlag::all_bits());
        }
        PolygonFlag { bits: bits & 0x7 }
    }

    /// The flags of either set.
    pub fn union(self, other: Self) -> (flags: Self)
        ensures
            flags@ == self@ | other@,
    {
        proof {
            use_type_invariant(self);
            use_type_invariant(other);
            lemma_within(self.bits, other.bits, PolygonFlag::all_bits());
        }
        PolygonFlag { bits: self.bits | other.bits }
    }

    /// Whether every flag of `other` is in this set.
    pub fn contains(&self, other: Self) -> (yes: bool)
        ensures
            yes == (self@ & other@ == other@),
    {
        self.bits & other.bits == other.bits
    }
}

/// A choice among the two faces of a polygon.
#[derive(Debug, Copy, Clone, PartialEq, Eq, Hash, Structural)]
pub enum Face {
    NoFace,
    Front,
    Back,
    FrontAndBack,
}

impl Face {
    /// The number that stands for this value in driver structures and command streams.
    pub open spec fn raw(self) -> u32 {
        match self {
            Face::NoFace => 0,
            Face::Front => 1,
            Face::Back => 2,
            Face::FrontAndBack => 3,
        }
    }

    /// Whether `code` is the number of some value of this type.
    pub open spec fn is_raw(code: u32) -> bool {
        code <= 3
    }

    /// The value whose number is `code`; it means nothing where `code` is no such number.
    pub open spec fn of_raw(code: u32) -> Face {
        match code {
            0 => Face::NoFace,
            1 => Face::Front,
            2 => Face::Back,
            3 => Face::FrontAndBack,
            _ => arbitrary(),
        }
    }

    pub fn to_raw(self) -> (code: u32)
        ensures
            code == self.raw(),
            Face::is_raw(code),
            Face::of_raw(code) == self,
    {
        match self {
            Face::NoFace => 0,
            Face::Front => 1,
            Face::Back => 2,
            Face::FrontAndBack => 3,
        }
    }

    pub fn is_valid_raw(code: u32) -> (valid: bool)
        ensures
            valid == Face::is_raw(code),
    {
        code <= 3
    }

    /// Reads a number handed back by the driver. Numbers that stand for no value are
    /// left to the caller, who can tell them apart with `is_valid_raw`.
    pub fn from(code: u32) -> (value: Face)
        requires
            Face::is_raw(code),
        ensures
            value == Face::of_raw(code),
            value.raw() == code,
    {
        match code {
            0 => Face::NoFace,
            1 => Face::Front,
            2 => Face::Back,
            3 => Face::FrontAndBack,
            _ => unreached(),
        }
    }
}

/// The winding of the vertices of a front face.
#[derive(Debug, Copy, Clone, PartialEq, Eq, Hash, Structural)]
pub enum FrontFace {
    /// Clockwise.
    CW,
    /// Counter-clockwise.
    CCW,
}

impl FrontFace {
    /// The number that stands for this value in driver structures and command streams.
    pub open spec fn raw(self) -> u32 {
        match self {
            FrontFace::CW => 0,
            FrontFace::CCW => 1,
        }
    }

    /// Whether `code` is the number of some value of this type.
    pub open spec fn is_raw(code: u32) -> bool {
        code <= 1
    }

    /// The value whose number is `code`; it means nothing where `code` is no such number.
    pub open spec fn of_raw(code: u32) -> FrontFace {
        match code {
            0 => FrontFace::CW,
            1 => FrontFace::CCW,
            _ => arbitrary(),
        }
    }

    pub fn to_raw(self) -> (code: u32)
        ensures
            code == self.raw(),
            FrontFace::is_raw(code),
            FrontFace::of_raw(code) == self,
    {
        match self {
            FrontFace::CW => 0,
            FrontFace::CCW => 1,
        }
    }

    pub fn is_valid_raw(code: u32) -> (valid: bool)
        ensures
            valid == FrontFace::is_raw(code),
    {
        code <= 1
    }

    /// Reads a number handed back by the driver. Numbers that stand for no value are
    /// left to the caller, who can tell them apart with `is_valid_raw`.
    pub fn from(code: u32) -> (value: FrontFace)
        requires
            FrontFace::is_raw(code),
        ensures
            value == FrontFace::of_raw(code),
            value.raw() == code,
    {
        match code {
            0 => FrontFace::CW,
            1 => FrontFace::CCW,
            _ => unreached(),
        }
    }
}

/// The vertex of a primitive that supplies its flat-shaded attributes.
#[derive(Debug, Copy, Clone, PartialEq, Eq, Hash, Structural)]
pub enum ProvokingVertex {
    First,
    Last,
}

impl ProvokingVertex {
    /// The number that stands for this value in driver structures and command streams.
    pub open spec fn raw(self) -> u32 {
        match self {
            ProvokingVertex::First => 0,
            ProvokingVertex::Last => 1,
        }
    }

    /// Whether `code` is the number of some value of this type.
    pub open spec fn is_raw(code: u32) -> bool {
        code <= 1
    }

    /// The value whose number is `code`; it means nothing where `code` is no such number.
    pub open spec fn of_raw(code: u32) -> ProvokingVertex {
        match code {
            0 => ProvokingVertex::First,
            1 => ProvokingVertex::Last,
            _ => arbitrary(),
        }
    }

    pub fn to_raw(self) -> (code: u32)
        ensures
            code == self.raw(),
            ProvokingVertex::is_raw(code),
            ProvokingVertex::of_raw(code) == self,
    {
        match self {
            ProvokingVertex::First => 0,
            ProvokingVertex::Last => 1,
        }
    }

    pub fn is_valid_raw(code: u32) -> (valid: bool)
        ensures
            valid == ProvokingVertex::is_raw(code),
    {
        code <= 1
    }

    /// Reads a number handed back by the driver. Numbers that stand for no value are
    /// left to the caller, who can tell them apart with `is_valid_raw`.
    pub fn from(code: u32) -> (value: ProvokingVertex)
        requires
            ProvokingVertex::is_raw(code),
        ensures
            value == ProvokingVertex::of_raw(code),
            value.raw() == code,
    {
        match code {
            0 => ProvokingVertex::First,
            1 => ProvokingVertex::Last,
            _ => unreached(),
        }
    }
}

/// The fields of a rasterizer state.
pub struct RasterizerStateView {
    pub rasterizer_enable: bool,
    pub depth_clamp_enable: bool,
    pub fill_rectangle_enable: bool,
    pub polygon_mode_front: PolygonMode,
    pub polygon_mode_back: PolygonMode,
    /// The faces that are not drawn.
    pub cull_mode: Face,
    pub front_face: FrontFace,
    pub provoking_vertex: ProvokingVertex,
    /// The polygon modes that are drawn smoothed, as the bits of a `PolygonFlag`.
    pub polygon_smooth_enable_mask: u32,
    /// The polygon modes that the depth bias applies to, as the bits of a `PolygonFlag`.
    pub depth_bias_enable_mask: u32,
}

impl RasterizerStateView {
    /// The state of the hardware after a reset: rasterizer on, both faces filled, back faces
    /// culled, counter-clockwise front faces, last vertex provoking, everything else off.
    pub open spec fn defaults() -> RasterizerStateView {
        RasterizerStateView {
            rasterizer_enable: true,
            depth_clamp_enable: false,
            fill_rectangle_enable: false,
            polygon_mode_front: PolygonMode::Fill,
            polygon_mode_back: PolygonMode::Fill,
            cull_mode: Face::Back,
            front_face: FrontFace::CCW,
            provoking_vertex: ProvokingVertex::Last,
            polygon_smooth_enable_mask: 0,
            depth_bias_enable_mask: 0,
        }
    }

    /// Each mask fits the three bits it is stored in.
    pub open spec fn is_legal(self) -> bool {
        &&& self.polygon_smooth_enable_mask <= 7
        &&& self.depth_bias_enable_mask <= 7
    }
}

/// Fixed-function configuration of the rasterizer, packed into one word.
///
/// | bits  | field                      |
/// |-------|----------------------------|
/// | 0     | rasterizer enable          |
/// | 1     | depth clamp enable         |
/// | 2     | fill rectangle enable      |
/// | 3-4   | polygon mode, front faces  |
/// | 5-6   | polygon mode, back faces   |
/// | 7-8   | cull mode                  |
/// | 9     | front face                 |
/// | 10    | provoking vertex           |
/// | 11-13 | polygon smooth enable mask |
/// | 14-16 | depth bias enable mask     |
/// | 17-31 | zero                       |
#[derive(Debug, Copy, Clone, PartialEq, Eq, Hash)]
pub struct RasterizerState {
    bits: u32,
}

impl View for RasterizerState {
    type V = RasterizerStateView;

    closed spec fn view(&self) -> RasterizerStateView {
        RasterizerState::unpack(self.bits)
    }
}

impl RasterizerState {
    /// The word made of the field values, each at its place.
    pub open spec fn pack_fields(
        rasterizer_enable: u32,
        depth_clamp_enable: u32,
        fill_rectangle_enable: u32,
        polygon_mode_front: u32,
        polygon_mode_back: u32,
        cull_mode: u32,
        front_face: u32,
        provoking_vertex: u32,
        polygon_smooth_enable_mask: u32,
        depth_bias_enable_mask: u32,
    ) -> u32 {
        rasterizer_enable | (depth_clamp_enable << 1u32) | (fill_rectangle_enable << 2u32)
            | (polygon_mode_front << 3u32) | (polygon_mode_back << 5u32) | (cull_mode << 7u32)
            | (front_face << 9u32) | (provoking_vertex << 10u32)
            | (polygon_smooth_enable_mask << 11u32) | (depth_bias_enable_mask << 14u32)
    }

    /// The word that holds the state `view`.
    pub open spec fn pack(view: RasterizerStateView) -> u32 {
        RasterizerState::pack_fields(
            flag_bit(view.rasterizer_enable),
            flag_bit(view.depth_clamp_enable),
            flag_bit(view.fill_rectangle_enable),
            view.polygon_mode_front.raw(),
            view.polygon_mode_back.raw(),
            view.cull_mode.raw(),
            view.front_face.raw(),
            view.provoking_vertex.raw(),
            view.polygon_smooth_enable_mask,
            view.depth_bias_enable_mask,
        )
    }

    /// The state that the word holds.
    pub open spec fn unpack(bits: u32) -> RasterizerStateView {
        RasterizerStateView {
            rasterizer_enable: extract(bits, 0, 1) != 0,
            depth_clamp_enable: extract(bits, 1, 1) != 0,
            fill_rectangle_enable: extract(bits, 2, 1) != 0,
            polygon_mode_front: PolygonMode::of_raw(extract(bits, 3, 2)),
            polygon_mode_back: PolygonMode::of_raw(extract(bits, 5, 2)),
            cull_mode: Face::of_raw(extract(bits, 7, 2)),
            front_face: FrontFace::of_raw(extract(bits, 9, 1)),
            provoking_vertex: ProvokingVertex::of_raw(extract(bits, 10, 1)),
            polygon_smooth_enable_mask: extract(bits, 11, 3),
            depth_bias_enable_mask: extract(bits, 14, 3),
        }
    }

    /// The words that hold a state: both polygon modes are numbers of a mode, and the bits
    /// above the fields are zero.
    pub open spec fn is_packed(bits: u32) -> bool {
        &&& PolygonMode::is_raw(extract(bits, 3, 2))
        &&& PolygonMode::is_raw(extract(bits, 5, 2))
        &&& extract(bits, 17, 15) == 0
    }

    #[verifier::type_invariant]
    spec fn well_formed(&self) -> bool {
        RasterizerState::is_packed(self.bits)
    }

    proof fn lemma_fields_of_pack(
        word: u32,
        a0: u32,
        a1: u32,
        a2: u32,
        a3: u32,
        a4: u32,
        a5: u32,
        a6: u32,
        a7: u32,
        a8: u32,
        a9: u32,
    )
        by (bit_vector)
        requires
            word == RasterizerState::pack_fields(a0, a1, a2, a3, a4, a5, a6, a7, a8, a9),
            a0 <= 1,
            a1 <= 1,
            a2 <= 1,
            a3 <= 3,
            a4 <= 3,
            a5 <= 3,
            a6 <= 1,
            a7 <= 1,
            a8 <= 7,
            a9 <= 7,
        ensures
            extract(word, 0, 1) == a0,
            extract(word, 1, 1) == a1,
            extract(word, 2, 1) == a2,
            extract(word, 3, 2) == a3,
            extract(word, 5, 2) == a4,
            extract(word, 7, 2) == a5,
            extract(word, 9, 1) == a6,
            extract(word, 10, 1) == a7,
            extract(word, 11, 3) == a8,
            extract(word, 14, 3) == a9,
            extract(word, 17, 15) == 0,
            RasterizerState::pack_fields(1, 0, 0, 2, 2, 2, 1, 1, 0, 0) == 0x751,
    {
    }

    proof fn lemma_pack_of_fields(bits: u32)
        by (bit_vector)
        requires
            extract(bits, 17, 15) == 0,
        ensures
            RasterizerState::pack_fields(
                extract(bits, 0, 1),
                extract(bits, 1, 1),
                extract(bits, 2, 1),
                extract(bits, 3, 2),
                extract(bits, 5, 2),
                extract(bits, 7, 2),
                extract(bits, 9, 1),
                extract(bits, 10, 1),
                extract(bits, 11, 3),
                extract(bits, 14, 3),
            ) == bits,
    {
    }

    /// What is read back from the packed word after the state `view` was put there.
    pub open spec fn read_back(view: RasterizerStateView) -> RasterizerStateView {
        RasterizerState::unpack(RasterizerState::pack(view))
    }

    /// Packing a legal state and unpacking the word gives the state back: every field
    /// holds every value of its domain, whatever the other fields hold. The word
    /// is one that holds a state.
    pub proof fn lemma_unpack_pack(view: RasterizerStateView)
        requires
            view.is_legal(),
        ensures
            RasterizerState::read_back(view) == view,
            RasterizerState::is_packed(RasterizerState::pack(view)),
    {
        RasterizerState::lemma_fields_of_pack(
            RasterizerState::pack(view),
            flag_bit(view.rasterizer_enable),
            flag_bit(view.depth_clamp_enable),
            flag_bit(view.fill_rectangle_enable),
            view.polygon_mode_front.raw(),
            view.polygon_mode_back.raw(),
            view.cull_mode.raw(),
            view.front_face.raw(),
            view.provoking_vertex.raw(),
            view.polygon_smooth_enable_mask,
            view.depth_bias_enable_mask,
        );
    }

    /// Unpacking a word that holds a state and packing the state gives the word back:
    /// a state has one packed form. The state is legal.
    pub proof fn lemma_pack_unpack(bits: u32)
        requires
            RasterizerState::is_packed(bits),
        ensures
            RasterizerState::pack(RasterizerState::unpack(bits)) == bits,
            RasterizerState::unpack(bits).is_legal(),
    {
        lemma_fields();
        RasterizerState::lemma_pack_of_fields(bits);
    }

    /// A field that is set on the reset state reads back as it was set. This holds of every
    /// field and of every value of its domain: here each field in turn is set to what it is
    /// in `view`.
    pub proof fn lemma_set_then_get(view: RasterizerStateView)
        requires
            view.is_legal(),
        ensures
            RasterizerState::read_back(
                RasterizerStateView {
                    rasterizer_enable: view.rasterizer_enable,
                    ..RasterizerStateView::defaults()
                },
            ).rasterizer_enable == view.rasterizer_enable,
            RasterizerState::read_back(
                RasterizerStateView {
                    depth_clamp_enable: view.depth_clamp_enable,
                    ..RasterizerStateView::defaults()
                },
            ).depth_clamp_enable == view.depth_clamp_enable,
            RasterizerState::read_back(
                RasterizerStateView {
                    fill_rectangle_enable: view.fill_rectangle_enable,
                    ..RasterizerStateView::defaults()
                },
            ).fill_rectangle_enable == view.fill_rectangle_enable,
            RasterizerState::read_back(
                RasterizerStateView {
                    polygon_mode_front: view.polygon_mode_front,
                    ..RasterizerStateView::defaults()
                },
            ).polygon_mode_front == view.polygon_mode_front,
            RasterizerState::read_back(
                RasterizerStateView {
                    polygon_mode_back: view.polygon_mode_back,
                    ..RasterizerStateView::defaults()
                },
            ).polygon_mode_back == view.polygon_mode_back,
            RasterizerState::read_back(
                RasterizerStateView {
                    cull_mode: view.cull_mode,
                    ..RasterizerStateView::defaults()
                },
            ).cull_mode == view.cull_mode,
            RasterizerState::read_back(
                RasterizerStateView {
                    front_face: view.front_face,
                    ..RasterizerStateView::defaults()
                },
            ).front_face == view.front_face,
            RasterizerState::read_back(
                RasterizerStateView {
                    provoking_vertex: view.provoking_vertex,
                    ..RasterizerStateView::defaults()
                },
            ).provoking_vertex == view.provoking_vertex,
            RasterizerState::read_back(
                RasterizerStateView {
                    polygon_smooth_enable_mask: view.polygon_smooth_enable_mask,
                    ..RasterizerStateView::defaults()
                },
            ).polygon_smooth_enable_mask == view.polygon_smooth_enable_mask,
            RasterizerState::read_back(
                RasterizerStateView {
                    depth_bias_enable_mask: view.depth_bias_enable_mask,
                    ..RasterizerStateView::defaults()
                },
            ).depth_bias_enable_mask == view.depth_bias_enable_mask,
    {
        RasterizerState::lemma_unpack_pack(
            RasterizerStateView {
                rasterizer_enable: view.rasterizer_enable,
                ..RasterizerStateView::defaults()
            },
        );
        RasterizerState::lemma_unpack_pack(
            RasterizerStateView {
                depth_clamp_enable: view.depth_clamp_enable,
                ..RasterizerStateView::defaults()
            },
        );
        RasterizerState::lemma_unpack_pack(
            RasterizerStateView {
                fill_rectangle_enable: view.fill_rectangle_enable,
                ..RasterizerStateView::defaults()
            },
        );
        RasterizerState::lemma_unpack_pack(
            RasterizerStateView {
                polygon_mode_front: view.polygon_mode_front,
                ..RasterizerStateView::defaults()
            },
        );
        RasterizerState::lemma_unpack_pack(
            RasterizerStateView {
                polygon_mode_back: view.polygon_mode_back,
                ..RasterizerStateView::defaults()
            },
        );
        RasterizerState::lemma_unpack_pack(
            RasterizerStateView { cull_mode: view.cull_mode, ..RasterizerStateView::defaults() },
        );
        RasterizerState::lemma_unpack_pack(
            RasterizerStateView { front_face: view.front_face, ..RasterizerStateView::defaults() },
        );
        RasterizerState::lemma_unpack_pack(
            RasterizerStateView {
                provoking_vertex: view.provoking_vertex,
                ..RasterizerStateView::defaults()
            },
        );
        RasterizerState::lemma_unpack_pack(
            RasterizerStateView {
                polygon_smooth_enable_mask: view.polygon_smooth_enable_mask,
                ..RasterizerStateView::defaults()
            },
        );
        RasterizerState::lemma_unpack_pack(
            RasterizerStateView {
                depth_bias_enable_mask: view.depth_bias_enable_mask,
                ..RasterizerStateView::defaults()
            },
        );
    }

    /// The state of the hardware after a reset.
    pub fn new() -> (state: RasterizerState)
        ensures
            state@ == RasterizerStateView::defaults(),
    {
        proof {
            RasterizerState::lemma_fields_of_pack(
                RasterizerState::pack_fields(1, 0, 0, 2, 2, 2, 1, 1, 0, 0),
                1,
                0,
                0,
                2,
                2,
                2,
                1,
                1,
                0,
                0,
            );
        }
        RasterizerState { bits: 0x751 }
    }

    /// The packed word, as it is bound into a command stream.
    pub fn to_bits(&self) -> (bits: u32)
        ensures
            bits == RasterizerState::pack(self@),
            RasterizerState::unpack(bits) == self@,
            RasterizerState::is_packed(bits),
    {
        proof {
            use_type_invariant(self);
            RasterizerState::lemma_pack_unpack(self.bits);
        }
        self.bits
    }

    pub fn set_rasterizer_enable(&mut self, enable: bool) -> (ret: &mut Self)
        ensures
            ret@ == (RasterizerStateView { rasterizer_enable: enable, ..old(self)@ }),
            *final(self) == *final(ret),
    {
        proof {
            use_type_invariant(&*self);
            lemma_fields();
        }
        self.bits = set_field(self.bits, 0, 1, bit_of(enable));
        self
    }

    pub fn set_depth_clamp_enable(&mut self, enable: bool) -> (ret: &mut Self)
        ensures
            ret@ == (RasterizerStateView { depth_clamp_enable: enable, ..old(self)@ }),
            *final(self) == *final(ret),
    {
        proof {
            use_type_invariant(&*self);
            lemma_fields();
        }
        self.bits = set_field(self.bits, 1, 1, bit_of(enable));
        self
    }

    pub fn set_fill_rectangle_enable(&mut self, enable: bool) -> (ret: &mut Self)
        ensures
            ret@ == (RasterizerStateView { fill_rectangle_enable: enable, ..old(self)@ }),
            *final(self) == *final(ret),
    {
        proof {
            use_type_invariant(&*self);
            lemma_fields();
        }
        self.bits = set_field(self.bits, 2, 1, bit_of(enable));
        self
    }

    /// Sets the polygon mode of both faces.
    pub fn set_polygon_mode(&mut self, mode: PolygonMode) -> (ret: &mut Self)
        ensures
            ret@ == (RasterizerStateView {
                polygon_mode_front: mode,
                polygon_mode_back: mode,
                ..old(self)@
            }),
            *final(self) == *final(ret),
    {
        proof {
            use_type_invariant(&*self);
            lemma_fields();
        }
        self.bits = set_field(self.bits, 3, 2, mode.to_raw());
        self.bits = set_field(self.bits, 5, 2, mode.to_raw());
        self
    }

    pub fn set_polygon_mode_front(&mut self, mode: PolygonMode) -> (ret: &mut Self)
        ensures
            ret@ == (RasterizerStateView { polygon_mode_front: mode, ..old(self)@ }),
            *final(self) == *final(ret),
    {
        proof {
            use_type_invariant(&*self);
            lemma_fields();
        }
        self.bits = set_field(self.bits, 3, 2, mode.to_raw());
        self
    }

    pub fn set_polygon_mode_back(&mut self, mode: PolygonMode) -> (ret: &mut Self)
        ensures
            ret@ == (RasterizerStateView { polygon_mode_back: mode, ..old(self)@ }),
            *final(self) == *final(ret),
    {
        proof {
            use_type_invariant(&*self);
            lemma_fields();
        }
        self.bits = set_field(self.bits, 5, 2, mode.to_raw());
        self
    }

    pub fn set_cull_mode(&mut self, cull_mode: Face) -> (ret: &mut Self)
        ensures
            ret@ == (RasterizerStateView { cull_mode, ..old(self)@ }),
            *final(self) == *final(ret),
    {
        proof {
            use_type_invariant(&*self);
            lemma_fields();
        }
        self.bits = set_field(self.bits, 7, 2, cull_mode.to_raw());
        self
    }

    pub fn set_front_face(&mut self, front_face: FrontFace) -> (ret: &mut Self)
        ensures
            ret@ == (RasterizerStateView { front_face, ..old(self)@ }),
            *final(self) == *final(ret),
    {
        proof {
            use_type_invariant(&*self);
            lemma_fields();
        }
        self.bits = set_field(self.bits, 9, 1, front_face.to_raw());
        self
    }

    pub fn set_provoking_vertex(&mut self, provoking_vertex: ProvokingVertex) -> (ret: &mut Self)
        ensures
            ret@ == (RasterizerStateView { provoking_vertex, ..old(self)@ }),
            *final(self) == *final(ret),
    {
        proof {
            use_type_invariant(&*self);
            lemma_fields();
        }
        self.bits = set_field(self.bits, 10, 1, provoking_vertex.to_raw());
        self
    }

    /// Smooths polygons of every mode, or of none.
    pub fn set_polygon_smooth_enable(&mut self, enable: bool) -> (ret: &mut Self)
        ensures
            ret@ == (RasterizerStateView {
                polygon_smooth_enable_mask: if enable {
                    PolygonFlag::all_bits()
                } else {
                    0
                },
                ..old(self)@
            }),
            *final(self) == *final(ret),
    {
        let mask: u32 = if enable {
            PolygonFlag::all().bits()
        } else {
            0
        };
        self.set_polygon_smooth_enable_mask(mask)
    }

    /// Keeps the three low bits of `mask`, one for each polygon mode.
    pub fn set_polygon_smooth_enable_mask(&mut self, mask: u32) -> (ret: &mut Self)
        ensures
            ret@ == (RasterizerStateView { polygon_smooth_enable_mask: mask & 7, ..old(self)@ }),
            mask <= 7 ==> ret@.polygon_smooth_enable_mask == mask,
            *final(self) == *final(ret),
    {
        proof {
            use_type_invariant(&*self);
            lemma_fields();
        }
        self.bits = set_field(self.bits, 11, 3, mask);
        self
    }

    /// Applies the depth bias to polygons of every mode, or of none.
    pub fn set_depth_bias_enable(&mut self, enable: bool) -> (ret: &mut Self)
        ensures
            ret@ == (RasterizerStateView {
                depth_bias_enable_mask: if enable {
                    PolygonFlag::all_bits()
                } else {
                    0
                },
                ..old(self)@
            }),
            *final(self) == *final(ret),
    {
        let mask: u32 = if enable {
            PolygonFlag::all().bits()
        } else {
            0
        };
        self.set_depth_bias_enable_mask(mask)
    }

    /// Keeps the three low bits of `mask`, one for each polygon mode.
    pub fn set_depth_bias_enable_mask(&mut self, mask: u32) -> (ret: &mut Self)
        ensures
            ret@ == (RasterizerStateView { depth_bias_enable_mask: mask & 7, ..old(self)@ }),
            mask <= 7 ==> ret@.depth_bias_enable_mask == mask,
            *final(self) == *final(ret),
    {
        proof {
            use_type_invariant(&*self);
            lemma_fields();
        }
        self.bits = set_field(self.bits, 14, 3, mask);
        self
    }

    pub fn get_rasterizer_enable(&self) -> (enable: bool)
        ensures
            enable == self@.rasterizer_enable,
    {
        get_field(self.bits, 0, 1) != 0
    }

    pub fn get_depth_clamp_enable(&self) -> (enable: bool)
        ensures
            enable == self@.depth_clamp_enable,
    {
        get_field(self.bits, 1, 1) != 0
    }

    pub fn get_fill_rectangle_enable(&self) -> (enable: bool)
        ensures
            enable == self@.fill_rectangle_enable,
    {
        get_field(self.bits, 2, 1) != 0
    }

    pub fn get_polygon_mode_front(&self) -> (mode: PolygonMode)
        ensures
            mode == self@.polygon_mode_front,
    {
        proof {
            use_type_invariant(self);
        }
        PolygonMode::from(get_field(self.bits, 3, 2))
    }

    pub fn get_polygon_mode_back(&self) -> (mode: PolygonMode)
        ensures
            mode == self@.polygon_mode_back,
    {
        proof {
            use_type_invariant(self);
        }
        PolygonMode::from(get_field(self.bits, 5, 2))
    }

    pub fn get_cull_mode(&self) -> (mode: Face)
        ensures
            mode == self@.cull_mode,
    {
        proof {
            lemma_fields();
        }
        Face::from(get_field(self.bits, 7, 2))
    }

    pub fn get_front_face(&self) -> (front_face: FrontFace)
        ensures
            front_face == self@.front_face,
    {
        proof {
            lemma_fields();
        }
        FrontFace::from(get_field(self.bits, 9, 1))
    }

    pub fn get_provoking_vertex(&self) -> (vertex: ProvokingVertex)
        ensures
            vertex == self@.provoking_vertex,
    {
        proof {
            lemma_fields();
        }
        ProvokingVertex::from(get_field(self.bits, 10, 1))
    }

    /// Whether polygons of any mode are smoothed.
    pub fn get_polygon_smooth_enable(&self) -> (enable: bool)
        ensures
            enable == (self@.polygon_smooth_enable_mask != 0),
    {
        get_field(self.bits, 11, 3) != 0
    }

    pub fn get_polygon_smooth_enable_mask(&self) -> (mask: u32)
        ensures
            mask == self@.polygon_smooth_enable_mask,
            mask <= 7,
    {
        proof {
            lemma_fields();
        }
        get_field(self.bits, 11, 3)
    }

    /// Whether the depth bias applies to polygons of any mode.
    pub fn get_depth_bias_enable(&self) -> (enable: bool)
        ensures
            enable == (self@.depth_bias_enable_mask != 0),
    {
        get_field(self.bits, 14, 3) != 0
    }

    pub fn get_depth_bias_enable_mask(&self) -> (mask: u32)
        ensures
            mask == self@.depth_bias_enable_mask,
            mask <= 7,
    {
        proof {
            lemma_fields();
        }
        get_field(self.bits, 14, 3)
    }
}

} // verus!
