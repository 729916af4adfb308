//! What the operations recorded into a command buffer are named by: the ways to wait for and
//! signal a variable, barriers, counters, primitives, index formats and viewport swizzles.

use crate::bits::{lemma_within, within};
use vstd::pervasive::unreached;
use vstd::prelude::*;

verus! {

/// The operation that a signal applies to a variable.
#[derive(Debug, Copy, Clone, PartialEq, Eq, Hash, Structural)]
pub enum VarOp {
    /// The variable becomes the value given.
    SetValue,
    Add,
    Sub,
    And,
    Or,
    Xor,
}

impl VarOp {
    /// The number that stands for this value in driver structures and command streams.
    pub open spec fn raw(self) -> u32 {
        match self {
            VarOp::SetValue => 0,
            VarOp::Add => 1,
            VarOp::Sub => 2,
            VarOp::And => 3,
            VarOp::Or => 4,
            VarOp::Xor => 5,
        }
    }

    pub fn to_raw(self) -> (code: u32)
        ensures
            code == self.raw(),
    {
        match self {
            VarOp::SetValue => 0,
            VarOp::Add => 1,
            VarOp::Sub => 2,
            VarOp::And => 3,
            VarOp::Or => 4,
            VarOp::Xor => 5,
        }
    }
}

/// The comparison that a recorded wait makes between a variable and a value. The GPU goes on
/// once it holds.
#[derive(Debug, Copy, Clone, PartialEq, Eq, Hash, Structural)]
pub enum VarCompareOp {
    Equal,
    /// The variable has reached the value, counting upwards with wrap-around.
    Sequential,
}

impl VarCompareOp {
    /// The number that stands for this value in driver structures and command streams.
    pub open spec fn raw(self) -> u32 {
        match self {
            VarCompareOp::Equal => 0,
            VarCompareOp::Sequential => 1,
        }
    }

    pub fn to_raw(self) -> (code: u32)
        ensures
            code == self.raw(),
    {
        match self {
            VarCompareOp::Equal => 0,
            VarCompareOp::Sequential => 1,
        }
    }
}

/// The place in the pipeline at which a variable is signalled.
#[derive(Debug, Copy, Clone, PartialEq, Eq, Hash, Structural)]
pub enum PipelinePos {
    Top,
    Rasterizer,
    Bottom,
}

impl PipelinePos {
    /// The number that stands for this value in driver structures and command streams.
    pub open spec fn raw(self) -> u32 {
        match self {
            PipelinePos::Top => 0,
            PipelinePos::Rasterizer => 1,
            PipelinePos::Bottom => 2,
        }
    }

    pub fn to_raw(self) -> (code: u32)
        ensures
            code == self.raw(),
    {
        match self {
            PipelinePos::Top => 0,
            PipelinePos::Rasterizer => 1,
            PipelinePos::Bottom => 2,
        }
    }
}

/// A counter of the GPU that can be reported or reset.
#[derive(Debug, Copy, Clone, PartialEq, Eq, Hash, Structural)]
pub enum Counter {
    TimestampPipelineTop,
    Timestamp,
    SamplesPassed,
    ZcullStats,
    InputVertices,
    InputPrimitives,
    VertexShaderInvocations,
    TessControlShaderInvocations,
    TessEvaluationShaderInvocations,
    GeometryShaderInvocations,
    FragmentShaderInvocations,
    TessEvaluationShaderPrimitives,
    GeometryShaderPrimitives,
    ClipperInputPrimitives,
    ClipperOutputPrimitives,
    PrimitivesGenerated,
    TransformFeedbackPrimitivesWritten,
}

impl Counter {
    /// The number that stands for this value in driver structures and command streams.
    pub open spec fn raw(self) -> u32 {
        match self {
            Counter::TimestampPipelineTop => 0,
            Counter::Timestamp => 1,
            Counter::SamplesPassed => 2,
            Counter::ZcullStats => 3,
            Counter::InputVertices => 4,
            Counter::InputPrimitives => 5,
            Counter::VertexShaderInvocations => 6,
            Counter::TessControlShaderInvocations => 7,
            Counter::TessEvaluationShaderInvocations => 8,
            Counter::GeometryShaderInvocations => 9,
            Counter::FragmentShaderInvocations => 10,
            Counter::TessEvaluationShaderPrimitives => 11,
            Counter::GeometryShaderPrimitives => 12,
            Counter::ClipperInputPrimitives => 13,
            Counter::ClipperOutputPrimitives => 14,
            Counter::PrimitivesGenerated => 15,
            Counter::TransformFeedbackPrimitivesWritten => 16,
        }
    }

    pub fn to_raw(self) -> (code: u32)
        ensures
            code == self.raw(),
    {
        match self {
            Counter::TimestampPipelineTop => 0,
            Counter::Timestamp => 1,
            Counter::SamplesPassed => 2,
            Counter::ZcullStats => 3,
            Counter::InputVertices => 4,
            Counter::InputPrimitives => 5,
            Counter::VertexShaderInvocations => 6,
            Counter::TessControlShaderInvocations => 7,
            Counter::TessEvaluationShaderInvocations => 8,
            Counter::GeometryShaderInvocations => 9,
            Counter::FragmentShaderInvocations => 10,
            Counter::TessEvaluationShaderPrimitives => 11,
            Counter::GeometryShaderPrimitives => 12,
            Counter::ClipperInputPrimitives => 13,
            Counter::ClipperOutputPrimitives => 14,
            Counter::PrimitivesGenerated => 15,
            Counter::TransformFeedbackPrimitivesWritten => 16,
        }
    }
}

/// How far earlier work must have come before later work starts.
#[derive(Debug, Copy, Clone, PartialEq, Eq, Hash, Structural)]
pub enum Barrier {
    /// No ordering.
    NoBarrier,
    /// Orders the processing of tiles.
    Tiles,
    /// Orders the processing of fragments.
    Fragments,
    /// All earlier primitives and compute jobs are done.
    Primitives,
    /// All earlier commands are done, and no later command was fetched ahead.
    Full,
}

impl Barrier {
    /// The number that stands for this value in driver structures and command streams.
    pub open spec fn raw(self) -> u32 {
        match self {
            Barrier::NoBarrier => 0,
            Barrier::Tiles => 1,
            Barrier::Fragments => 2,
            Barrier::Primitives => 3,
            Barrier::Full => 4,
        }
    }

    pub fn to_raw(self) -> (code: u32)
        ensures
            code == self.raw(),
    {
        match self {
            Barrier::NoBarrier => 0,
            Barrier::Tiles => 1,
            Barrier::Fragments => 2,
            Barrier::Primitives => 3,
            Barrier::Full => 4,
        }
    }
}

/// The caches that a barrier invalidates.
#[derive(Debug, Copy, Clone, PartialEq, Eq, Hash, Structural)]
pub struct InvalidateFlags {
    bits: u32,
}

impl View for InvalidateFlags {
    type V = u32;

    /// The bits that are set.
    closed spec fn view(&self) -> u32 {
        self.bits
    }
}

impl InvalidateFlags {
    /// Every bit that a flag of this set uses.
    pub open spec fn all_bits() -> u32 {
        0x1F
    }

    #[verifier::type_invariant]
    spec fn holds_known_bits_only(&self) -> bool {
        within(self.bits, InvalidateFlags::all_bits())
    }

    proof fn lemma_flag_values()
        by (bit_vector)
        ensures
            within(0x1, 0x1F),
            within(0x2, 0x1F),
            within(0x4, 0x1F),
            within(0x8, 0x1F),
            within(0x10, 0x1F),
            within(0x1F, 0x1F),
    {
    }

    /// The set without any flag.
    pub fn empty() -> (flags: Self)
        ensures
            flags@ == 0,
    {
        proof {
            lemma_within(0, 0, InvalidateFlags::all_bits());
        }
        InvalidateFlags { bits: 0 }
    }

    /// The set of all flags.
    pub fn all() -> (flags: Self)
        ensures
            flags@ == InvalidateFlags::all_bits(),
    {
        proof {
            InvalidateFlags::lemma_flag_values();
        }
        InvalidateFlags { bits: 0x1F }
    }

    /// The image cache.
    pub fn image() -> (flags: Self)
        ensures
            flags@ == 0x1,
    {
        proof {
            InvalidateFlags::lemma_flag_values();
        }
        InvalidateFlags { bits: 0x1 }
    }

    /// The caches of shader code, data and uniforms.
    pub fn shader() -> (flags: Self)
        ensures
            flags@ == 0x2,
    {
        proof {
            InvalidateFlags::lemma_flag_values();
        }
        InvalidateFlags { bits: 0x2 }
    }

    /// The caches of image and sampler descriptors.
    pub fn descriptors() -> (flags: Self)
        ensures
            flags@ == 0x4,
    {
        proof {
            InvalidateFlags::lemma_flag_values();
        }
        InvalidateFlags { bits: 0x4 }
    }

    /// The state of Zcull.
    pub fn zcull() -> (flags: Self)
        ensures
            flags@ == 0x8,
    {
        proof {
            InvalidateFlags::lemma_flag_values();
        }
        InvalidateFlags { bits: 0x8 }
    }

    /// The L2 cache.
    pub fn l2_cache() -> (flags: Self)
        ensures
            flags@ == 0x10,
    {
        proof {
            InvalidateFlags::lemma_flag_values();
        }
        InvalidateFlags { bits: 0x10 }
    }

    pub fn bits(&self) -> (bits: u32)
        ensures
            bits == self@,
            within(bits, InvalidateFlags::all_bits()),
    {
        proof {
            use_type_invariant(self);
        }
        self.bits
    }

    /// The flags among `bits`; bits that belong to no flag are dropped.
    pub fn from_bits_truncate(bits: u32) -> (flags: Self)
        ensures
            flags@ == bits & InvalidateFlags::all_bits(),
            within(bits, InvalidateFlags::all_bits()) ==> flags@ == bits,
    {
        proof {
            lemma_within(bits, 0, InvalidateFlags::all_bits());
        }
        InvalidateFlags { bits: bits & 0x1F }
    }

    /// The flags of either set.
    pub fn union(self, other: Self) -> (flags: Self)
        ensures
            flags@ == self@ | other@,
    {
        proof {
            use_type_invariant(self);
            use_type_invariant(other);
            lemma_within(self.bits, other.bits, InvalidateFlags::all_bits());
        }
        InvalidateFlags { bits: self.bits | other.bits }
    }

    /// Whether every flag of `other` is in this set.
    pub fn contains(&self, other: Self) -> (yes: bool)
        ensures
            yes == (self@ & other@ == other@),
    {
        self.bits & other.bits == other.bits
    }
}

/// A component of a position, or its negation.
#[derive(Debug, Copy, Clone, PartialEq, Eq, Hash, Structural)]
pub enum Swizzle {
    PositiveX,
    NegativeX,
    PositiveY,
    NegativeY,
    PositiveZ,
    NegativeZ,
    PositiveW,
    NegativeW,
}

impl Swizzle {
    /// The number that stands for this value in driver structures and command streams.
    pub open spec fn raw(self) -> u32 {
        match self {
            Swizzle::PositiveX => 0,
            Swizzle::NegativeX => 1,
            Swizzle::PositiveY => 2,
            Swizzle::NegativeY => 3,
            Swizzle::PositiveZ => 4,
            Swizzle::NegativeZ => 5,
            Swizzle::PositiveW => 6,
            Swizzle::NegativeW => 7,
        }
    }

    pub fn to_raw(self) -> (code: u32)
        ensures
            code == self.raw(),
    {
        match self {
            Swizzle::PositiveX => 0,
            Swizzle::NegativeX => 1,
            Swizzle::PositiveY => 2,
            Swizzle::NegativeY => 3,
            Swizzle::PositiveZ => 4,
            Swizzle::NegativeZ => 5,
            Swizzle::PositiveW => 6,
            Swizzle::NegativeW => 7,
        }
    }
}

/// For each component of the position that leaves a viewport, the component that it is taken
/// from.
#[derive(Debug, Copy, Clone, PartialEq, Eq, Hash, Structural)]
pub struct ViewportSwizzle {
    pub x: Swizzle,
    pub y: Swizzle,
    pub z: Swizzle,
    pub w: Swizzle,
}

/// An operation on the tiled cache.
#[derive(Debug, Copy, Clone, PartialEq, Eq, Hash, Structural)]
pub enum TiledCacheOp {
    Disable,
    Enable,
    Flush,
    FlushAlt,
    UnkDisable,
    UnkEnable,
}

impl TiledCacheOp {
    /// The number that stands for this value in driver structures and command streams.
    pub open spec fn raw(self) -> u32 {
        match self {
            TiledCacheOp::Disable => 0,
            TiledCacheOp::Enable => 1,
            TiledCacheOp::Flush => 2,
            TiledCacheOp::FlushAlt => 3,
            TiledCacheOp::UnkDisable => 4,
            TiledCacheOp::UnkEnable => 5,
        }
    }

    pub fn to_raw(self) -> (code: u32)
        ensures
            code == self.raw(),
    {
        match self {
            TiledCacheOp::Disable => 0,
            TiledCacheOp::Enable => 1,
            TiledCacheOp::Flush => 2,
            TiledCacheOp::FlushAlt => 3,
            TiledCacheOp::UnkDisable => 4,
            TiledCacheOp::UnkEnable => 5,
        }
    }
}

/// How a run of vertices is assembled into primitives.
#[derive(Debug, Copy, Clone, PartialEq, Eq, Hash, Structural)]
pub enum Primitive {
    Points,
    Lines,
    LineLoop,
    LineStrip,
    Triangles,
    TriangleStrip,
    TriangleFan,
    Quads,
    QuadStrip,
    Polygon,
    LinesAdjacency,
    LineStripAdjacency,
    TrianglesAdjacency,
    TriangleStripAdjacency,
    Patches,
}

impl Primitive {
    /// The number that stands for this value in driver structures and command streams.
    pub open spec fn raw(self) -> u32 {
        match self {
            Primitive::Points => 0,
            Primitive::Lines => 1,
            Primitive::LineLoop => 2,
            Primitive::LineStrip => 3,
            Primitive::Triangles => 4,
            Primitive::TriangleStrip => 5,
            Primitive::TriangleFan => 6,
            Primitive::Quads => 7,
            Primitive::QuadStrip => 8,
            Primitive::Polygon => 9,
            Primitive::LinesAdjacency => 10,
            Primitive::LineStripAdjacency => 11,
            Primitive::TrianglesAdjacency => 12,
            Primitive::TriangleStripAdjacency => 13,
            Primitive::Patches => 14,
        }
    }

    /// Whether `code` is the number of some value of this type.
    pub open spec fn is_raw(code: u32) -> bool {
        code <= 14
    }

    /// The value whose number is `code`; it means nothing where `code` is no such number.
    pub open spec fn of_raw(code: u32) -> Primitive {
        match code {
            0 => Primitive::Points,
            1 => Primitive::Lines,
            2 => Primitive::LineLoop,
            3 => Primitive::LineStrip,
            4 => Primitive::Triangles,
            5 => Primitive::TriangleStrip,
            6 => Primitive::TriangleFan,
            7 => Primitive::Quads,
            8 => Primitive::QuadStrip,
            9 => Primitive::Polygon,
            10 => Primitive::LinesAdjacency,
            11 => Primitive::LineStripAdjacency,
            12 => Primitive::TrianglesAdjacency,
            13 => Primitive::TriangleStripAdjacency,
            14 => Primitive::Patches,
            _ => arbitrary(),
        }
    }

    pub fn to_raw(self) -> (code: u32)
        ensures
            code == self.raw(),
            Primitive::is_raw(code),
            Primitive::of_raw(code) == self,
    {
        match self {
            Primitive::Points => 0,
            Primitive::Lines => 1,
            Primitive::LineLoop => 2,
            Primitive::LineStrip => 3,
            Primitive::Triangles => 4,
            Primitive::TriangleStrip => 5,
            Primitive::TriangleFan => 6,
            Primitive::Quads => 7,
            Primitive::QuadStrip => 8,
            Primitive::Polygon => 9,
            Primitive::LinesAdjacency => 10,
            Primitive::LineStripAdjacency => 11,
            Primitive::TrianglesAdjacency => 12,
            Primitive::TriangleStripAdjacency => 13,
            Primitive::Patches => 14,
        }
    }

    pub fn is_valid_raw(code: u32) -> (valid: bool)
        ensures
            valid == Primitive::is_raw(code),
    {
        code <= 14
    }

    /// Reads a number handed back by the driver. Numbers that stand for no value are
    /// left to the caller, who can tell them apart with `is_valid_raw`.
    pub fn from(code: u32) -> (value: Primitive)
        requires
            Primitive::is_raw(code),
        ensures
            value == Primitive::of_raw(code),
            value.raw() == code,
    {
        match code {
            0 => Primitive::Points,
            1 => Primitive::Lines,
            2 => Primitive::LineLoop,
            3 => Primitive::LineStrip,
            4 => Primitive::Triangles,
            5 => Primitive::TriangleStrip,
            6 => Primitive::TriangleFan,
            7 => Primitive::Quads,
            8 => Primitive::QuadStrip,
            9 => Primitive::Polygon,
            10 => Primitive::LinesAdjacency,
            11 => Primitive::LineStripAdjacency,
            12 => Primitive::TrianglesAdjacency,
            13 => Primitive::TriangleStripAdjacency,
            14 => Primitive::Patches,
            _ => unreached(),
        }
    }
}

/// The width of the indices in an index buffer.
#[derive(Debug, Copy, Clone, PartialEq, Eq, Hash, Structural)]
pub enum IdxFormat {
    Uint8,
    Uint16,
    Uint32,
}

impl IdxFormat {
    /// The number that stands for this value in driver structures and command streams.
    pub open spec fn raw(self) -> u32 {
        match self {
            IdxFormat::Uint8 => 0,
            IdxFormat::Uint16 => 1,
            IdxFormat::Uint32 => 2,
        }
    }

    /// Whether `code` is the number of some value of this type.
    pub open spec fn is_raw(code: u32) -> bool {
        code <= 2
    }

    /// The value whose number is `code`; it means nothing where `code` is no such number.
    pub open spec fn of_raw(code: u32) -> IdxFormat {
        match code {
            0 => IdxFormat::Uint8,
            1 => IdxFormat::Uint16,
            2 => IdxFormat::Uint32,
            _ => arbitrary(),
        }
    }

    pub fn to_raw(self) -> (code: u32)
        ensures
            code == self.raw(),
            IdxFormat::is_raw(code),
            IdxFormat::of_raw(code) == self,
    {
        match self {
            IdxFormat::Uint8 => 0,
            IdxFormat::Uint16 => 1,
            IdxFormat::Uint32 => 2,
        }
    }

    pub fn is_valid_raw(code: u32) -> (valid: bool)
        ensures
            valid == IdxFormat::is_raw(code),
    {
        code <= 2
    }

    /// Reads a number handed back by the driver. Numbers that stand for no value are
    /// left to the caller, who can tell them apart with `is_valid_raw`.
    pub fn from(code: u32) -> (value: IdxFormat)
        requires
            IdxFormat::is_raw(code),
        ensures
            value == IdxFormat::of_raw(code),
            value.raw() == code,
    {
        match code {
            0 => IdxFormat::Uint8,
            1 => IdxFormat::Uint16,
            2 => IdxFormat::Uint32,
            _ => unreached(),
        }
    }
}

/// The configuration from which a command buffer is made.
///
/// The user data and the callback belong to the caller's program. They are kept as
/// addresses, which only the driver follows; zero stands for none.
#[derive(Debug, Copy, Clone, PartialEq, Eq, Hash, Structural)]
pub struct CmdBufMaker {
    /// What the driver hands to the callback.
    pub user_data: usize,
    /// The function that is asked for more memory when the command buffer runs out of it,
    /// or zero.
    pub cb_add_mem: usize,
}

impl CmdBufMaker {
    /// The configuration with the defaults: no user data and no callback.
    pub fn new() -> (maker: CmdBufMaker)
        ensures
            maker == (CmdBufMaker { user_data: 0, cb_add_mem: 0 }),
    {
        CmdBufMaker { user_data: 0, cb_add_mem: 0 }
    }

    pub fn set_user_data(&mut self, user_data: usize) -> (ret: &mut Self)
        ensures
            *ret == (CmdBufMaker { user_data, ..*old(self) }),
            *final(self) == *final(ret),
    {
        self.user_data = user_data;
        self
    }

    pub fn set_add_mem_callback(&mut self, cb_add_mem: usize) -> (ret: &mut Self)
        ensures
            *ret == (CmdBufMaker { cb_add_mem, ..*old(self) }),
            *final(self) == *final(ret),
    {
        self.cb_add_mem = cb_add_mem;
        self
    }
}

} // verus!
