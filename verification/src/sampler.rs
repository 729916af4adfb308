//! Samplers: how a texture is filtered, wrapped and compared when a shader reads it.

use crate::compare::CompareOp;
use vstd::prelude::*;

verus! {

/// How texels are combined where a texture is magnified or minified.
#[derive(Debug, Copy, Clone, PartialEq, Eq, Hash, Structural)]
pub enum Filter {
    Nearest,
    Linear,
}

impl Filter {
    /// The number that stands for this value in driver structures and command streams.
    pub open spec fn raw(self) -> u32 {
        match self {
            Filter::Nearest => 1,
            Filter::Linear => 2,
        }
    }

    pub fn to_raw(self) -> (code: u32)
        ensures
            code == self.raw(),
    {
        match self {
            Filter::Nearest => 1,
            Filter::Linear => 2,
        }
    }
}

/// How mip levels are combined.
#[derive(Debug, Copy, Clone, PartialEq, Eq, Hash, Structural)]
pub enum MipFilter {
    /// Only the base level is read.
    NoMip,
    Nearest,
    Linear,
}

impl MipFilter {
    /// The number that stands for this value in driver structures and command streams.
    pub open spec fn raw(self) -> u32 {
        match self {
            MipFilter::NoMip => 1,
            MipFilter::Nearest => 2,
            MipFilter::Linear => 3,
        }
    }

    pub fn to_raw(self) -> (code: u32)
        ensures
            code == self.raw(),
    {
        match self {
            MipFilter::NoMip => 1,
            MipFilter::Nearest => 2,
            MipFilter::Linear => 3,
        }
    }
}

/// What a coordinate outside the texture reads.
#[derive(Debug, Copy, Clone, PartialEq, Eq, Hash, Structural)]
pub enum WrapMode {
    Repeat,
    MirroredRepeat,
    ClampToEdge,
    ClampToBorder,
    Clamp,
    MirrorClampToEdge,
    MirrorClampToBorder,
    MirrorClamp,
}

impl WrapMode {
    /// The number that stands for this value in driver structures and command streams.
    pub open spec fn raw(self) -> u32 {
        match self {
            WrapMode::Repeat => 0,
            WrapMode::MirroredRepeat => 1,
            WrapMode::ClampToEdge => 2,
            WrapMode::ClampToBorder => 3,
            WrapMode::Clamp => 4,
            WrapMode::MirrorClampToEdge => 5,
            WrapMode::MirrorClampToBorder => 6,
            WrapMode::MirrorClamp => 7,
        }
    }

    pub fn to_raw(self) -> (code: u32)
        ensures
            code == self.raw(),
    {
        match self {
            WrapMode::Repeat => 0,
            WrapMode::MirroredRepeat => 1,
            WrapMode::ClampToEdge => 2,
            WrapMode::ClampToBorder => 3,
            WrapMode::Clamp => 4,
            WrapMode::MirrorClampToEdge => 5,
            WrapMode::MirrorClampToBorder => 6,
            WrapMode::MirrorClamp => 7,
        }
    }
}

/// How the texels under a filter are reduced to one value.
#[derive(Debug, Copy, Clone, PartialEq, Eq, Hash, Structural)]
pub enum SamplerReduction {
    WeightedAverage,
    Min,
    Max,
}

impl SamplerReduction {
    /// The number that stands for this value in driver structures and command streams.
    pub open spec fn raw(self) -> u32 {
        match self {
            SamplerReduction::WeightedAverage => 0,
            SamplerReduction::Min => 1,
            SamplerReduction::Max => 2,
        }
    }

    pub fn to_raw(self) -> (code: u32)
        ensures
            code == self.raw(),
    {
        match self {
            SamplerReduction::WeightedAverage => 0,
            SamplerReduction::Min => 1,
            SamplerReduction::Max => 2,
        }
    }
}

/// The bits of the single-precision number 1.
pub const FLOAT_ONE_BITS: u32 = 0x3F80_0000;

/// The bits of the single-precision number 1000.
pub const FLOAT_THOUSAND_BITS: u32 = 0x447A_0000;

/// The description of a sampler.
///
/// The fields that are real numbers hold the bits of a single-precision number, as
/// `f32::to_bits` gives them; zero is the number 0. The border color holds four words that
/// the hardware reads as real numbers, as unsigned or as signed integers, depending on the
/// format of the texture.
#[derive(Debug, Copy, Clone, PartialEq, Eq, Hash)]
pub struct Sampler {
    pub min_filter: Filter,
    pub mag_filter: Filter,
    pub mip_filter: MipFilter,
    /// The wrap mode along each of the three coordinates.
    pub wrap_mode: [WrapMode; 3],
    pub lod_clamp_min: u32,
    pub lod_clamp_max: u32,
    pub lod_bias: u32,
    pub lod_snap: u32,
    pub compare_enable: bool,
    pub compare_op: CompareOp,
    /// Red, green, blue and alpha of the border.
    pub border_color: [u32; 4],
    pub max_anisotropy: u32,
    pub reduction_mode: SamplerReduction,
}

impl Sampler {
    /// The description with the defaults: nearest texel of the base level, coordinates
    /// repeat, levels of detail from 0 to 1000 without bias or snap, no comparison (which
    /// would be `Less`), a border of zeros, an anisotropy of 1, and the weighted average.
    pub fn new() -> (sampler: Sampler)
        ensures
            sampler.min_filter == Filter::Nearest,
            sampler.mag_filter == Filter::Nearest,
            sampler.mip_filter == MipFilter::NoMip,
            sampler.wrap_mode@ == seq![WrapMode::Repeat, WrapMode::Repeat, WrapMode::Repeat],
            sampler.lod_clamp_min == 0,
            sampler.lod_clamp_max == FLOAT_THOUSAND_BITS,
            sampler.lod_bias == 0,
            sampler.lod_snap == 0,
            !sampler.compare_enable,
            sampler.compare_op == CompareOp::Less,
            sampler.border_color@ == seq![0u32, 0u32, 0u32, 0u32],
            sampler.max_anisotropy == FLOAT_ONE_BITS,
            sampler.reduction_mode == SamplerReduction::WeightedAverage,
    {
        let wrap_mode: [WrapMode; 3] = [WrapMode::Repeat, WrapMode::Repeat, WrapMode::Repeat];
        let border_color: [u32; 4] = [0, 0, 0, 0];
        assert(wrap_mode@ =~= seq![WrapMode::Repeat, WrapMode::Repeat, WrapMode::Repeat]);
        assert(border_color@ =~= seq![0u32, 0u32, 0u32, 0u32]);
        Sampler {
            min_filter: Filter::Nearest,
            mag_filter: Filter::Nearest,
            mip_filter: MipFilter::NoMip,
            wrap_mode,
            lod_clamp_min: 0,
            lod_clamp_max: FLOAT_THOUSAND_BITS,
            lod_bias: 0,
            lod_snap: 0,
            compare_enable: false,
            compare_op: CompareOp::Less,
            border_color,
            max_anisotropy: FLOAT_ONE_BITS,
            reduction_mode: SamplerReduction::WeightedAverage,
        }
    }

    /// Sets the filters for minified and for magnified textures, and the filter between mip
    /// levels.
    pub fn set_filter(&mut self, min: Filter, mag: Filter, mip: MipFilter) -> (ret: &mut Self)
        ensures
            *ret == (Sampler { min_filter: min, mag_filter: mag, mip_filter: mip, ..*old(self) }),
            *final(self) == *final(ret),
    {
        self.min_filter = min;
        self.mag_filter = mag;
        self.mip_filter = mip;
        self
    }

    /// Sets the wrap mode along each of the three coordinates.
    pub fn set_wrap_mode(&mut self, u: WrapMode, v: WrapMode, p: WrapMode) -> (ret: &mut Self)
        ensures
            ret.wrap_mode@ == seq![u, v, p],
            *ret == (Sampler { wrap_mode: ret.wrap_mode, ..*old(self) }),
            *final(self) == *final(ret),
    {
        let wrap_mode: [WrapMode; 3] = [u, v, p];
        assert(wrap_mode@ =~= seq![u, v, p]);
        self.wrap_mode = wrap_mode;
        self
    }

    /// Sets the least and the greatest level of detail, each as the bits of a
    /// single-precision number.
    pub fn set_lod_clamp(&mut self, min_bits: u32, max_bits: u32) -> (ret: &mut Self)
        ensures
            *ret == (Sampler { lod_clamp_min: min_bits, lod_clamp_max: max_bits, ..*old(self) }),
            *final(self) == *final(ret),
    {
        self.lod_clamp_min = min_bits;
        self.lod_clamp_max = max_bits;
        self
    }

    /// Sets the bias of the level of detail, as the bits of a single-precision number.
    pub fn set_lod_bias(&mut self, bias_bits: u32) -> (ret: &mut Self)
        ensures
            *ret == (Sampler { lod_bias: bias_bits, ..*old(self) }),
            *final(self) == *final(ret),
    {
        self.lod_bias = bias_bits;
        self
    }

    /// Sets the snap of the level of detail, as the bits of a single-precision number.
    pub fn set_lod_snap(&mut self, snap_bits: u32) -> (ret: &mut Self)
        ensures
            *ret == (Sampler { lod_snap: snap_bits, ..*old(self) }),
            *final(self) == *final(ret),
    {
        self.lod_snap = snap_bits;
        self
    }

    /// Turns the comparison with a reference value on or off, and sets the comparison.
    pub fn set_depth_compare(&mut self, enable: bool, op: CompareOp) -> (ret: &mut Self)
        ensures
            *ret == (Sampler { compare_enable: enable, compare_op: op, ..*old(self) }),
            *final(self) == *final(ret),
    {
        self.compare_enable = enable;
        self.compare_op = op;
        self
    }

    /// Sets the border color of a texture of real numbers, each component as the bits of a
    /// single-precision number.
    pub fn set_border_color(
        &mut self,
        r_bits: u32,
        g_bits: u32,
        b_bits: u32,
        a_bits: u32,
    ) -> (ret: &mut Self)
        ensures
            ret.border_color@ == seq![r_bits, g_bits, b_bits, a_bits],
            *ret == (Sampler { border_color: ret.border_color, ..*old(self) }),
            *final(self) == *final(ret),
    {
        let border_color: [u32; 4] = [r_bits, g_bits, b_bits, a_bits];
        assert(border_color@ =~= seq![r_bits, g_bits, b_bits, a_bits]);
        self.border_color = border_color;
        self
    }

    /// Sets the border color of a texture of unsigned integers.
    pub fn set_border_color_ui(&mut self, r: u32, g: u32, b: u32, a: u32) -> (ret: &mut Self)
        ensures
            ret.border_color@ == seq![r, g, b, a],
            *ret == (Sampler { border_color: ret.border_color, ..*old(self) }),
            *final(self) == *final(ret),
    {
        let border_color: [u32; 4] = [r, g, b, a];
        assert(border_color@ =~= seq![r, g, b, a]);
        self.border_color = border_color;
        self
    }

    /// Sets the border color of a texture of signed integers. Each word holds its component
    /// in two's complement.
    pub fn set_border_color_i(&mut self, r: i32, g: i32, b: i32, a: i32) -> (ret: &mut Self)
        ensures
            ret.border_color@ == seq![r as u32, g as u32, b as u32, a as u32],
            *ret == (Sampler { border_color: ret.border_color, ..*old(self) }),
            *final(self) == *final(ret),
    {
        let border_color: [u32; 4] = [r as u32, g as u32, b as u32, a as u32];
        assert(border_color@ =~= seq![r as u32, g as u32, b as u32, a as u32]);
        self.border_color = border_color;
        self
    }

    /// Sets the greatest anisotropy, as the bits of a single-precision number.
    pub fn set_max_anisotropy(&mut self, max_bits: u32) -> (ret: &mut Self)
        ensures
            *ret == (Sampler { max_anisotropy: max_bits, ..*old(self) }),
            *final(self) == *final(ret),
    {
        self.max_anisotropy = max_bits;
        self
    }

    pub fn set_reduction_mode(&mut self, mode: SamplerReduction) -> (ret: &mut Self)
        ensures
            *ret == (Sampler { reduction_mode: mode, ..*old(self) }),
            *final(self) == *final(ret),
    {
        self.reduction_mode = mode;
        self
    }
}

} // verus!
