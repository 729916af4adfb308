//! Images: their layout in memory and the views through which they are used.

use crate::bits::{lemma_within, within};
use crate::format::ImageFormat;
use crate::multisample::MsMode;
use vstd::pervasive::unreached;
use vstd::prelude::*;

verus! {

/// The shape of an image.
#[derive(Debug, Copy, Clone, PartialEq, Eq, Hash, Structural)]
pub enum ImageType {
    /// No type: in an image view, the type of the image itself.
    NoType,
    /// One dimension.
    D1,
    /// Two dimensions.
    D2,
    /// Three dimensions.
    D3,
    D1Array,
    D2Array,
    /// Two dimensions, multisampled.
    D2MS,
    D2MSArray,
    Rectangle,
    Cubemap,
    CubemapArray,
    Buffer,
}

impl ImageType {
    /// The number that stands for this value in driver structures and command streams.
    pub open spec fn raw(self) -> u32 {
        match self {
            ImageType::NoType => 0,
            ImageType::D1 => 1,
            ImageType::D2 => 2,
            ImageType::D3 => 3,
            ImageType::D1Array => 4,
            ImageType::D2Array => 5,
            ImageType::D2MS => 6,
            ImageType::D2MSArray => 7,
            ImageType::Rectangle => 8,
            ImageType::Cubemap => 9,
            ImageType::CubemapArray => 10,
            ImageType::Buffer => 11,
        }
    }

    /// Whether `code` is the number of some value of this type.
    pub open spec fn is_raw(code: u32) -> bool {
        code <= 11
    }

    /// The value whose number is `code`; it means nothing where `code` is no such number.
    pub open spec fn of_raw(code: u32) -> ImageType {
        match code {
            0 => ImageType::NoType,
            1 => ImageType::D1,
            2 => ImageType::D2,
            3 => ImageType::D3,
            4 => ImageType::D1Array,
            5 => ImageType::D2Array,
            6 => ImageType::D2MS,
            7 => ImageType::D2MSArray,
            8 => ImageType::Rectangle,
            9 => ImageType::Cubemap,
            10 => ImageType::CubemapArray,
            11 => ImageType::Buffer,
            _ => arbitrary(),
        }
    }

    pub fn to_raw(self) -> (code: u32)
        ensures
            code == self.raw(),
            ImageType::is_raw(code),
            ImageType::of_raw(code) == self,
    {
        match self {
            ImageType::NoType => 0,
            ImageType::D1 => 1,
            ImageType::D2 => 2,
            ImageType::D3 => 3,
            ImageType::D1Array => 4,
            ImageType::D2Array => 5,
            ImageType::D2MS => 6,
            ImageType::D2MSArray => 7,
            ImageType::Rectangle => 8,
            ImageType::Cubemap => 9,
            ImageType::CubemapArray => 10,
            ImageType::Buffer => 11,
        }
    }

    pub fn is_valid_raw(code: u32) -> (valid: bool)
        ensures
            valid == ImageType::is_raw(code),
    {
        code <= 11
    }

    /// Reads a number handed back by the driver. Numbers that stand for no value are
    /// left to the caller, who can tell them apart with `is_valid_raw`.
    pub fn from(code: u32) -> (value: ImageType)
        requires
            ImageType::is_raw(code),
        ensures
            value == ImageType::of_raw(code),
            value.raw() == code,
    {
        match code {
            0 => ImageType::NoType,
            1 => ImageType::D1,
            2 => ImageType::D2,
            3 => ImageType::D3,
            4 => ImageType::D1Array,
            5 => ImageType::D2Array,
            6 => ImageType::D2MS,
            7 => ImageType::D2MSArray,
            8 => ImageType::Rectangle,
            9 => ImageType::Cubemap,
            10 => ImageType::CubemapArray,
            11 => ImageType::Buffer,
            _ => unreached(),
        }
    }
}

/// The flags of an image layout: how the image is stored, and what it is used for.
#[derive(Debug, Copy, Clone, PartialEq, Eq, Hash, Structural)]
pub struct ImageFlags {
    bits: u32,
}

impl View for ImageFlags {
    type V = u32;

    /// The bits that are set.
    closed spec fn view(&self) -> u32 {
        self.bits
    }
}

impl ImageFlags {
    /// Every bit that a flag of this set uses.
    pub open spec fn all_bits() -> u32 {
        0x1F0F
    }

    #[verifier::type_invariant]
    spec fn holds_known_bits_only(&self) -> bool {
        within(self.bits, ImageFlags::all_bits())
    }

    proof fn lemma_flag_values()
        by (bit_vector)
        ensures
            within(0x0, 0x1F0F),
            within(0x1, 0x1F0F),
            within(0x2, 0x1F0F),
            within(0x4, 0x1F0F),
            within(0x8, 0x1F0F),
            within(0x100, 0x1F0F),
            within(0x200, 0x1F0F),
            within(0x400, 0x1F0F),
            within(0x800, 0x1F0F),
            within(0x1000, 0x1F0F),
            within(0x1F0F, 0x1F0F),
    {
    }

    /// The set without any flag.
    pub fn empty() -> (flags: Self)
        ensures
            flags@ == 0,
    {
        proof {
            lemma_within(0, 0, ImageFlags::all_bits());
        }
        ImageFlags { bits: 0 }
    }

    /// The set of all flags.
    pub fn all() -> (flags: Self)
        ensures
            flags@ == ImageFlags::all_bits(),
    {
        proof {
            ImageFlags::lemma_flag_values();
        }
        ImageFlags { bits: 0x1F0F }
    }

    /// The image is stored in blocks. This is the choice where the flag for rows is not set.
    pub fn block_linear() -> (flags: Self)
        ensures
            flags@ == 0x0,
    {
        proof {
            ImageFlags::lemma_flag_values();
        }
        ImageFlags { bits: 0x0 }
    }

    /// The image is stored row by row.
    pub fn pitch_linear() -> (flags: Self)
        ensures
            flags@ == 0x1,
    {
        proof {
            ImageFlags::lemma_flag_values();
        }
        ImageFlags { bits: 0x1 }
    }

    /// A block-linear image has the tile size that its layout names.
    pub fn custom_tile_size() -> (flags: Self)
        ensures
            flags@ == 0x2,
    {
        proof {
            ImageFlags::lemma_flag_values();
        }
        ImageFlags { bits: 0x2 }
    }

    /// The hardware compresses the image.
    pub fn hw_compression() -> (flags: Self)
        ensures
            flags@ == 0x4,
    {
        proof {
            ImageFlags::lemma_flag_values();
        }
        ImageFlags { bits: 0x4 }
    }

    /// An image of format `Z16` is cleared without memory traffic.
    pub fn z16_enable_zbc() -> (flags: Self)
        ensures
            flags@ == 0x8,
    {
        proof {
            ImageFlags::lemma_flag_values();
        }
        ImageFlags { bits: 0x8 }
    }

    /// The image is a render target.
    pub fn usage_render() -> (flags: Self)
        ensures
            flags@ == 0x100,
    {
        proof {
            ImageFlags::lemma_flag_values();
        }
        ImageFlags { bits: 0x100 }
    }

    /// Shaders load from and store to the image.
    pub fn usage_load_store() -> (flags: Self)
        ensures
            flags@ == 0x200,
    {
        proof {
            ImageFlags::lemma_flag_values();
        }
        ImageFlags { bits: 0x200 }
    }

    /// The image is presented to a window.
    pub fn usage_present() -> (flags: Self)
        ensures
            flags@ == 0x400,
    {
        proof {
            ImageFlags::lemma_flag_values();
        }
        ImageFlags { bits: 0x400 }
    }

    /// The 2D engine works on the image, as in transfers between images.
    pub fn usage_2d_engine() -> (flags: Self)
        ensures
            flags@ == 0x800,
    {
        proof {
            ImageFlags::lemma_flag_values();
        }
        ImageFlags { bits: 0x800 }
    }

    /// The video engines work on the image.
    pub fn usage_video() -> (flags: Self)
        ensures
            flags@ == 0x1000,
    {
        proof {
            ImageFlags::lemma_flag_values();
        }
        ImageFlags { bits: 0x1000 }
    }

    pub fn bits(&self) -> (bits: u32)
        ensures
            bits == self@,
            within(bits, ImageFlags::all_bits()),
    {
        proof {
            use_type_invariant(self);
        }
        self.bits
    }

    /// The flags among `bits`; bits that belong to no flag are dropped.
    pub fn from_bits_truncate(bits: u32) -> (flags: Self)
        ensures
            flags@ == bits & ImageFlags::all_bits(),
            within(bits, ImageFlags::all_bits()) ==> flags@ == bits,
    {
        proof {
            lemma_within(bits, 0, ImageFlags::all_bits());
        }
        ImageFlags { bits: bits & 0x1F0F }
    }

    /// The flags of either set.
    pub fn union(self, other: Self) -> (flags: Self)
        ensures
            flags@ == self@ | other@,
    {
        proof {
            use_type_invariant(self);
            use_type_invariant(other);
            lemma_within(self.bits, other.bits, ImageFlags::all_bits());
        }
        ImageFlags { bits: self.bits | other.bits }
    }

    /// Whether every flag of `other` is in this set.
    pub fn contains(&self, other: Self) -> (yes: bool)
        ensures
            yes == (self@ & other@ == other@),
    {
        self.bits & other.bits == other.bits
    }
}

/// Where a component of a texel that a view hands out comes from.
#[derive(Debug, Copy, Clone, PartialEq, Eq, Hash, Structural)]
pub enum ImageSwizzle {
    Zero,
    One,
    Red,
    Green,
    Blue,
    Alpha,
}

impl ImageSwizzle {
    /// The number that stands for this value in driver structures and command streams.
    pub open spec fn raw(self) -> u32 {
        match self {
            ImageSwizzle::Zero => 0,
            ImageSwizzle::One => 1,
            ImageSwizzle::Red => 2,
            ImageSwizzle::Green => 3,
            ImageSwizzle::Blue => 4,
            ImageSwizzle::Alpha => 5,
        }
    }

    pub fn to_raw(self) -> (code: u32)
        ensures
            code == self.raw(),
    {
        match self {
            ImageSwizzle::Zero => 0,
            ImageSwizzle::One => 1,
            ImageSwizzle::Red => 2,
            ImageSwizzle::Green => 3,
            ImageSwizzle::Blue => 4,
            ImageSwizzle::Alpha => 5,
        }
    }
}

/// The part of a depth-stencil image that a view reads.
#[derive(Debug, Copy, Clone, PartialEq, Eq, Hash, Structural)]
pub enum DsSource {
    Depth,
    Stencil,
}

impl DsSource {
    /// The number that stands for this value in driver structures and command streams.
    pub open spec fn raw(self) -> u32 {
        match self {
            DsSource::Depth => 0,
            DsSource::Stencil => 1,
        }
    }

    /// Whether `code` is the number of some value of this type.
    pub open spec fn is_raw(code: u32) -> bool {
        code <= 1
    }

    /// The value whose number is `code`; it means nothing where `code` is no such number.
    pub open spec fn of_raw(code: u32) -> DsSource {
        match code {
            0 => DsSource::Depth,
            1 => DsSource::Stencil,
            _ => arbitrary(),
        }
    }

    pub fn to_raw(self) -> (code: u32)
        ensures
            code == self.raw(),
            DsSource::is_raw(code),
            DsSource::of_raw(code) == self,
    {
        match self {
            DsSource::Depth => 0,
            DsSource::Stencil => 1,
        }
    }

    pub fn is_valid_raw(code: u32) -> (valid: bool)
        ensures
            valid == DsSource::is_raw(code),
    {
        code <= 1
    }

    /// Reads a number handed back by the driver. Numbers that stand for no value are
    /// left to the caller, who can tell them apart with `is_valid_raw`.
    pub fn from(code: u32) -> (value: DsSource)
        requires
            DsSource::is_raw(code),
        ensures
            value == DsSource::of_raw(code),
            value.raw() == code,
    {
        match code {
            0 => DsSource::Depth,
            1 => DsSource::Stencil,
            _ => unreached(),
        }
    }
}

/// The height of a tile of a block-linear image, in groups of bytes.
#[derive(Debug, Copy, Clone, PartialEq, Eq, Hash, Structural)]
pub enum TileSize {
    OneGob,
    TwoGobs,
    FourGobs,
    EightGobs,
    SixteenGobs,
    ThirtyTwoGobs,
}

impl TileSize {
    /// The number that stands for this value in driver structures and command streams.
    pub open spec fn raw(self) -> u32 {
        match self {
            TileSize::OneGob => 0,
            TileSize::TwoGobs => 1,
            TileSize::FourGobs => 2,
            TileSize::EightGobs => 3,
            TileSize::SixteenGobs => 4,
            TileSize::ThirtyTwoGobs => 5,
        }
    }

    /// Whether `code` is the number of some value of this type.
    pub open spec fn is_raw(code: u32) -> bool {
        code <= 5
    }

    /// The value whose number is `code`; it means nothing where `code` is no such number.
    pub open spec fn of_raw(code: u32) -> TileSize {
        match code {
            0 => TileSize::OneGob,
            1 => TileSize::TwoGobs,
            2 => TileSize::FourGobs,
            3 => TileSize::EightGobs,
            4 => TileSize::SixteenGobs,
            5 => TileSize::ThirtyTwoGobs,
            _ => arbitrary(),
        }
    }

    pub fn to_raw(self) -> (code: u32)
        ensures
            code == self.raw(),
            TileSize::is_raw(code),
            TileSize::of_raw(code) == self,
    {
        match self {
            TileSize::OneGob => 0,
            TileSize::TwoGobs => 1,
            TileSize::FourGobs => 2,
            TileSize::EightGobs => 3,
            TileSize::SixteenGobs => 4,
            TileSize::ThirtyTwoGobs => 5,
        }
    }

    pub fn is_valid_raw(code: u32) -> (valid: bool)
        ensures
            valid == TileSize::is_raw(code),
    {
        code <= 5
    }

    /// Reads a number handed back by the driver. Numbers that stand for no value are
    /// left to the caller, who can tell them apart with `is_valid_raw`.
    pub fn from(code: u32) -> (value: TileSize)
        requires
            TileSize::is_raw(code),
        ensures
            value == TileSize::of_raw(code),
            value.raw() == code,
    {
        match code {
            0 => TileSize::OneGob,
            1 => TileSize::TwoGobs,
            2 => TileSize::FourGobs,
            3 => TileSize::EightGobs,
            4 => TileSize::SixteenGobs,
            5 => TileSize::ThirtyTwoGobs,
            _ => unreached(),
        }
    }
}

/// The configuration from which an image layout is made.
#[derive(Debug, Copy, Clone, PartialEq, Eq, Hash)]
pub struct ImageLayoutMaker {
    pub image_type: ImageType,
    pub flags: ImageFlags,
    pub format: ImageFormat,
    pub ms_mode: MsMode,
    /// Width, height and depth.
    pub dimensions: [u32; 3],
    pub mip_levels: u32,
    /// The bytes from one row to the next of a pitch-linear image, or the number of the tile
    /// size of a block-linear one: the two share this place, and the flags tell which it is.
    pub pitch_stride_or_tile_size: u32,
}

impl ImageLayoutMaker {
    /// The configuration with the defaults: a two-dimensional block-linear image without a
    /// format, of no extent, with one sample per pixel and one mip level.
    pub fn new() -> (maker: ImageLayoutMaker)
        ensures
            maker.image_type == ImageType::D2,
            maker.flags@ == 0,
            maker.format == ImageFormat::NoFormat,
            maker.ms_mode == MsMode::Ms1x,
            maker.dimensions@ == seq![0u32, 0u32, 0u32],
            maker.mip_levels == 1,
            maker.pitch_stride_or_tile_size == 0,
    {
        let dimensions: [u32; 3] = [0, 0, 0];
        assert(dimensions@ =~= seq![0u32, 0u32, 0u32]);
        ImageLayoutMaker {
            image_type: ImageType::D2,
            flags: ImageFlags::empty(),
            format: ImageFormat::NoFormat,
            ms_mode: MsMode::Ms1x,
            dimensions,
            mip_levels: 1,
            pitch_stride_or_tile_size: 0,
        }
    }

    pub fn set_type(&mut self, image_type: ImageType) -> (ret: &mut Self)
        ensures
            *ret == (ImageLayoutMaker { image_type, ..*old(self) }),
            *final(self) == *final(ret),
    {
        self.image_type = image_type;
        self
    }

    pub fn get_type(&self) -> (image_type: ImageType)
        ensures
            image_type == self.image_type,
    {
        self.image_type
    }

    pub fn set_flags(&mut self, flags: ImageFlags) -> (ret: &mut Self)
        ensures
            *ret == (ImageLayoutMaker { flags, ..*old(self) }),
            *final(self) == *final(ret),
    {
        self.flags = flags;
        self
    }

    pub fn get_flags(&self) -> (flags: ImageFlags)
        ensures
            flags == self.flags,
    {
        self.flags
    }

    pub fn set_format(&mut self, format: ImageFormat) -> (ret: &mut Self)
        ensures
            *ret == (ImageLayoutMaker { format, ..*old(self) }),
            *final(self) == *final(ret),
    {
        self.format = format;
        self
    }

    pub fn get_format(&self) -> (format: ImageFormat)
        ensures
            format == self.format,
    {
        self.format
    }

    pub fn set_ms_mode(&mut self, ms_mode: MsMode) -> (ret: &mut Self)
        ensures
            *ret == (ImageLayoutMaker { ms_mode, ..*old(self) }),
            *final(self) == *final(ret),
    {
        self.ms_mode = ms_mode;
        self
    }

    pub fn get_ms_mode(&self) -> (ms_mode: MsMode)
        ensures
            ms_mode == self.ms_mode,
    {
        self.ms_mode
    }

    pub fn set_dimensions(&mut self, width: u32, height: u32, depth: u32) -> (ret: &mut Self)
        ensures
            ret.dimensions@ == seq![width, height, depth],
            *ret == (ImageLayoutMaker { dimensions: ret.dimensions, ..*old(self) }),
            *final(self) == *final(ret),
    {
        let dimensions: [u32; 3] = [width, height, depth];
        assert(dimensions@ =~= seq![width, height, depth]);
        self.dimensions = dimensions;
        self
    }

    /// Width, height and depth.
    pub fn get_dimensions(&self) -> (dimensions: (u32, u32, u32))
        ensures
            dimensions == (self.dimensions@[0], self.dimensions@[1], self.dimensions@[2]),
    {
        (self.dimensions[0], self.dimensions[1], self.dimensions[2])
    }

    pub fn set_mip_levels(&mut self, mip_levels: u32) -> (ret: &mut Self)
        ensures
            *ret == (ImageLayoutMaker { mip_levels, ..*old(self) }),
            *final(self) == *final(ret),
    {
        self.mip_levels = mip_levels;
        self
    }

    pub fn get_mip_levels(&self) -> (mip_levels: u32)
        ensures
            mip_levels == self.mip_levels,
    {
        self.mip_levels
    }

    /// Sets the bytes from one row to the next of a pitch-linear image. This takes the place
    /// of a tile size.
    pub fn set_pitch_stride(&mut self, pitch_stride: u32) -> (ret: &mut Self)
        ensures
            *ret == (ImageLayoutMaker { pitch_stride_or_tile_size: pitch_stride, ..*old(self) }),
            *final(self) == *final(ret),
    {
        self.pitch_stride_or_tile_size = pitch_stride;
        self
    }

    /// Sets the tile size of a block-linear image. This takes the place of a pitch stride.
    pub fn set_tile_size(&mut self, tile_size: TileSize) -> (ret: &mut Self)
        ensures
            *ret == (ImageLayoutMaker { pitch_stride_or_tile_size: tile_size.raw(), ..*old(self) }),
            *final(self) == *final(ret),
    {
        self.pitch_stride_or_tile_size = tile_size.to_raw();
        self
    }
}

/// How an image is looked at: as which type and format, with which components, and which of
/// its layers and mip levels.
#[derive(Debug, Copy, Clone, PartialEq, Eq, Hash)]
pub struct ImageView {
    pub image_type: ImageType,
    pub format: ImageFormat,
    /// Where the red, green, blue and alpha that the view hands out come from.
    pub swizzle: [ImageSwizzle; 4],
    pub ds_source: DsSource,
    pub layer_offset: u16,
    /// The number of layers, or zero for all that follow the offset.
    pub layer_count: u16,
    pub mip_level_offset: u8,
    /// The number of mip levels, or zero for all that follow the offset.
    pub mip_level_count: u8,
}

impl ImageView {
    /// The view of a whole image as it is: its own type and format, each component from
    /// itself, the depth of a depth-stencil image, all layers and all mip levels.
    pub fn new() -> (view: ImageView)
        ensures
            view.image_type == ImageType::NoType,
            view.format == ImageFormat::NoFormat,
            view.swizzle@ == seq![
                ImageSwizzle::Red,
                ImageSwizzle::Green,
                ImageSwizzle::Blue,
                ImageSwizzle::Alpha,
            ],
            view.ds_source == DsSource::Depth,
            view.layer_offset == 0,
            view.layer_count == 0,
            view.mip_level_offset == 0,
            view.mip_level_count == 0,
    {
        let swizzle: [ImageSwizzle; 4] = [
            ImageSwizzle::Red,
            ImageSwizzle::Green,
            ImageSwizzle::Blue,
            ImageSwizzle::Alpha,
        ];
        assert(swizzle@ =~= seq![
            ImageSwizzle::Red,
            ImageSwizzle::Green,
            ImageSwizzle::Blue,
            ImageSwizzle::Alpha,
        ]);
        ImageView {
            image_type: ImageType::NoType,
            format: ImageFormat::NoFormat,
            swizzle,
            ds_source: DsSource::Depth,
            layer_offset: 0,
            layer_count: 0,
            mip_level_offset: 0,
            mip_level_count: 0,
        }
    }
}

} // verus!
