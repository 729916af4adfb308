//! The formats of the texels of an image.

use vstd::pervasive::unreached;
use vstd::prelude::*;

verus! {

/// The format of the texels of an image. A name gives the components with the bits of each,
/// then how they are read; the names with `BC`, `ETC2` and `Astc` are compressed formats.
#[derive(Debug, Copy, Clone, PartialEq, Eq, Hash, Structural)]
pub enum ImageFormat {
    /// No format: in an image view, the format of the image itself.
    NoFormat,
    R8Unorm,
    R8Snorm,
    R8Uint,
    R8Sint,
    R16Float,
    R16Unorm,
    R16Snorm,
    R16Uint,
    R16Sint,
    R32Float,
    R32Uint,
    R32Sint,
    RG8Unorm,
    RG8Snorm,
    RG8Uint,
    RG8Sint,
    RG16Float,
    RG16Unorm,
    RG16Snorm,
    RG16Uint,
    RG16Sint,
    RG32Float,
    RG32Uint,
    RG32Sint,
    RGB32Float,
    RGB32Uint,
    RGB32Sint,
    RGBA8Unorm,
    RGBA8Snorm,
    RGBA8Uint,
    RGBA8Sint,
    RGBA16Float,
    RGBA16Unorm,
    RGBA16Snorm,
    RGBA16Uint,
    RGBA16Sint,
    RGBA32Float,
    RGBA32Uint,
    RGBA32Sint,
    S8,
    Z16,
    Z24X8,
    ZF32,
    Z24S8,
    ZF32X24S8,
    RGBX8UnormSrgb,
    RGBA8UnormSrgb,
    RGBA4Unorm,
    RGB5Unorm,
    RGB5A1Unorm,
    RGB565Unorm,
    RGB10A2Unorm,
    RGB10A2Uint,
    RG11B10Float,
    E5BGR9Float,
    RGBBC1,
    RGBABC1,
    RGBABC2,
    RGBABC3,
    RGBBC1Srgb,
    RGBABC1Srgb,
    RGBABC2Srgb,
    RGBABC3Srgb,
    RBC4Unorm,
    RBC4Snorm,
    RGBC5Unorm,
    RGBC5Snorm,
    RGBABC7Unorm,
    RGBABC7UnormSrgb,
    RGBABC6HSF16Float,
    RGBABC6HUF16Float,
    RGBX8Unorm,
    RGBX8Snorm,
    RGBX8Uint,
    RGBX8Sint,
    RGBX16Float,
    RGBX16Unorm,
    RGBX16Snorm,
    RGBX16Uint,
    RGBX16Sint,
    RGBX32Float,
    RGBX32Uint,
    RGBX32Sint,
    RGBAAstc4x4,
    RGBAAstc5x4,
    RGBAAstc5x5,
    RGBAAstc6x5,
    RGBAAstc6x6,
    RGBAAstc8x5,
    RGBAAstc8x6,
    RGBAAstc8x8,
    RGBAAstc10x5,
    RGBAAstc10x6,
    RGBAAstc10x8,
    RGBAAstc10x10,
    RGBAAstc12x10,
    RGBAAstc12x12,
    RGBAAstc4x4Srgb,
    RGBAAstc5x4Srgb,
    RGBAAstc5x5Srgb,
    RGBAAstc6x5Srgb,
    RGBAAstc6x6Srgb,
    RGBAAstc8x5Srgb,
    RGBAAstc8x6Srgb,
    RGBAAstc8x8Srgb,
    RGBAAstc10x5Srgb,
    RGBAAstc10x6Srgb,
    RGBAAstc10x8Srgb,
    RGBAAstc10x10Srgb,
    RGBAAstc12x10Srgb,
    RGBAAstc12x12Srgb,
    BGR565Unorm,
    BGR5Unorm,
    BGR5A1Unorm,
    A5BGR5Unorm,
    BGRX8Unorm,
    BGRA8Unorm,
    BGRX8UnormSrgb,
    BGRA8UnormSrgb,
    RETC2Unorm,
    RETC2Snorm,
    RGETC2Unorm,
    RGETC2Snorm,
    RGBETC2,
    RGBPTAETC2,
    RGBAETC2,
    RGBETC2Srgb,
    RGBPTAETC2Srgb,
    RGBAETC2Srgb,
}

impl ImageFormat {
    /// The number that stands for this value in driver structures and command streams.
    pub open spec fn raw(self) -> u32 {
        match self {
            ImageFormat::NoFormat => 0,
            ImageFormat::R8Unorm => 1,
            ImageFormat::R8Snorm => 2,
            ImageFormat::R8Uint => 3,
            ImageFormat::R8Sint => 4,
            ImageFormat::R16Float => 5,
            ImageFormat::R16Unorm => 6,
            ImageFormat::R16Snorm => 7,
            ImageFormat::R16Uint => 8,
            ImageFormat::R16Sint => 9,
            ImageFormat::R32Float => 10,
            ImageFormat::R32Uint => 11,
            ImageFormat::R32Sint => 12,
            ImageFormat::RG8Unorm => 13,
            ImageFormat::RG8Snorm => 14,
            ImageFormat::RG8Uint => 15,
            ImageFormat::RG8Sint => 16,
            ImageFormat::RG16Float => 17,
            ImageFormat::RG16Unorm => 18,
            ImageFormat::RG16Snorm => 19,
            ImageFormat::RG16Uint => 20,
            ImageFormat::RG16Sint => 21,
            ImageFormat::RG32Float => 22,
            ImageFormat::RG32Uint => 23,
            ImageFormat::RG32Sint => 24,
            ImageFormat::RGB32Float => 25,
            ImageFormat::RGB32Uint => 26,
            ImageFormat::RGB32Sint => 27,
            ImageFormat::RGBA8Unorm => 28,
            ImageFormat::RGBA8Snorm => 29,
            ImageFormat::RGBA8Uint => 30,
            ImageFormat::RGBA8Sint => 31,
            ImageFormat::RGBA16Float => 32,
            ImageFormat::RGBA16Unorm => 33,
            ImageFormat::RGBA16Snorm => 34,
            ImageFormat::RGBA16Uint => 35,
            ImageFormat::RGBA16Sint => 36,
            ImageFormat::RGBA32Float => 37,
            ImageFormat::RGBA32Uint => 38,
            ImageFormat::RGBA32Sint => 39,
            ImageFormat::S8 => 40,
            ImageFormat::Z16 => 41,
            ImageFormat::Z24X8 => 42,
            ImageFormat::ZF32 => 43,
            ImageFormat::Z24S8 => 44,
            ImageFormat::ZF32X24S8 => 45,
            ImageFormat::RGBX8UnormSrgb => 46,
            ImageFormat::RGBA8UnormSrgb => 47,
            ImageFormat::RGBA4Unorm => 48,
            ImageFormat::RGB5Unorm => 49,
            ImageFormat::RGB5A1Unorm => 50,
            ImageFormat::RGB565Unorm => 51,
            ImageFormat::RGB10A2Unorm => 52,
            ImageFormat::RGB10A2Uint => 53,
            ImageFormat::RG11B10Float => 54,
            ImageFormat::E5BGR9Float => 55,
            ImageFormat::RGBBC1 => 56,
            ImageFormat::RGBABC1 => 57,
            ImageFormat::RGBABC2 => 58,
            ImageFormat::RGBABC3 => 59,
            ImageFormat::RGBBC1Srgb => 60,
            ImageFormat::RGBABC1Srgb => 61,
            ImageFormat::RGBABC2Srgb => 62,
            ImageFormat::RGBABC3Srgb => 63,
            ImageFormat::RBC4Unorm => 64,
            ImageFormat::RBC4Snorm => 65,
            ImageFormat::RGBC5Unorm => 66,
            ImageFormat::RGBC5Snorm => 67,
            ImageFormat::RGBABC7Unorm => 68,
            ImageFormat::RGBABC7UnormSrgb => 69,
            ImageFormat::RGBABC6HSF16Float => 70,
            ImageFormat::RGBABC6HUF16Float => 71,
            ImageFormat::RGBX8Unorm => 72,
            ImageFormat::RGBX8Snorm => 73,
            ImageFormat::RGBX8Uint => 74,
            ImageFormat::RGBX8Sint => 75,
            ImageFormat::RGBX16Float => 76,
            ImageFormat::RGBX16Unorm => 77,
            ImageFormat::RGBX16Snorm => 78,
            ImageFormat::RGBX16Uint => 79,
            ImageFormat::RGBX16Sint => 80,
            ImageFormat::RGBX32Float => 81,
            ImageFormat::RGBX32Uint => 82,
            ImageFormat::RGBX32Sint => 83,
            ImageFormat::RGBAAstc4x4 => 84,
            ImageFormat::RGBAAstc5x4 => 85,
            ImageFormat::RGBAAstc5x5 => 86,
            ImageFormat::RGBAAstc6x5 => 87,
            ImageFormat::RGBAAstc6x6 => 88,
            ImageFormat::RGBAAstc8x5 => 89,
            ImageFormat::RGBAAstc8x6 => 90,
            ImageFormat::RGBAAstc8x8 => 91,
            ImageFormat::RGBAAstc10x5 => 92,
            ImageFormat::RGBAAstc10x6 => 93,
            ImageFormat::RGBAAstc10x8 => 94,
            ImageFormat::RGBAAstc10x10 => 95,
            ImageFormat::RGBAAstc12x10 => 96,
            ImageFormat::RGBAAstc12x12 => 97,
            ImageFormat::RGBAAstc4x4Srgb => 98,
            ImageFormat::RGBAAstc5x4Srgb => 99,
            ImageFormat::RGBAAstc5x5Srgb => 100,
            ImageFormat::RGBAAstc6x5Srgb => 101,
            ImageFormat::RGBAAstc6x6Srgb => 102,
            ImageFormat::RGBAAstc8x5Srgb => 103,
            ImageFormat::RGBAAstc8x6Srgb => 104,
            ImageFormat::RGBAAstc8x8Srgb => 105,
            ImageFormat::RGBAAstc10x5Srgb => 106,
            ImageFormat::RGBAAstc10x6Srgb => 107,
            ImageFormat::RGBAAstc10x8Srgb => 108,
            ImageFormat::RGBAAstc10x10Srgb => 109,
            ImageFormat::RGBAAstc12x10Srgb => 110,
            ImageFormat::RGBAAstc12x12Srgb => 111,
            ImageFormat::BGR565Unorm => 112,
            ImageFormat::BGR5Unorm => 113,
            ImageFormat::BGR5A1Unorm => 114,
            ImageFormat::A5BGR5Unorm => 115,
            ImageFormat::BGRX8Unorm => 116,
            ImageFormat::BGRA8Unorm => 117,
            ImageFormat::BGRX8UnormSrgb => 118,
            ImageFormat::BGRA8UnormSrgb => 119,
            ImageFormat::RETC2Unorm => 120,
            ImageFormat::RETC2Snorm => 121,
            ImageFormat::RGETC2Unorm => 122,
            ImageFormat::RGETC2Snorm => 123,
            ImageFormat::RGBETC2 => 124,
            ImageFormat::RGBPTAETC2 => 125,
            ImageFormat::RGBAETC2 => 126,
            ImageFormat::RGBETC2Srgb => 127,
            ImageFormat::RGBPTAETC2Srgb => 128,
            ImageFormat::RGBAETC2Srgb => 129,
        }
    }

    /// Whether `code` is the number of some value of this type.
    pub open spec fn is_raw(code: u32) -> bool {
        code <= 129
    }

    /// The value whose number is `code`; it means nothing where `code` is no such number.
    pub open spec fn of_raw(code: u32) -> ImageFormat {
        match code {
            0 => ImageFormat::NoFormat,
            1 => ImageFormat::R8Unorm,
            2 => ImageFormat::R8Snorm,
            3 => ImageFormat::R8Uint,
            4 => ImageFormat::R8Sint,
            5 => ImageFormat::R16Float,
            6 => ImageFormat::R16Unorm,
            7 => ImageFormat::R16Snorm,
            8 => ImageFormat::R16Uint,
            9 => ImageFormat::R16Sint,
            10 => ImageFormat::R32Float,
            11 => ImageFormat::R32Uint,
            12 => ImageFormat::R32Sint,
            13 => ImageFormat::RG8Unorm,
            14 => ImageFormat::RG8Snorm,
            15 => ImageFormat::RG8Uint,
            16 => ImageFormat::RG8Sint,
            17 => ImageFormat::RG16Float,
            18 => ImageFormat::RG16Unorm,
            19 => ImageFormat::RG16Snorm,
            20 => ImageFormat::RG16Uint,
            21 => ImageFormat::RG16Sint,
            22 => ImageFormat::RG32Float,
            23 => ImageFormat::RG32Uint,
            24 => ImageFormat::RG32Sint,
            25 => ImageFormat::RGB32Float,
            26 => ImageFormat::RGB32Uint,
            27 => ImageFormat::RGB32Sint,
            28 => ImageFormat::RGBA8Unorm,
            29 => ImageFormat::RGBA8Snorm,
            30 => ImageFormat::RGBA8Uint,
            31 => ImageFormat::RGBA8Sint,
            32 => ImageFormat::RGBA16Float,
            33 => ImageFormat::RGBA16Unorm,
            34 => ImageFormat::RGBA16Snorm,
            35 => ImageFormat::RGBA16Uint,
            36 => ImageFormat::RGBA16Sint,
            37 => ImageFormat::RGBA32Float,
            38 => ImageFormat::RGBA32Uint,
            39 => ImageFormat::RGBA32Sint,
            40 => ImageFormat::S8,
            41 => ImageFormat::Z16,
            42 => ImageFormat::Z24X8,
            43 => ImageFormat::ZF32,
            44 => ImageFormat::Z24S8,
            45 => ImageFormat::ZF32X24S8,
            46 => ImageFormat::RGBX8UnormSrgb,
            47 => ImageFormat::RGBA8UnormSrgb,
            48 => ImageFormat::RGBA4Unorm,
            49 => ImageFormat::RGB5Unorm,
            50 => ImageFormat::RGB5A1Unorm,
            51 => ImageFormat::RGB565Unorm,
            52 => ImageFormat::RGB10A2Unorm,
            53 => ImageFormat::RGB10A2Uint,
            54 => ImageFormat::RG11B10Float,
            55 => ImageFormat::E5BGR9Float,
            56 => ImageFormat::RGBBC1,
            57 => ImageFormat::RGBABC1,
            58 => ImageFormat::RGBABC2,
            59 => ImageFormat::RGBABC3,
            60 => ImageFormat::RGBBC1Srgb,
            61 => ImageFormat::RGBABC1Srgb,
            62 => ImageFormat::RGBABC2Srgb,
            63 => ImageFormat::RGBABC3Srgb,
            64 => ImageFormat::RBC4Unorm,
            65 => ImageFormat::RBC4Snorm,
            66 => ImageFormat::RGBC5Unorm,
            67 => ImageFormat::RGBC5Snorm,
            68 => ImageFormat::RGBABC7Unorm,
            69 => ImageFormat::RGBABC7UnormSrgb,
            70 => ImageFormat::RGBABC6HSF16Float,
            71 => ImageFormat::RGBABC6HUF16Float,
            72 => ImageFormat::RGBX8Unorm,
            73 => ImageFormat::RGBX8Snorm,
            74 => ImageFormat::RGBX8Uint,
            75 => ImageFormat::RGBX8Sint,
            76 => ImageFormat::RGBX16Float,
            77 => ImageFormat::RGBX16Unorm,
            78 => ImageFormat::RGBX16Snorm,
            79 => ImageFormat::RGBX16Uint,
            80 => ImageFormat::RGBX16Sint,
            81 => ImageFormat::RGBX32Float,
            82 => ImageFormat::RGBX32Uint,
            83 => ImageFormat::RGBX32Sint,
            84 => ImageFormat::RGBAAstc4x4,
            85 => ImageFormat::RGBAAstc5x4,
            86 => ImageFormat::RGBAAstc5x5,
            87 => ImageFormat::RGBAAstc6x5,
            88 => ImageFormat::RGBAAstc6x6,
            89 => ImageFormat::RGBAAstc8x5,
            90 => ImageFormat::RGBAAstc8x6,
            91 => ImageFormat::RGBAAstc8x8,
            92 => ImageFormat::RGBAAstc10x5,
            93 => ImageFormat::RGBAAstc10x6,
            94 => ImageFormat::RGBAAstc10x8,
            95 => ImageFormat::RGBAAstc10x10,
            96 => ImageFormat::RGBAAstc12x10,
            97 => ImageFormat::RGBAAstc12x12,
            98 => ImageFormat::RGBAAstc4x4Srgb,
            99 => ImageFormat::RGBAAstc5x4Srgb,
            100 => ImageFormat::RGBAAstc5x5Srgb,
            101 => ImageFormat::RGBAAstc6x5Srgb,
            102 => ImageFormat::RGBAAstc6x6Srgb,
            103 => ImageFormat::RGBAAstc8x5Srgb,
            104 => ImageFormat::RGBAAstc8x6Srgb,
            105 => ImageFormat::RGBAAstc8x8Srgb,
            106 => ImageFormat::RGBAAstc10x5Srgb,
            107 => ImageFormat::RGBAAstc10x6Srgb,
            108 => ImageFormat::RGBAAstc10x8Srgb,
            109 => ImageFormat::RGBAAstc10x10Srgb,
            110 => ImageFormat::RGBAAstc12x10Srgb,
            111 => ImageFormat::RGBAAstc12x12Srgb,
            112 => ImageFormat::BGR565Unorm,
            113 => ImageFormat::BGR5Unorm,
            114 => ImageFormat::BGR5A1Unorm,
            115 => ImageFormat::A5BGR5Unorm,
            116 => ImageFormat::BGRX8Unorm,
            117 => ImageFormat::BGRA8Unorm,
            118 => ImageFormat::BGRX8UnormSrgb,
            119 => ImageFormat::BGRA8UnormSrgb,
            120 => ImageFormat::RETC2Unorm,
            121 => ImageFormat::RETC2Snorm,
            122 => ImageFormat::RGETC2Unorm,
            123 => ImageFormat::RGETC2Snorm,
            124 => ImageFormat::RGBETC2,
            125 => ImageFormat::RGBPTAETC2,
            126 => ImageFormat::RGBAETC2,
            127 => ImageFormat::RGBETC2Srgb,
            128 => ImageFormat::RGBPTAETC2Srgb,
            129 => ImageFormat::RGBAETC2Srgb,
            _ => arbitrary(),
        }
    }

    pub fn to_raw(self) -> (code: u32)
        ensures
            code == self.raw(),
            ImageFormat::is_raw(code),
            ImageFormat::of_raw(code) == self,
    {
        match self {
            ImageFormat::NoFormat => 0,
            ImageFormat::R8Unorm => 1,
            ImageFormat::R8Snorm => 2,
            ImageFormat::R8Uint => 3,
            ImageFormat::R8Sint => 4,
            ImageFormat::R16Float => 5,
            ImageFormat::R16Unorm => 6,
            ImageFormat::R16Snorm => 7,
            ImageFormat::R16Uint => 8,
            ImageFormat::R16Sint => 9,
            ImageFormat::R32Float => 10,
            ImageFormat::R32Uint => 11,
            ImageFormat::R32Sint => 12,
            ImageFormat::RG8Unorm => 13,
            ImageFormat::RG8Snorm => 14,
            ImageFormat::RG8Uint => 15,
            ImageFormat::RG8Sint => 16,
            ImageFormat::RG16Float => 17,
            ImageFormat::RG16Unorm => 18,
            ImageFormat::RG16Snorm => 19,
            ImageFormat::RG16Uint => 20,
            ImageFormat::RG16Sint => 21,
            ImageFormat::RG32Float => 22,
            ImageFormat::RG32Uint => 23,
            ImageFormat::RG32Sint => 24,
            ImageFormat::RGB32Float => 25,
            ImageFormat::RGB32Uint => 26,
            ImageFormat::RGB32Sint => 27,
            ImageFormat::RGBA8Unorm => 28,
            ImageFormat::RGBA8Snorm => 29,
            ImageFormat::RGBA8Uint => 30,
            ImageFormat::RGBA8Sint => 31,
            ImageFormat::RGBA16Float => 32,
            ImageFormat::RGBA16Unorm => 33,
            ImageFormat::RGBA16Snorm => 34,
            ImageFormat::RGBA16Uint => 35,
            ImageFormat::RGBA16Sint => 36,
            ImageFormat::RGBA32Float => 37,
            ImageFormat::RGBA32Uint => 38,
            ImageFormat::RGBA32Sint => 39,
            ImageFormat::S8 => 40,
            ImageFormat::Z16 => 41,
            ImageFormat::Z24X8 => 42,
            ImageFormat::ZF32 => 43,
            ImageFormat::Z24S8 => 44,
            ImageFormat::ZF32X24S8 => 45,
            ImageFormat::RGBX8UnormSrgb => 46,
            ImageFormat::RGBA8UnormSrgb => 47,
            ImageFormat::RGBA4Unorm => 48,
            ImageFormat::RGB5Unorm => 49,
            ImageFormat::RGB5A1Unorm => 50,
            ImageFormat::RGB565Unorm => 51,
            ImageFormat::RGB10A2Unorm => 52,
            ImageFormat::RGB10A2Uint => 53,
            ImageFormat::RG11B10Float => 54,
            ImageFormat::E5BGR9Float => 55,
            ImageFormat::RGBBC1 => 56,
            ImageFormat::RGBABC1 => 57,
            ImageFormat::RGBABC2 => 58,
            ImageFormat::RGBABC3 => 59,
            ImageFormat::RGBBC1Srgb => 60,
            ImageFormat::RGBABC1Srgb => 61,
            ImageFormat::RGBABC2Srgb => 62,
            ImageFormat::RGBABC3Srgb => 63,
            ImageFormat::RBC4Unorm => 64,
            ImageFormat::RBC4Snorm => 65,
            ImageFormat::RGBC5Unorm => 66,
            ImageFormat::RGBC5Snorm => 67,
            ImageFormat::RGBABC7Unorm => 68,
            ImageFormat::RGBABC7UnormSrgb => 69,
            ImageFormat::RGBABC6HSF16Float => 70,
            ImageFormat::RGBABC6HUF16Float => 71,
            ImageFormat::RGBX8Unorm => 72,
            ImageFormat::RGBX8Snorm => 73,
            ImageFormat::RGBX8Uint => 74,
            ImageFormat::RGBX8Sint => 75,
            ImageFormat::RGBX16Float => 76,
            ImageFormat::RGBX16Unorm => 77,
            ImageFormat::RGBX16Snorm => 78,
            ImageFormat::RGBX16Uint => 79,
            ImageFormat::RGBX16Sint => 80,
            ImageFormat::RGBX32Float => 81,
            ImageFormat::RGBX32Uint => 82,
            ImageFormat::RGBX32Sint => 83,
            ImageFormat::RGBAAstc4x4 => 84,
            ImageFormat::RGBAAstc5x4 => 85,
            ImageFormat::RGBAAstc5x5 => 86,
            ImageFormat::RGBAAstc6x5 => 87,
            ImageFormat::RGBAAstc6x6 => 88,
            ImageFormat::RGBAAstc8x5 => 89,
            ImageFormat::RGBAAstc8x6 => 90,
            ImageFormat::RGBAAstc8x8 => 91,
            ImageFormat::RGBAAstc10x5 => 92,
            ImageFormat::RGBAAstc10x6 => 93,
            ImageFormat::RGBAAstc10x8 => 94,
            ImageFormat::RGBAAstc10x10 => 95,
            ImageFormat::RGBAAstc12x10 => 96,
            ImageFormat::RGBAAstc12x12 => 97,
            ImageFormat::RGBAAstc4x4Srgb => 98,
            ImageFormat::RGBAAstc5x4Srgb => 99,
            ImageFormat::RGBAAstc5x5Srgb => 100,
            ImageFormat::RGBAAstc6x5Srgb => 101,
            ImageFormat::RGBAAstc6x6Srgb => 102,
            ImageFormat::RGBAAstc8x5Srgb => 103,
            ImageFormat::RGBAAstc8x6Srgb => 104,
            ImageFormat::RGBAAstc8x8Srgb => 105,
            ImageFormat::RGBAAstc10x5Srgb => 106,
            ImageFormat::RGBAAstc10x6Srgb => 107,
            ImageFormat::RGBAAstc10x8Srgb => 108,
            ImageFormat::RGBAAstc10x10Srgb => 109,
            ImageFormat::RGBAAstc12x10Srgb => 110,
            ImageFormat::RGBAAstc12x12Srgb => 111,
            ImageFormat::BGR565Unorm => 112,
            ImageFormat::BGR5Unorm => 113,
            ImageFormat::BGR5A1Unorm => 114,
            ImageFormat::A5BGR5Unorm => 115,
            ImageFormat::BGRX8Unorm => 116,
            ImageFormat::BGRA8Unorm => 117,
            ImageFormat::BGRX8UnormSrgb => 118,
            ImageFormat::BGRA8UnormSrgb => 119,
            ImageFormat::RETC2Unorm => 120,
            ImageFormat::RETC2Snorm => 121,
            ImageFormat::RGETC2Unorm => 122,
            ImageFormat::RGETC2Snorm => 123,
            ImageFormat::RGBETC2 => 124,
            ImageFormat::RGBPTAETC2 => 125,
            ImageFormat::RGBAETC2 => 126,
            ImageFormat::RGBETC2Srgb => 127,
            ImageFormat::RGBPTAETC2Srgb => 128,
            ImageFormat::RGBAETC2Srgb => 129,
        }
    }

    pub fn is_valid_raw(code: u32) -> (valid: bool)
        ensures
            valid == ImageFormat::is_raw(code),
    {
        code <= 129
    }

    /// Reads a number handed back by the driver. Numbers that stand for no value are
    /// left to the caller, who can tell them apart with `is_valid_raw`.
    pub fn from(code: u32) -> (value: ImageFormat)
        requires
            ImageFormat::is_raw(code),
        ensures
            value == ImageFormat::of_raw(code),
            value.raw() == code,
    {
        match code {
            0 => ImageFormat::NoFormat,
            1 => ImageFormat::R8Unorm,
            2 => ImageFormat::R8Snorm,
            3 => ImageFormat::R8Uint,
            4 => ImageFormat::R8Sint,
            5 => ImageFormat::R16Float,
            6 => ImageFormat::R16Unorm,
            7 => ImageFormat::R16Snorm,
            8 => ImageFormat::R16Uint,
            9 => ImageFormat::R16Sint,
            10 => ImageFormat::R32Float,
            11 => ImageFormat::R32Uint,
            12 => ImageFormat::R32Sint,
            13 => ImageFormat::RG8Unorm,
            14 => ImageFormat::RG8Snorm,
            15 => ImageFormat::RG8Uint,
            16 => ImageFormat::RG8Sint,
            17 => ImageFormat::RG16Float,
            18 => ImageFormat::RG16Unorm,
            19 => ImageFormat::RG16Snorm,
            20 => ImageFormat::RG16Uint,
            21 => ImageFormat::RG16Sint,
            22 => ImageFormat::RG32Float,
            23 => ImageFormat::RG32Uint,
            24 => ImageFormat::RG32Sint,
            25 => ImageFormat::RGB32Float,
            26 => ImageFormat::RGB32Uint,
            27 => ImageFormat::RGB32Sint,
            28 => ImageFormat::RGBA8Unorm,
            29 => ImageFormat::RGBA8Snorm,
            30 => ImageFormat::RGBA8Uint,
            31 => ImageFormat::RGBA8Sint,
            32 => ImageFormat::RGBA16Float,
            33 => ImageFormat::RGBA16Unorm,
            34 => ImageFormat::RGBA16Snorm,
            35 => ImageFormat::RGBA16Uint,
            36 => ImageFormat::RGBA16Sint,
            37 => ImageFormat::RGBA32Float,
            38 => ImageFormat::RGBA32Uint,
            39 => ImageFormat::RGBA32Sint,
            40 => ImageFormat::S8,
            41 => ImageFormat::Z16,
            42 => ImageFormat::Z24X8,
            43 => ImageFormat::ZF32,
            44 => ImageFormat::Z24S8,
            45 => ImageFormat::ZF32X24S8,
            46 => ImageFormat::RGBX8UnormSrgb,
            47 => ImageFormat::RGBA8UnormSrgb,
            48 => ImageFormat::RGBA4Unorm,
            49 => ImageFormat::RGB5Unorm,
            50 => ImageFormat::RGB5A1Unorm,
            51 => ImageFormat::RGB565Unorm,
            52 => ImageFormat::RGB10A2Unorm,
            53 => ImageFormat::RGB10A2Uint,
            54 => ImageFormat::RG11B10Float,
            55 => ImageFormat::E5BGR9Float,
            56 => ImageFormat::RGBBC1,
            57 => ImageFormat::RGBABC1,
            58 => ImageFormat::RGBABC2,
            59 => ImageFormat::RGBABC3,
            60 => ImageFormat::RGBBC1Srgb,
            61 => ImageFormat::RGBABC1Srgb,
            62 => ImageFormat::RGBABC2Srgb,
            63 => ImageFormat::RGBABC3Srgb,
            64 => ImageFormat::RBC4Unorm,
            65 => ImageFormat::RBC4Snorm,
            66 => ImageFormat::RGBC5Unorm,
            67 => ImageFormat::RGBC5Snorm,
            68 => ImageFormat::RGBABC7Unorm,
            69 => ImageFormat::RGBABC7UnormSrgb,
            70 => ImageFormat::RGBABC6HSF16Float,
            71 => ImageFormat::RGBABC6HUF16Float,
            72 => ImageFormat::RGBX8Unorm,
            73 => ImageFormat::RGBX8Snorm,
            74 => ImageFormat::RGBX8Uint,
            75 => ImageFormat::RGBX8Sint,
            76 => ImageFormat::RGBX16Float,
            77 => ImageFormat::RGBX16Unorm,
            78 => ImageFormat::RGBX16Snorm,
            79 => ImageFormat::RGBX16Uint,
            80 => ImageFormat::RGBX16Sint,
            81 => ImageFormat::RGBX32Float,
            82 => ImageFormat::RGBX32Uint,
            83 => ImageFormat::RGBX32Sint,
            84 => ImageFormat::RGBAAstc4x4,
            85 => ImageFormat::RGBAAstc5x4,
            86 => ImageFormat::RGBAAstc5x5,
            87 => ImageFormat::RGBAAstc6x5,
            88 => ImageFormat::RGBAAstc6x6,
            89 => ImageFormat::RGBAAstc8x5,
            90 => ImageFormat::RGBAAstc8x6,
            91 => ImageFormat::RGBAAstc8x8,
            92 => ImageFormat::RGBAAstc10x5,
            93 => ImageFormat::RGBAAstc10x6,
            94 => ImageFormat::RGBAAstc10x8,
            95 => ImageFormat::RGBAAstc10x10,
            96 => ImageFormat::RGBAAstc12x10,
            97 => ImageFormat::RGBAAstc12x12,
            98 => ImageFormat::RGBAAstc4x4Srgb,
            99 => ImageFormat::RGBAAstc5x4Srgb,
            100 => ImageFormat::RGBAAstc5x5Srgb,
            101 => ImageFormat::RGBAAstc6x5Srgb,
            102 => ImageFormat::RGBAAstc6x6Srgb,
            103 => ImageFormat::RGBAAstc8x5Srgb,
            104 => ImageFormat::RGBAAstc8x6Srgb,
            105 => ImageFormat::RGBAAstc8x8Srgb,
            106 => ImageFormat::RGBAAstc10x5Srgb,
            107 => ImageFormat::RGBAAstc10x6Srgb,
            108 => ImageFormat::RGBAAstc10x8Srgb,
            109 => ImageFormat::RGBAAstc10x10Srgb,
            110 => ImageFormat::RGBAAstc12x10Srgb,
            111 => ImageFormat::RGBAAstc12x12Srgb,
            112 => ImageFormat::BGR565Unorm,
            113 => ImageFormat::BGR5Unorm,
            114 => ImageFormat::BGR5A1Unorm,
            115 => ImageFormat::A5BGR5Unorm,
            116 => ImageFormat::BGRX8Unorm,
            117 => ImageFormat::BGRA8Unorm,
            118 => ImageFormat::BGRX8UnormSrgb,
            119 => ImageFormat::BGRA8UnormSrgb,
            120 => ImageFormat::RETC2Unorm,
            121 => ImageFormat::RETC2Snorm,
            122 => ImageFormat::RGETC2Unorm,
            123 => ImageFormat::RGETC2Snorm,
            124 => ImageFormat::RGBETC2,
            125 => ImageFormat::RGBPTAETC2,
            126 => ImageFormat::RGBAETC2,
            127 => ImageFormat::RGBETC2Srgb,
            128 => ImageFormat::RGBPTAETC2Srgb,
            129 => ImageFormat::RGBAETC2Srgb,
            _ => unreached(),
        }
    }
}

} // verus!
