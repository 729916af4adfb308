// The number of every value of every enumeration, and the way back where there is one.

use deko3d::{
    Barrier, BlendFactor, BlendOp, CompareOp, Counter, CoverageModulation, DsSource, Face, Filter,
    FrontFace, IdxFormat, ImageFormat, ImageSwizzle, ImageType, LogicOp, MemAccess, MipFilter,
    MsMode, PipelinePos, PolygonMode, Primitive, ProvokingVertex, SamplerReduction, Stage,
    StageFlag, StencilOp, Swizzle, TileSize, TiledCacheOp, VarCompareOp, VarOp, VtxAttribSize,
    VtxAttribType, WrapMode,
};

fn barrier_table() -> Vec<(Barrier, u32)> {
    vec![
        (Barrier::NoBarrier, 0),
        (Barrier::Tiles, 1),
        (Barrier::Fragments, 2),
        (Barrier::Primitives, 3),
        (Barrier::Full, 4),
    ]
}

#[test]
fn barrier_numbers() {
    for (value, code) in barrier_table() {
        assert_eq!(value.to_raw(), code);
    }
}

fn blend_factor_table() -> Vec<(BlendFactor, u32)> {
    vec![
        (BlendFactor::Zero, 1),
        (BlendFactor::One, 2),
        (BlendFactor::SrcColor, 3),
        (BlendFactor::InvSrcColor, 4),
        (BlendFactor::SrcAlpha, 5),
        (BlendFactor::InvSrcAlpha, 6),
        (BlendFactor::DstAlpha, 7),
        (BlendFactor::InvDstAlpha, 8),
        (BlendFactor::DstColor, 9),
        (BlendFactor::InvDstColor, 10),
        (BlendFactor::SrcAlphaSaturate, 11),
        (BlendFactor::Src1Color, 16),
        (BlendFactor::InvSrc1Color, 17),
        (BlendFactor::Src1Alpha, 18),
        (BlendFactor::InvSrc1Alpha, 19),
        (BlendFactor::ConstColor, 97),
        (BlendFactor::InvConstColor, 98),
        (BlendFactor::ConstAlpha, 99),
        (BlendFactor::InvConstAlpha, 100),
    ]
}

#[test]
fn blend_factor_numbers() {
    for (value, code) in blend_factor_table() {
        assert_eq!(value.to_raw(), code);
    }
}

#[test]
fn blend_factor_from_number() {
    for (value, code) in blend_factor_table() {
        assert!(BlendFactor::is_valid_raw(code));
        assert_eq!(BlendFactor::from(code), value);
    }
}

#[test]
fn blend_factor_numbers_of_no_value() {
    let valid: Vec<u32> = blend_factor_table().iter().map(|entry| entry.1).collect();
    for code in 0..140u32 {
        assert_eq!(BlendFactor::is_valid_raw(code), valid.contains(&code));
    }
    for code in [0, 12, 13, 14, 15, 20, 95, 96, 101, 102, 2147483647, 4294967295] {
        assert!(!BlendFactor::is_valid_raw(code));
    }
}

fn blend_op_table() -> Vec<(BlendOp, u32)> {
    vec![
        (BlendOp::Add, 1),
        (BlendOp::Sub, 2),
        (BlendOp::RevSub, 3),
        (BlendOp::Min, 4),
        (BlendOp::Max, 5),
    ]
}

#[test]
fn blend_op_numbers() {
    for (value, code) in blend_op_table() {
        assert_eq!(value.to_raw(), code);
    }
}

#[test]
fn blend_op_from_number() {
    for (value, code) in blend_op_table() {
        assert!(BlendOp::is_valid_raw(code));
        assert_eq!(BlendOp::from(code), value);
    }
}

#[test]
fn blend_op_numbers_of_no_value() {
    let valid: Vec<u32> = blend_op_table().iter().map(|entry| entry.1).collect();
    for code in 0..45u32 {
        assert_eq!(BlendOp::is_valid_raw(code), valid.contains(&code));
    }
    for code in [0, 6, 7, 2147483647, 4294967295] {
        assert!(!BlendOp::is_valid_raw(code));
    }
}

fn compare_op_table() -> Vec<(CompareOp, u32)> {
    vec![
        (CompareOp::Never, 1),
        (CompareOp::Less, 2),
        (CompareOp::Equal, 3),
        (CompareOp::Lequal, 4),
        (CompareOp::Greater, 5),
        (CompareOp::NotEqual, 6),
        (CompareOp::Gequal, 7),
        (CompareOp::Always, 8),
    ]
}

#[test]
fn compare_op_numbers() {
    for (value, code) in compare_op_table() {
        assert_eq!(value.to_raw(), code);
    }
}

#[test]
fn compare_op_from_number() {
    for (value, code) in compare_op_table() {
        assert!(CompareOp::is_valid_raw(code));
        assert_eq!(CompareOp::from(code), value);
    }
}

#[test]
fn compare_op_numbers_of_no_value() {
    let valid: Vec<u32> = compare_op_table().iter().map(|entry| entry.1).collect();
    for code in 0..48u32 {
        assert_eq!(CompareOp::is_valid_raw(code), valid.contains(&code));
    }
    for code in [0, 9, 10, 2147483647, 4294967295] {
        assert!(!CompareOp::is_valid_raw(code));
    }
}

fn counter_table() -> Vec<(Counter, u32)> {
    vec![
        (Counter::TimestampPipelineTop, 0),
        (Counter::Timestamp, 1),
        (Counter::SamplesPassed, 2),
        (Counter::ZcullStats, 3),
        (Counter::InputVertices, 4),
        (Counter::InputPrimitives, 5),
        (Counter::VertexShaderInvocations, 6),
        (Counter::TessControlShaderInvocations, 7),
        (Counter::TessEvaluationShaderInvocations, 8),
        (Counter::GeometryShaderInvocations, 9),
        (Counter::FragmentShaderInvocations, 10),
        (Counter::TessEvaluationShaderPrimitives, 11),
        (Counter::GeometryShaderPrimitives, 12),
        (Counter::ClipperInputPrimitives, 13),
        (Counter::ClipperOutputPrimitives, 14),
        (Counter::PrimitivesGenerated, 15),
        (Counter::TransformFeedbackPrimitivesWritten, 16),
    ]
}

#[test]
fn counter_numbers() {
    for (value, code) in counter_table() {
        assert_eq!(value.to_raw(), code);
    }
}

fn coverage_modulation_table() -> Vec<(CoverageModulation, u32)> {
    vec![
        (CoverageModulation::NoModulation, 0),
        (CoverageModulation::Rgb, 1),
        (CoverageModulation::Alpha, 2),
        (CoverageModulation::Rgba, 3),
    ]
}

#[test]
fn coverage_modulation_numbers() {
    for (value, code) in coverage_modulation_table() {
        assert_eq!(value.to_raw(), code);
    }
}

#[test]
fn coverage_modulation_from_number() {
    for (value, code) in coverage_modulation_table() {
        assert!(CoverageModulation::is_valid_raw(code));
        assert_eq!(CoverageModulation::from(code), value);
    }
}

#[test]
fn coverage_modulation_numbers_of_no_value() {
    let valid: Vec<u32> = coverage_modulation_table().iter().map(|entry| entry.1).collect();
    for code in 0..43u32 {
        assert_eq!(CoverageModulation::is_valid_raw(code), valid.contains(&code));
    }
    for code in [4, 5, 2147483647, 4294967295] {
        assert!(!CoverageModulation::is_valid_raw(code));
    }
}

fn ds_source_table() -> Vec<(DsSource, u32)> {
    vec![
        (DsSource::Depth, 0),
        (DsSource::Stencil, 1),
    ]
}

#[test]
fn ds_source_numbers() {
    for (value, code) in ds_source_table() {
        assert_eq!(value.to_raw(), code);
    }
}

#[test]
fn ds_source_from_number() {
    for (value, code) in ds_source_table() {
        assert!(DsSource::is_valid_raw(code));
        assert_eq!(DsSource::from(code), value);
    }
}

#[test]
fn ds_source_numbers_of_no_value() {
    let valid: Vec<u32> = ds_source_table().iter().map(|entry| entry.1).collect();
    for code in 0..41u32 {
        assert_eq!(DsSource::is_valid_raw(code), valid.contains(&code));
    }
    for code in [2, 3, 2147483647, 4294967295] {
        assert!(!DsSource::is_valid_raw(code));
    }
}

fn face_table() -> Vec<(Face, u32)> {
    vec![
        (Face::NoFace, 0),
        (Face::Front, 1),
        (Face::Back, 2),
        (Face::FrontAndBack, 3),
    ]
}

#[test]
fn face_numbers() {
    for (value, code) in face_table() {
        assert_eq!(value.to_raw(), code);
    }
}

#[test]
fn face_from_number() {
    for (value, code) in face_table() {
        assert!(Face::is_valid_raw(code));
        assert_eq!(Face::from(code), value);
    }
}

#[test]
fn face_numbers_of_no_value() {
    let valid: Vec<u32> = face_table().iter().map(|entry| entry.1).collect();
    for code in 0..43u32 {
        assert_eq!(Face::is_valid_raw(code), valid.contains(&code));
    }
    for code in [4, 5, 2147483647, 4294967295] {
        assert!(!Face::is_valid_raw(code));
    }
}

fn filter_table() -> Vec<(Filter, u32)> {
    vec![
        (Filter::Nearest, 1),
        (Filter::Linear, 2),
    ]
}

#[test]
fn filter_numbers() {
    for (value, code) in filter_table() {
        assert_eq!(value.to_raw(), code);
    }
}

fn front_face_table() -> Vec<(FrontFace, u32)> {
    vec![
        (FrontFace::CW, 0),
        (FrontFace::CCW, 1),
    ]
}

#[test]
fn front_face_numbers() {
    for (value, code) in front_face_table() {
        assert_eq!(value.to_raw(), code);
    }
}

#[test]
fn front_face_from_number() {
    for (value, code) in front_face_table() {
        assert!(FrontFace::is_valid_raw(code));
        assert_eq!(FrontFace::from(code), value);
    }
}

#[test]
fn front_face_numbers_of_no_value() {
    let valid: Vec<u32> = front_face_table().iter().map(|entry| entry.1).collect();
    for code in 0..41u32 {
        assert_eq!(FrontFace::is_valid_raw(code), valid.contains(&code));
    }
    for code in [2, 3, 2147483647, 4294967295] {
        assert!(!FrontFace::is_valid_raw(code));
    }
}

fn idx_format_table() -> Vec<(IdxFormat, u32)> {
    vec![
        (IdxFormat::Uint8, 0),
        (IdxFormat::Uint16, 1),
        (IdxFormat::Uint32, 2),
    ]
}

#[test]
fn idx_format_numbers() {
    for (value, code) in idx_format_table() {
        assert_eq!(value.to_raw(), code);
    }
}

#[test]
fn idx_format_from_number() {
    for (value, code) in idx_format_table() {
        assert!(IdxFormat::is_valid_raw(code));
        assert_eq!(IdxFormat::from(code), value);
    }
}

#[test]
fn idx_format_numbers_of_no_value() {
    let valid: Vec<u32> = idx_format_table().iter().map(|entry| entry.1).collect();
    for code in 0..42u32 {
        assert_eq!(IdxFormat::is_valid_raw(code), valid.contains(&code));
    }
    for code in [3, 4, 2147483647, 4294967295] {
        assert!(!IdxFormat::is_valid_raw(code));
    }
}

fn image_format_table() -> Vec<(ImageFormat, u32)> {
    vec![
        (ImageFormat::NoFormat, 0),
        (ImageFormat::R8Unorm, 1),
        (ImageFormat::R8Snorm, 2),
        (ImageFormat::R8Uint, 3),
        (ImageFormat::R8Sint, 4),
        (ImageFormat::R16Float, 5),
        (ImageFormat::R16Unorm, 6),
        (ImageFormat::R16Snorm, 7),
        (ImageFormat::R16Uint, 8),
        (ImageFormat::R16Sint, 9),
        (ImageFormat::R32Float, 10),
        (ImageFormat::R32Uint, 11),
        (ImageFormat::R32Sint, 12),
        (ImageFormat::RG8Unorm, 13),
        (ImageFormat::RG8Snorm, 14),
        (ImageFormat::RG8Uint, 15),
        (ImageFormat::RG8Sint, 16),
        (ImageFormat::RG16Float, 17),
        (ImageFormat::RG16Unorm, 18),
        (ImageFormat::RG16Snorm, 19),
        (ImageFormat::RG16Uint, 20),
        (ImageFormat::RG16Sint, 21),
        (ImageFormat::RG32Float, 22),
        (ImageFormat::RG32Uint, 23),
        (ImageFormat::RG32Sint, 24),
        (ImageFormat::RGB32Float, 25),
        (ImageFormat::RGB32Uint, 26),
        (ImageFormat::RGB32Sint, 27),
        (ImageFormat::RGBA8Unorm, 28),
        (ImageFormat::RGBA8Snorm, 29),
        (ImageFormat::RGBA8Uint, 30),
        (ImageFormat::RGBA8Sint, 31),
        (ImageFormat::RGBA16Float, 32),
        (ImageFormat::RGBA16Unorm, 33),
        (ImageFormat::RGBA16Snorm, 34),
        (ImageFormat::RGBA16Uint, 35),
        (ImageFormat::RGBA16Sint, 36),
        (ImageFormat::RGBA32Float, 37),
        (ImageFormat::RGBA32Uint, 38),
        (ImageFormat::RGBA32Sint, 39),
        (ImageFormat::S8, 40),
        (ImageFormat::Z16, 41),
        (ImageFormat::Z24X8, 42),
        (ImageFormat::ZF32, 43),
        (ImageFormat::Z24S8, 44),
        (ImageFormat::ZF32X24S8, 45),
        (ImageFormat::RGBX8UnormSrgb, 46),
        (ImageFormat::RGBA8UnormSrgb, 47),
        (ImageFormat::RGBA4Unorm, 48),
        (ImageFormat::RGB5Unorm, 49),
        (ImageFormat::RGB5A1Unorm, 50),
        (ImageFormat::RGB565Unorm, 51),
        (ImageFormat::RGB10A2Unorm, 52),
        (ImageFormat::RGB10A2Uint, 53),
        (ImageFormat::RG11B10Float, 54),
        (ImageFormat::E5BGR9Float, 55),
        (ImageFormat::RGBBC1, 56),
        (ImageFormat::RGBABC1, 57),
        (ImageFormat::RGBABC2, 58),
        (ImageFormat::RGBABC3, 59),
        (ImageFormat::RGBBC1Srgb, 60),
        (ImageFormat::RGBABC1Srgb, 61),
        (ImageFormat::RGBABC2Srgb, 62),
        (ImageFormat::RGBABC3Srgb, 63),
        (ImageFormat::RBC4Unorm, 64),
        (ImageFormat::RBC4Snorm, 65),
        (ImageFormat::RGBC5Unorm, 66),
        (ImageFormat::RGBC5Snorm, 67),
        (ImageFormat::RGBABC7Unorm, 68),
        (ImageFormat::RGBABC7UnormSrgb, 69),
        (ImageFormat::RGBABC6HSF16Float, 70),
        (ImageFormat::RGBABC6HUF16Float, 71),
        (ImageFormat::RGBX8Unorm, 72),
        (ImageFormat::RGBX8Snorm, 73),
        (ImageFormat::RGBX8Uint, 74),
        (ImageFormat::RGBX8Sint, 75),
        (ImageFormat::RGBX16Float, 76),
        (ImageFormat::RGBX16Unorm, 77),
        (ImageFormat::RGBX16Snorm, 78),
        (ImageFormat::RGBX16Uint, 79),
        (ImageFormat::RGBX16Sint, 80),
        (ImageFormat::RGBX32Float, 81),
        (ImageFormat::RGBX32Uint, 82),
        (ImageFormat::RGBX32Sint, 83),
        (ImageFormat::RGBAAstc4x4, 84),
        (ImageFormat::RGBAAstc5x4, 85),
        (ImageFormat::RGBAAstc5x5, 86),
        (ImageFormat::RGBAAstc6x5, 87),
        (ImageFormat::RGBAAstc6x6, 88),
        (ImageFormat::RGBAAstc8x5, 89),
        (ImageFormat::RGBAAstc8x6, 90),
        (ImageFormat::RGBAAstc8x8, 91),
        (ImageFormat::RGBAAstc10x5, 92),
        (ImageFormat::RGBAAstc10x6, 93),
        (ImageFormat::RGBAAstc10x8, 94),
        (ImageFormat::RGBAAstc10x10, 95),
        (ImageFormat::RGBAAstc12x10, 96),
        (ImageFormat::RGBAAstc12x12, 97),
        (ImageFormat::RGBAAstc4x4Srgb, 98),
        (ImageFormat::RGBAAstc5x4Srgb, 99),
        (ImageFormat::RGBAAstc5x5Srgb, 100),
        (ImageFormat::RGBAAstc6x5Srgb, 101),
        (ImageFormat::RGBAAstc6x6Srgb, 102),
        (ImageFormat::RGBAAstc8x5Srgb, 103),
        (ImageFormat::RGBAAstc8x6Srgb, 104),
        (ImageFormat::RGBAAstc8x8Srgb, 105),
        (ImageFormat::RGBAAstc10x5Srgb, 106),
        (ImageFormat::RGBAAstc10x6Srgb, 107),
        (ImageFormat::RGBAAstc10x8Srgb, 108),
        (ImageFormat::RGBAAstc10x10Srgb, 109),
        (ImageFormat::RGBAAstc12x10Srgb, 110),
        (ImageFormat::RGBAAstc12x12Srgb, 111),
        (ImageFormat::BGR565Unorm, 112),
        (ImageFormat::BGR5Unorm, 113),
        (ImageFormat::BGR5A1Unorm, 114),
        (ImageFormat::A5BGR5Unorm, 115),
        (ImageFormat::BGRX8Unorm, 116),
        (ImageFormat::BGRA8Unorm, 117),
        (ImageFormat::BGRX8UnormSrgb, 118),
        (ImageFormat::BGRA8UnormSrgb, 119),
        (ImageFormat::RETC2Unorm, 120),
        (ImageFormat::RETC2Snorm, 121),
        (ImageFormat::RGETC2Unorm, 122),
        (ImageFormat::RGETC2Snorm, 123),
        (ImageFormat::RGBETC2, 124),
        (ImageFormat::RGBPTAETC2, 125),
        (ImageFormat::RGBAETC2, 126),
        (ImageFormat::RGBETC2Srgb, 127),
        (ImageFormat::RGBPTAETC2Srgb, 128),
        (ImageFormat::RGBAETC2Srgb, 129),
    ]
}

#[test]
fn image_format_numbers() {
    for (value, code) in image_format_table() {
        assert_eq!(value.to_raw(), code);
    }
}

#[test]
fn image_format_from_number() {
    for (value, code) in image_format_table() {
        assert!(ImageFormat::is_valid_raw(code));
        assert_eq!(ImageFormat::from(code), value);
    }
}

#[test]
fn image_format_numbers_of_no_value() {
    let valid: Vec<u32> = image_format_table().iter().map(|entry| entry.1).collect();
    for code in 0..169u32 {
        assert_eq!(ImageFormat::is_valid_raw(code), valid.contains(&code));
    }
    for code in [130, 131, 2147483647, 4294967295] {
        assert!(!ImageFormat::is_valid_raw(code));
    }
}

fn image_swizzle_table() -> Vec<(ImageSwizzle, u32)> {
    vec![
        (ImageSwizzle::Zero, 0),
        (ImageSwizzle::One, 1),
        (ImageSwizzle::Red, 2),
        (ImageSwizzle::Green, 3),
        (ImageSwizzle::Blue, 4),
        (ImageSwizzle::Alpha, 5),
    ]
}

#[test]
fn image_swizzle_numbers() {
    for (value, code) in image_swizzle_table() {
        assert_eq!(value.to_raw(), code);
    }
}

fn image_type_table() -> Vec<(ImageType, u32)> {
    vec![
        (ImageType::NoType, 0),
        (ImageType::D1, 1),
        (ImageType::D2, 2),
        (ImageType::D3, 3),
        (ImageType::D1Array, 4),
        (ImageType::D2Array, 5),
        (ImageType::D2MS, 6),
        (ImageType::D2MSArray, 7),
        (ImageType::Rectangle, 8),
        (ImageType::Cubemap, 9),
        (ImageType::CubemapArray, 10),
        (ImageType::Buffer, 11),
    ]
}

#[test]
fn image_type_numbers() {
    for (value, code) in image_type_table() {
        assert_eq!(value.to_raw(), code);
    }
}

#[test]
fn image_type_from_number() {
    for (value, code) in image_type_table() {
        assert!(ImageType::is_valid_raw(code));
        assert_eq!(ImageType::from(code), value);
    }
}

#[test]
fn image_type_numbers_of_no_value() {
    let valid: Vec<u32> = image_type_table().iter().map(|entry| entry.1).collect();
    for code in 0..51u32 {
        assert_eq!(ImageType::is_valid_raw(code), valid.contains(&code));
    }
    for code in [12, 13, 2147483647, 4294967295] {
        assert!(!ImageType::is_valid_raw(code));
    }
}

fn logic_op_table() -> Vec<(LogicOp, u32)> {
    vec![
        (LogicOp::Clear, 0),
        (LogicOp::And, 1),
        (LogicOp::AndReverse, 2),
        (LogicOp::Copy, 3),
        (LogicOp::AndInverted, 4),
        (LogicOp::NoOp, 5),
        (LogicOp::Xor, 6),
        (LogicOp::Or, 7),
        (LogicOp::Nor, 8),
        (LogicOp::Equivalent, 9),
        (LogicOp::Invert, 10),
        (LogicOp::OrReverse, 11),
        (LogicOp::CopyInverted, 12),
        (LogicOp::OrInverted, 13),
        (LogicOp::Nand, 14),
        (LogicOp::SetAll, 15),
    ]
}

#[test]
fn logic_op_numbers() {
    for (value, code) in logic_op_table() {
        assert_eq!(value.to_raw(), code);
    }
}

#[test]
fn logic_op_from_number() {
    for (value, code) in logic_op_table() {
        assert!(LogicOp::is_valid_raw(code));
        assert_eq!(LogicOp::from(code), value);
    }
}

#[test]
fn logic_op_numbers_of_no_value() {
    let valid: Vec<u32> = logic_op_table().iter().map(|entry| entry.1).collect();
    for code in 0..55u32 {
        assert_eq!(LogicOp::is_valid_raw(code), valid.contains(&code));
    }
    for code in [16, 17, 2147483647, 4294967295] {
        assert!(!LogicOp::is_valid_raw(code));
    }
}

fn mem_access_table() -> Vec<(MemAccess, u32)> {
    vec![
        (MemAccess::NoAccess, 0),
        (MemAccess::Uncached, 1),
        (MemAccess::Cached, 2),
        (MemAccess::Mask, 3),
    ]
}

#[test]
fn mem_access_numbers() {
    for (value, code) in mem_access_table() {
        assert_eq!(value.to_raw(), code);
    }
}

fn mip_filter_table() -> Vec<(MipFilter, u32)> {
    vec![
        (MipFilter::NoMip, 1),
        (MipFilter::Nearest, 2),
        (MipFilter::Linear, 3),
    ]
}

#[test]
fn mip_filter_numbers() {
    for (value, code) in mip_filter_table() {
        assert_eq!(value.to_raw(), code);
    }
}

fn ms_mode_table() -> Vec<(MsMode, u32)> {
    vec![
        (MsMode::Ms1x, 0),
        (MsMode::Ms2x, 1),
        (MsMode::Ms4x, 2),
        (MsMode::Ms8x, 3),
    ]
}

#[test]
fn ms_mode_numbers() {
    for (value, code) in ms_mode_table() {
        assert_eq!(value.to_raw(), code);
    }
}

#[test]
fn ms_mode_from_number() {
    for (value, code) in ms_mode_table() {
        assert!(MsMode::is_valid_raw(code));
        assert_eq!(MsMode::from(code), value);
    }
}

#[test]
fn ms_mode_numbers_of_no_value() {
    let valid: Vec<u32> = ms_mode_table().iter().map(|entry| entry.1).collect();
    for code in 0..43u32 {
        assert_eq!(MsMode::is_valid_raw(code), valid.contains(&code));
    }
    for code in [4, 5, 2147483647, 4294967295] {
        assert!(!MsMode::is_valid_raw(code));
    }
}

fn pipeline_pos_table() -> Vec<(PipelinePos, u32)> {
    vec![
        (PipelinePos::Top, 0),
        (PipelinePos::Rasterizer, 1),
        (PipelinePos::Bottom, 2),
    ]
}

#[test]
fn pipeline_pos_numbers() {
    for (value, code) in pipeline_pos_table() {
        assert_eq!(value.to_raw(), code);
    }
}

fn polygon_mode_table() -> Vec<(PolygonMode, u32)> {
    vec![
        (PolygonMode::Point, 0),
        (PolygonMode::Line, 1),
        (PolygonMode::Fill, 2),
    ]
}

#[test]
fn polygon_mode_numbers() {
    for (value, code) in polygon_mode_table() {
        assert_eq!(value.to_raw(), code);
    }
}

#[test]
fn polygon_mode_from_number() {
    for (value, code) in polygon_mode_table() {
        assert!(PolygonMode::is_valid_raw(code));
        assert_eq!(PolygonMode::from(code), value);
    }
}

#[test]
fn polygon_mode_numbers_of_no_value() {
    let valid: Vec<u32> = polygon_mode_table().iter().map(|entry| entry.1).collect();
    for code in 0..42u32 {
        assert_eq!(PolygonMode::is_valid_raw(code), valid.contains(&code));
    }
    for code in [3, 4, 2147483647, 4294967295] {
        assert!(!PolygonMode::is_valid_raw(code));
    }
}

fn primitive_table() -> Vec<(Primitive, u32)> {
    vec![
        (Primitive::Points, 0),
        (Primitive::Lines, 1),
        (Primitive::LineLoop, 2),
        (Primitive::LineStrip, 3),
        (Primitive::Triangles, 4),
        (Primitive::TriangleStrip, 5),
        (Primitive::TriangleFan, 6),
        (Primitive::Quads, 7),
        (Primitive::QuadStrip, 8),
        (Primitive::Polygon, 9),
        (Primitive::LinesAdjacency, 10),
        (Primitive::LineStripAdjacency, 11),
        (Primitive::TrianglesAdjacency, 12),
        (Primitive::TriangleStripAdjacency, 13),
        (Primitive::Patches, 14),
    ]
}

#[test]
fn primitive_numbers() {
    for (value, code) in primitive_table() {
        assert_eq!(value.to_raw(), code);
    }
}

#[test]
fn primitive_from_number() {
    for (value, code) in primitive_table() {
        assert!(Primitive::is_valid_raw(code));
        assert_eq!(Primitive::from(code), value);
    }
}

#[test]
fn primitive_numbers_of_no_value() {
    let valid: Vec<u32> = primitive_table().iter().map(|entry| entry.1).collect();
    for code in 0..54u32 {
        assert_eq!(Primitive::is_valid_raw(code), valid.contains(&code));
    }
    for code in [15, 16, 2147483647, 4294967295] {
        assert!(!Primitive::is_valid_raw(code));
    }
}

fn provoking_vertex_table() -> Vec<(ProvokingVertex, u32)> {
    vec![
        (ProvokingVertex::First, 0),
        (ProvokingVertex::Last, 1),
    ]
}

#[test]
fn provoking_vertex_numbers() {
    for (value, code) in provoking_vertex_table() {
        assert_eq!(value.to_raw(), code);
    }
}

#[test]
fn provoking_vertex_from_number() {
    for (value, code) in provoking_vertex_table() {
        assert!(ProvokingVertex::is_valid_raw(code));
        assert_eq!(ProvokingVertex::from(code), value);
    }
}

#[test]
fn provoking_vertex_numbers_of_no_value() {
    let valid: Vec<u32> = provoking_vertex_table().iter().map(|entry| entry.1).collect();
    for code in 0..41u32 {
        assert_eq!(ProvokingVertex::is_valid_raw(code), valid.contains(&code));
    }
    for code in [2, 3, 2147483647, 4294967295] {
        assert!(!ProvokingVertex::is_valid_raw(code));
    }
}

fn sampler_reduction_table() -> Vec<(SamplerReduction, u32)> {
    vec![
        (SamplerReduction::WeightedAverage, 0),
        (SamplerReduction::Min, 1),
        (SamplerReduction::Max, 2),
    ]
}

#[test]
fn sampler_reduction_numbers() {
    for (value, code) in sampler_reduction_table() {
        assert_eq!(value.to_raw(), code);
    }
}

fn stage_table() -> Vec<(Stage, u32)> {
    vec![
        (Stage::Vertex, 0),
        (Stage::TessCtrl, 1),
        (Stage::TessEval, 2),
        (Stage::Geometry, 3),
        (Stage::Fragment, 4),
        (Stage::Compute, 5),
    ]
}

#[test]
fn stage_numbers() {
    for (value, code) in stage_table() {
        assert_eq!(value.to_raw(), code);
    }
}

#[test]
fn stage_from_number() {
    for (value, code) in stage_table() {
        assert!(Stage::is_valid_raw(code));
        assert_eq!(Stage::from(code), value);
    }
}

#[test]
fn stage_numbers_of_no_value() {
    let valid: Vec<u32> = stage_table().iter().map(|entry| entry.1).collect();
    for code in 0..45u32 {
        assert_eq!(Stage::is_valid_raw(code), valid.contains(&code));
    }
    for code in [6, 7, 2147483647, 4294967295] {
        assert!(!Stage::is_valid_raw(code));
    }
}

fn stage_flag_table() -> Vec<(StageFlag, u32)> {
    vec![
        (StageFlag::Vertex, 1),
        (StageFlag::TessCtrl, 2),
        (StageFlag::TessEval, 4),
        (StageFlag::Geometry, 8),
        (StageFlag::Fragment, 16),
        (StageFlag::Compute, 32),
        (StageFlag::GraphicsMask, 31),
    ]
}

#[test]
fn stage_flag_numbers() {
    for (value, code) in stage_flag_table() {
        assert_eq!(value.to_raw(), code);
    }
}

fn stencil_op_table() -> Vec<(StencilOp, u32)> {
    vec![
        (StencilOp::Keep, 1),
        (StencilOp::Zero, 2),
        (StencilOp::Replace, 3),
        (StencilOp::Incr, 4),
        (StencilOp::Decr, 5),
        (StencilOp::Invert, 6),
        (StencilOp::IncrWrap, 7),
        (StencilOp::DecrWrap, 8),
    ]
}

#[test]
fn stencil_op_numbers() {
    for (value, code) in stencil_op_table() {
        assert_eq!(value.to_raw(), code);
    }
}

fn swizzle_table() -> Vec<(Swizzle, u32)> {
    vec![
        (Swizzle::PositiveX, 0),
        (Swizzle::NegativeX, 1),
        (Swizzle::PositiveY, 2),
        (Swizzle::NegativeY, 3),
        (Swizzle::PositiveZ, 4),
        (Swizzle::NegativeZ, 5),
        (Swizzle::PositiveW, 6),
        (Swizzle::NegativeW, 7),
    ]
}

#[test]
fn swizzle_numbers() {
    for (value, code) in swizzle_table() {
        assert_eq!(value.to_raw(), code);
    }
}

fn tile_size_table() -> Vec<(TileSize, u32)> {
    vec![
        (TileSize::OneGob, 0),
        (TileSize::TwoGobs, 1),
        (TileSize::FourGobs, 2),
        (TileSize::EightGobs, 3),
        (TileSize::SixteenGobs, 4),
        (TileSize::ThirtyTwoGobs, 5),
    ]
}

#[test]
fn tile_size_numbers() {
    for (value, code) in tile_size_table() {
        assert_eq!(value.to_raw(), code);
    }
}

#[test]
fn tile_size_from_number() {
    for (value, code) in tile_size_table() {
        assert!(TileSize::is_valid_raw(code));
        assert_eq!(TileSize::from(code), value);
    }
}

#[test]
fn tile_size_numbers_of_no_value() {
    let valid: Vec<u32> = tile_size_table().iter().map(|entry| entry.1).collect();
    for code in 0..45u32 {
        assert_eq!(TileSize::is_valid_raw(code), valid.contains(&code));
    }
    for code in [6, 7, 2147483647, 4294967295] {
        assert!(!TileSize::is_valid_raw(code));
    }
}

fn tiled_cache_op_table() -> Vec<(TiledCacheOp, u32)> {
    vec![
        (TiledCacheOp::Disable, 0),
        (TiledCacheOp::Enable, 1),
        (TiledCacheOp::Flush, 2),
        (TiledCacheOp::FlushAlt, 3),
        (TiledCacheOp::UnkDisable, 4),
        (TiledCacheOp::UnkEnable, 5),
    ]
}

#[test]
fn tiled_cache_op_numbers() {
    for (value, code) in tiled_cache_op_table() {
        assert_eq!(value.to_raw(), code);
    }
}

fn var_compare_op_table() -> Vec<(VarCompareOp, u32)> {
    vec![
        (VarCompareOp::Equal, 0),
        (VarCompareOp::Sequential, 1),
    ]
}

#[test]
fn var_compare_op_numbers() {
    for (value, code) in var_compare_op_table() {
        assert_eq!(value.to_raw(), code);
    }
}

fn var_op_table() -> Vec<(VarOp, u32)> {
    vec![
        (VarOp::SetValue, 0),
        (VarOp::Add, 1),
        (VarOp::Sub, 2),
        (VarOp::And, 3),
        (VarOp::Or, 4),
        (VarOp::Xor, 5),
    ]
}

#[test]
fn var_op_numbers() {
    for (value, code) in var_op_table() {
        assert_eq!(value.to_raw(), code);
    }
}

fn vtx_attrib_size_table() -> Vec<(VtxAttribSize, u32)> {
    vec![
        (VtxAttribSize::_1x32, 18),
        (VtxAttribSize::_2x32, 4),
        (VtxAttribSize::_3x32, 2),
        (VtxAttribSize::_4x32, 1),
        (VtxAttribSize::_1x16, 27),
        (VtxAttribSize::_2x16, 15),
        (VtxAttribSize::_3x16, 5),
        (VtxAttribSize::_4x16, 3),
        (VtxAttribSize::_1x8, 29),
        (VtxAttribSize::_2x8, 24),
        (VtxAttribSize::_3x8, 19),
        (VtxAttribSize::_4x8, 10),
        (VtxAttribSize::_10_10_10_2, 48),
        (VtxAttribSize::_11_11_10, 49),
    ]
}

#[test]
fn vtx_attrib_size_numbers() {
    for (value, code) in vtx_attrib_size_table() {
        assert_eq!(value.to_raw(), code);
    }
}

#[test]
fn vtx_attrib_size_from_number() {
    for (value, code) in vtx_attrib_size_table() {
        assert!(VtxAttribSize::is_valid_raw(code));
        assert_eq!(VtxAttribSize::from(code), value);
    }
}

#[test]
fn vtx_attrib_size_numbers_of_no_value() {
    let valid: Vec<u32> = vtx_attrib_size_table().iter().map(|entry| entry.1).collect();
    for code in 0..89u32 {
        assert_eq!(VtxAttribSize::is_valid_raw(code), valid.contains(&code));
    }
    for code in [0, 6, 7, 8, 9, 11, 46, 47, 50, 51, 2147483647, 4294967295] {
        assert!(!VtxAttribSize::is_valid_raw(code));
    }
}

fn vtx_attrib_type_table() -> Vec<(VtxAttribType, u32)> {
    vec![
        (VtxAttribType::NoType, 0),
        (VtxAttribType::Snorm, 1),
        (VtxAttribType::Unorm, 2),
        (VtxAttribType::Sint, 3),
        (VtxAttribType::Uint, 4),
        (VtxAttribType::Uscaled, 5),
        (VtxAttribType::Sscaled, 6),
        (VtxAttribType::Float, 7),
    ]
}

#[test]
fn vtx_attrib_type_numbers() {
    for (value, code) in vtx_attrib_type_table() {
        assert_eq!(value.to_raw(), code);
    }
}

#[test]
fn vtx_attrib_type_from_number() {
    for (value, code) in vtx_attrib_type_table() {
        assert!(VtxAttribType::is_valid_raw(code));
        assert_eq!(VtxAttribType::from(code), value);
    }
}

#[test]
fn vtx_attrib_type_numbers_of_no_value() {
    let valid: Vec<u32> = vtx_attrib_type_table().iter().map(|entry| entry.1).collect();
    for code in 0..47u32 {
        assert_eq!(VtxAttribType::is_valid_raw(code), valid.contains(&code));
    }
    for code in [8, 9, 2147483647, 4294967295] {
        assert!(!VtxAttribType::is_valid_raw(code));
    }
}

fn wrap_mode_table() -> Vec<(WrapMode, u32)> {
    vec![
        (WrapMode::Repeat, 0),
        (WrapMode::MirroredRepeat, 1),
        (WrapMode::ClampToEdge, 2),
        (WrapMode::ClampToBorder, 3),
        (WrapMode::Clamp, 4),
        (WrapMode::MirrorClampToEdge, 5),
        (WrapMode::MirrorClampToBorder, 6),
        (WrapMode::MirrorClamp, 7),
    ]
}

#[test]
fn wrap_mode_numbers() {
    for (value, code) in wrap_mode_table() {
        assert_eq!(value.to_raw(), code);
    }
}
