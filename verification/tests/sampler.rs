use deko3d::{
    CompareOp, Filter, MipFilter, Sampler, SamplerReduction, WrapMode, FLOAT_ONE_BITS,
    FLOAT_THOUSAND_BITS,
};

#[test]
fn float_bits_are_those_of_the_numbers() {
    assert_eq!(FLOAT_ONE_BITS, 1.0f32.to_bits());
    assert_eq!(FLOAT_THOUSAND_BITS, 1000.0f32.to_bits());
    assert_eq!(0, 0.0f32.to_bits());
}

#[test]
fn sampler_defaults() {
    let sampler = Sampler::new();
    assert_eq!(sampler.min_filter, Filter::Nearest);
    assert_eq!(sampler.mag_filter, Filter::Nearest);
    assert_eq!(sampler.mip_filter, MipFilter::NoMip);
    assert_eq!(sampler.wrap_mode, [WrapMode::Repeat, WrapMode::Repeat, WrapMode::Repeat]);
    assert_eq!(f32::from_bits(sampler.lod_clamp_min), 0.0);
    assert_eq!(f32::from_bits(sampler.lod_clamp_max), 1000.0);
    assert_eq!(f32::from_bits(sampler.lod_bias), 0.0);
    assert_eq!(f32::from_bits(sampler.lod_snap), 0.0);
    assert!(!sampler.compare_enable);
    assert_eq!(sampler.compare_op, CompareOp::Less);
    assert_eq!(sampler.border_color, [0, 0, 0, 0]);
    assert_eq!(f32::from_bits(sampler.max_anisotropy), 1.0);
    assert_eq!(sampler.reduction_mode, SamplerReduction::WeightedAverage);
}

#[test]
fn sampler_filter_reads_back() {
    let mut sampler = Sampler::new();
    sampler.set_filter(Filter::Linear, Filter::Nearest, MipFilter::Linear);
    assert_eq!(sampler.min_filter, Filter::Linear);
    assert_eq!(sampler.mag_filter, Filter::Nearest);
    assert_eq!(sampler.mip_filter, MipFilter::Linear);
    sampler.set_filter(Filter::Nearest, Filter::Linear, MipFilter::Nearest);
    assert_eq!(sampler.min_filter, Filter::Nearest);
    assert_eq!(sampler.mag_filter, Filter::Linear);
    assert_eq!(sampler.mip_filter, MipFilter::Nearest);
    let mut expected = Sampler::new();
    expected.mag_filter = Filter::Linear;
    expected.mip_filter = MipFilter::Nearest;
    assert_eq!(sampler, expected);
}

#[test]
fn sampler_wrap_mode_reads_back() {
    let mut sampler = Sampler::new();
    sampler.set_wrap_mode(WrapMode::ClampToEdge, WrapMode::MirroredRepeat, WrapMode::ClampToBorder);
    assert_eq!(
        sampler.wrap_mode,
        [WrapMode::ClampToEdge, WrapMode::MirroredRepeat, WrapMode::ClampToBorder]
    );
    let mut expected = Sampler::new();
    expected.wrap_mode = [WrapMode::ClampToEdge, WrapMode::MirroredRepeat, WrapMode::ClampToBorder];
    assert_eq!(sampler, expected);
}

#[test]
fn sampler_levels_of_detail_read_back() {
    let mut sampler = Sampler::new();
    sampler
        .set_lod_clamp(2.5f32.to_bits(), 8.0f32.to_bits())
        .set_lod_bias((-0.75f32).to_bits())
        .set_lod_snap(0.125f32.to_bits());
    assert_eq!(f32::from_bits(sampler.lod_clamp_min), 2.5);
    assert_eq!(f32::from_bits(sampler.lod_clamp_max), 8.0);
    assert_eq!(f32::from_bits(sampler.lod_bias), -0.75);
    assert_eq!(f32::from_bits(sampler.lod_snap), 0.125);
    assert_eq!(sampler.lod_clamp_min, 0x4020_0000);
    assert_eq!(sampler.lod_bias, 0xBF40_0000);
    assert_eq!(f32::from_bits(sampler.max_anisotropy), 1.0);
    assert_eq!(sampler.min_filter, Filter::Nearest);
}

#[test]
fn sampler_depth_compare_reads_back() {
    let mut sampler = Sampler::new();
    sampler.set_depth_compare(true, CompareOp::Gequal);
    assert!(sampler.compare_enable);
    assert_eq!(sampler.compare_op, CompareOp::Gequal);
    sampler.set_depth_compare(false, CompareOp::Never);
    assert!(!sampler.compare_enable);
    assert_eq!(sampler.compare_op, CompareOp::Never);
    sampler.set_depth_compare(false, CompareOp::Less);
    assert_eq!(sampler, Sampler::new());
}

#[test]
fn sampler_border_color_reads_back() {
    let mut sampler = Sampler::new();
    sampler.set_border_color(1.0f32.to_bits(), 0.5f32.to_bits(), 0.25f32.to_bits(), 0.0f32.to_bits());
    assert_eq!(sampler.border_color, [0x3F80_0000, 0x3F00_0000, 0x3E80_0000, 0]);
    sampler.set_border_color_ui(1, 2, 3, 0xFFFF_FFFF);
    assert_eq!(sampler.border_color, [1, 2, 3, 0xFFFF_FFFF]);
    sampler.set_border_color_i(-1, 0, 7, i32::MIN);
    assert_eq!(sampler.border_color, [0xFFFF_FFFF, 0, 7, 0x8000_0000]);
    sampler.set_border_color_i(i32::MAX, -2, -128, 1);
    assert_eq!(sampler.border_color, [0x7FFF_FFFF, 0xFFFF_FFFE, 0xFFFF_FF80, 1]);
    assert_eq!(sampler.border_color[1] as i32, -2);
    assert_eq!(sampler.compare_op, CompareOp::Less);
    assert_eq!(sampler.lod_clamp_max, FLOAT_THOUSAND_BITS);
}

#[test]
fn sampler_anisotropy_and_reduction_read_back() {
    let mut sampler = Sampler::new();
    sampler.set_max_anisotropy(16.0f32.to_bits()).set_reduction_mode(SamplerReduction::Max);
    assert_eq!(f32::from_bits(sampler.max_anisotropy), 16.0);
    assert_eq!(sampler.max_anisotropy, 0x4180_0000);
    assert_eq!(sampler.reduction_mode, SamplerReduction::Max);
    sampler.set_reduction_mode(SamplerReduction::Min);
    assert_eq!(sampler.reduction_mode, SamplerReduction::Min);
    sampler.set_max_anisotropy(FLOAT_ONE_BITS).set_reduction_mode(SamplerReduction::WeightedAverage);
    assert_eq!(sampler, Sampler::new());
}
