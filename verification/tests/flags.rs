use deko3d::{
    ColorMask, DeviceFlags, ImageFlags, InvalidateFlags, MemAccess, MemBlockFlags, PolygonFlag,
    PolygonMode, QueueFlags, MEMBLOCK_CPU_ACCESS_SHIFT, MEMBLOCK_GPU_ACCESS_SHIFT,
};

#[test]
fn device_flag_values() {
    assert_eq!(DeviceFlags::depth_zero_to_one().bits(), 0);
    assert_eq!(DeviceFlags::depth_minus_one_to_one().bits(), 1 << 8);
    assert_eq!(DeviceFlags::origin_upper_left().bits(), 0);
    assert_eq!(DeviceFlags::origin_lower_left().bits(), 1 << 9);
    assert_eq!(DeviceFlags::empty().bits(), 0);
    assert_eq!(DeviceFlags::all().bits(), 0x300);
}

#[test]
fn mem_block_flag_values() {
    assert_eq!(MemBlockFlags::cpu_uncached().bits(), 1);
    assert_eq!(MemBlockFlags::cpu_cached().bits(), 2);
    assert_eq!(MemBlockFlags::cpu_access_mask().bits(), 3);
    assert_eq!(MemBlockFlags::gpu_uncached().bits(), 4);
    assert_eq!(MemBlockFlags::gpu_cached().bits(), 8);
    assert_eq!(MemBlockFlags::gpu_access_mask().bits(), 12);
    assert_eq!(MemBlockFlags::code().bits(), 1 << 4);
    assert_eq!(MemBlockFlags::image().bits(), 1 << 5);
    assert_eq!(MemBlockFlags::zero_fill_init().bits(), 1 << 8);
    assert_eq!(MemBlockFlags::all().bits(), 0x13F);
}

#[test]
fn mem_block_access_flags_are_shifted_accesses() {
    let cpu = MEMBLOCK_CPU_ACCESS_SHIFT;
    let gpu = MEMBLOCK_GPU_ACCESS_SHIFT;
    assert_eq!(MemBlockFlags::cpu_uncached().bits(), MemAccess::Uncached.to_raw() << cpu);
    assert_eq!(MemBlockFlags::cpu_cached().bits(), MemAccess::Cached.to_raw() << cpu);
    assert_eq!(MemBlockFlags::cpu_access_mask().bits(), MemAccess::Mask.to_raw() << cpu);
    assert_eq!(MemBlockFlags::gpu_uncached().bits(), MemAccess::Uncached.to_raw() << gpu);
    assert_eq!(MemBlockFlags::gpu_cached().bits(), MemAccess::Cached.to_raw() << gpu);
    assert_eq!(MemBlockFlags::gpu_access_mask().bits(), MemAccess::Mask.to_raw() << gpu);
}

#[test]
fn queue_flag_values() {
    assert_eq!(QueueFlags::graphics().bits(), 1);
    assert_eq!(QueueFlags::compute().bits(), 2);
    assert_eq!(QueueFlags::medium_prio().bits(), 0);
    assert_eq!(QueueFlags::high_prio().bits(), 4);
    assert_eq!(QueueFlags::low_prio().bits(), 8);
    assert_eq!(QueueFlags::prio_mask().bits(), 12);
    assert_eq!(QueueFlags::enable_zcull().bits(), 0);
    assert_eq!(QueueFlags::disable_zcull().bits(), 16);
    assert_eq!(QueueFlags::all().bits(), 0x1F);
}

#[test]
fn image_flag_values() {
    assert_eq!(ImageFlags::block_linear().bits(), 0);
    assert_eq!(ImageFlags::pitch_linear().bits(), 1);
    assert_eq!(ImageFlags::custom_tile_size().bits(), 2);
    assert_eq!(ImageFlags::hw_compression().bits(), 4);
    assert_eq!(ImageFlags::z16_enable_zbc().bits(), 8);
    assert_eq!(ImageFlags::usage_render().bits(), 1 << 8);
    assert_eq!(ImageFlags::usage_load_store().bits(), 1 << 9);
    assert_eq!(ImageFlags::usage_present().bits(), 1 << 10);
    assert_eq!(ImageFlags::usage_2d_engine().bits(), 1 << 11);
    assert_eq!(ImageFlags::usage_video().bits(), 1 << 12);
    assert_eq!(ImageFlags::all().bits(), 0x1F0F);
}

#[test]
fn invalidate_flag_values() {
    assert_eq!(InvalidateFlags::empty().bits(), 0);
    assert_eq!(InvalidateFlags::image().bits(), 1);
    assert_eq!(InvalidateFlags::shader().bits(), 2);
    assert_eq!(InvalidateFlags::descriptors().bits(), 4);
    assert_eq!(InvalidateFlags::zcull().bits(), 8);
    assert_eq!(InvalidateFlags::l2_cache().bits(), 16);
    assert_eq!(InvalidateFlags::all().bits(), 0x1F);
}

#[test]
fn polygon_flag_values() {
    assert_eq!(PolygonFlag::point().bits(), 1);
    assert_eq!(PolygonFlag::line().bits(), 2);
    assert_eq!(PolygonFlag::fill().bits(), 4);
    assert_eq!(PolygonFlag::all().bits(), 7);
}

#[test]
fn polygon_flags_are_the_bits_of_the_modes() {
    assert_eq!(PolygonFlag::point().bits(), 1 << PolygonMode::Point.to_raw());
    assert_eq!(PolygonFlag::line().bits(), 1 << PolygonMode::Line.to_raw());
    assert_eq!(PolygonFlag::fill().bits(), 1 << PolygonMode::Fill.to_raw());
}

#[test]
fn color_mask_values() {
    assert_eq!(ColorMask::r().bits(), 1);
    assert_eq!(ColorMask::g().bits(), 2);
    assert_eq!(ColorMask::b().bits(), 4);
    assert_eq!(ColorMask::a().bits(), 8);
    assert_eq!(ColorMask::rgb().bits(), 7);
    assert_eq!(ColorMask::rgba().bits(), 15);
    assert_eq!(ColorMask::all().bits(), 15);
}

#[test]
fn union_sets_the_bits_of_both() {
    let flags = MemBlockFlags::cpu_uncached().union(MemBlockFlags::gpu_cached());
    assert_eq!(flags.bits(), 9);
    let flags = flags.union(MemBlockFlags::code());
    assert_eq!(flags.bits(), 0x19);
    assert_eq!(flags.union(flags), flags);
    assert_eq!(flags.union(MemBlockFlags::empty()), flags);
    assert_eq!(ColorMask::r().union(ColorMask::g()).union(ColorMask::b()), ColorMask::rgb());
    assert_eq!(ColorMask::rgb().union(ColorMask::a()), ColorMask::rgba());
}

#[test]
fn union_of_all_flags_is_all() {
    let flags = PolygonFlag::point().union(PolygonFlag::line()).union(PolygonFlag::fill());
    assert_eq!(flags, PolygonFlag::all());
    let flags = InvalidateFlags::image()
        .union(InvalidateFlags::shader())
        .union(InvalidateFlags::descriptors())
        .union(InvalidateFlags::zcull())
        .union(InvalidateFlags::l2_cache());
    assert_eq!(flags, InvalidateFlags::all());
    let flags = DeviceFlags::depth_minus_one_to_one().union(DeviceFlags::origin_lower_left());
    assert_eq!(flags, DeviceFlags::all());
}

#[test]
fn contains_asks_for_every_bit() {
    let flags = QueueFlags::graphics().union(QueueFlags::high_prio());
    assert!(flags.contains(QueueFlags::graphics()));
    assert!(flags.contains(QueueFlags::high_prio()));
    assert!(flags.contains(flags));
    assert!(!flags.contains(QueueFlags::compute()));
    assert!(!flags.contains(QueueFlags::low_prio()));
    assert!(!flags.contains(QueueFlags::prio_mask()));
    assert!(flags.contains(QueueFlags::empty()));
    assert!(flags.contains(QueueFlags::medium_prio()));
    assert!(QueueFlags::all().contains(flags));
    assert!(!QueueFlags::empty().contains(flags));
}

#[test]
fn truncation_drops_bits_of_no_flag() {
    assert_eq!(DeviceFlags::from_bits_truncate(0xFFFF_FFFF).bits(), 0x300);
    assert_eq!(DeviceFlags::from_bits_truncate(0x201).bits(), 0x200);
    assert_eq!(DeviceFlags::from_bits_truncate(0xFF).bits(), 0);
    assert_eq!(MemBlockFlags::from_bits_truncate(0xFFFF_FFFF).bits(), 0x13F);
    assert_eq!(MemBlockFlags::from_bits_truncate(0xC9).bits(), 0x9);
    assert_eq!(QueueFlags::from_bits_truncate(0x123).bits(), 0x3);
    assert_eq!(ImageFlags::from_bits_truncate(0xFFFF_FFFF).bits(), 0x1F0F);
    assert_eq!(InvalidateFlags::from_bits_truncate(0x3F).bits(), 0x1F);
    assert_eq!(PolygonFlag::from_bits_truncate(0xF).bits(), 7);
    assert_eq!(ColorMask::from_bits_truncate(0x1F).bits(), 15);
}

#[test]
fn truncation_keeps_the_bits_of_a_flag_set() {
    for bits in 0..=0x1Fu32 {
        assert_eq!(QueueFlags::from_bits_truncate(bits).bits(), bits);
    }
    for bits in 0..=15u32 {
        assert_eq!(ColorMask::from_bits_truncate(bits).bits(), bits);
    }
    let flags = ImageFlags::pitch_linear().union(ImageFlags::usage_render());
    assert_eq!(ImageFlags::from_bits_truncate(flags.bits()), flags);
    assert_eq!(flags.bits(), 0x101);
}

#[test]
fn a_flag_set_holds_bits_of_flags_only() {
    for bits in [0u32, 1, 0x80, 0x100, 0x2FF, 0xFFFF, 0xFFFF_FFFF] {
        assert_eq!(DeviceFlags::from_bits_truncate(bits).bits() & !DeviceFlags::all().bits(), 0);
        assert_eq!(ImageFlags::from_bits_truncate(bits).bits() & !ImageFlags::all().bits(), 0);
        assert_eq!(MemBlockFlags::from_bits_truncate(bits).bits() & !MemBlockFlags::all().bits(), 0);
    }
}
