use deko3d::{ColorMask, ColorState, ColorWriteState, CompareOp, LogicOp};

fn logic_ops() -> [LogicOp; 16] {
    [
        LogicOp::Clear,
        LogicOp::And,
        LogicOp::AndReverse,
        LogicOp::Copy,
        LogicOp::AndInverted,
        LogicOp::NoOp,
        LogicOp::Xor,
        LogicOp::Or,
        LogicOp::Nor,
        LogicOp::Equivalent,
        LogicOp::Invert,
        LogicOp::OrReverse,
        LogicOp::CopyInverted,
        LogicOp::OrInverted,
        LogicOp::Nand,
        LogicOp::SetAll,
    ]
}

fn compare_ops() -> [CompareOp; 8] {
    [
        CompareOp::Never,
        CompareOp::Less,
        CompareOp::Equal,
        CompareOp::Lequal,
        CompareOp::Greater,
        CompareOp::NotEqual,
        CompareOp::Gequal,
        CompareOp::Always,
    ]
}

#[test]
fn color_defaults() {
    let state = ColorState::new();
    assert_eq!(state.get_blend_enable_mask(), 0);
    for id in 0..8 {
        assert!(!state.get_blend_enable(id));
    }
    assert_eq!(state.get_logic_op(), LogicOp::Copy);
    assert_eq!(state.get_alpha_compare_op(), CompareOp::Always);
}

#[test]
fn color_default_word() {
    assert_eq!(ColorState::new().to_bits(), 0x0008_0300);
}

#[test]
fn color_blend_enable_reads_back() {
    for id in 0..8u32 {
        let mut state = ColorState::new();
        state.set_blend_enable(id, true);
        assert!(state.get_blend_enable(id));
        assert_eq!(state.get_blend_enable_mask(), 1 << id);
        for other in 0..8u32 {
            assert_eq!(state.get_blend_enable(other), other == id);
        }
        state.set_blend_enable(id, false);
        assert!(!state.get_blend_enable(id));
        assert_eq!(state.get_blend_enable_mask(), 0);
    }
}

#[test]
fn color_blend_enable_leaves_other_targets() {
    let mut state = ColorState::new();
    state.set_blend_enable_mask(0b1010_0101);
    state.set_blend_enable(1, true);
    assert_eq!(state.get_blend_enable_mask(), 0b1010_0111);
    state.set_blend_enable(7, false);
    assert_eq!(state.get_blend_enable_mask(), 0b0010_0111);
    state.set_blend_enable(0, true);
    assert_eq!(state.get_blend_enable_mask(), 0b0010_0111);
    state.set_blend_enable(3, false);
    assert_eq!(state.get_blend_enable_mask(), 0b0010_0111);
    assert_eq!(state.get_logic_op(), LogicOp::Copy);
    assert_eq!(state.get_alpha_compare_op(), CompareOp::Always);
}

#[test]
fn color_blend_enable_of_no_render_target_changes_nothing() {
    for id in 8..32u32 {
        let mut state = ColorState::new();
        state.set_blend_enable_mask(0x5A).set_logic_op(LogicOp::Xor);
        let before = state;
        state.set_blend_enable(id, true);
        assert_eq!(state, before);
        assert!(!state.get_blend_enable(id));
        state.set_blend_enable(id, false);
        assert_eq!(state, before);
    }
}

#[test]
fn color_blend_enable_mask_reads_back() {
    for mask in 0..=255u8 {
        let mut state = ColorState::new();
        state.set_blend_enable_mask(mask);
        assert_eq!(state.get_blend_enable_mask(), mask);
        assert_eq!(state.to_bits(), 0x0008_0300 | mask as u32);
        for id in 0..8u32 {
            assert_eq!(state.get_blend_enable(id), mask >> id & 1 == 1);
        }
    }
}

#[test]
fn color_logic_op_reads_back() {
    for op in logic_ops() {
        let mut state = ColorState::new();
        state.set_logic_op(op);
        assert_eq!(state.get_logic_op(), op);
        assert_eq!(state.get_alpha_compare_op(), CompareOp::Always);
        assert_eq!(state.to_bits(), op.to_raw() << 8 | 8 << 16);
    }
}

#[test]
fn color_alpha_compare_op_reads_back() {
    for op in compare_ops() {
        let mut state = ColorState::new();
        state.set_alpha_compare_op(op);
        assert_eq!(state.get_alpha_compare_op(), op);
        assert_eq!(state.get_logic_op(), LogicOp::Copy);
        assert_eq!(state.to_bits(), 3 << 8 | op.to_raw() << 16);
    }
}

#[test]
fn color_word_follows_the_layout() {
    for logic_op in logic_ops() {
        for compare_op in compare_ops() {
            for mask in [0u8, 1, 0x80, 0xA5, 0xFF] {
                let mut state = ColorState::new();
                state.set_alpha_compare_op(compare_op).set_blend_enable_mask(mask).set_logic_op(logic_op);
                assert_eq!(
                    state.to_bits(),
                    mask as u32 | logic_op.to_raw() << 8 | compare_op.to_raw() << 16
                );
                assert_eq!(state.get_blend_enable_mask(), mask);
                assert_eq!(state.get_logic_op(), logic_op);
                assert_eq!(state.get_alpha_compare_op(), compare_op);
            }
        }
    }
}

#[test]
fn color_write_default_lets_everything_through() {
    assert_eq!(ColorWriteState::new().to_bits(), 0xFFFF_FFFF);
}

#[test]
fn color_write_mask_sits_in_its_four_bits() {
    for id in 0..8u32 {
        for mask in 0..16u32 {
            let mut state = ColorWriteState::new();
            state.set_mask(id, mask);
            let word = state.to_bits();
            assert_eq!(word >> (4 * id) & 0xF, mask);
            assert_eq!(word | 0xF << (4 * id), 0xFFFF_FFFF);
        }
    }
}

#[test]
fn color_write_mask_keeps_four_bits() {
    let mut state = ColorWriteState::new();
    state.set_mask(2, 0xFFFF_FFF3);
    assert_eq!(state.to_bits(), 0xFFFF_F3FF);
    state.set_mask(7, 0x10);
    assert_eq!(state.to_bits(), 0x0FFF_F3FF);
    state.set_mask(0, 0x25);
    assert_eq!(state.to_bits(), 0x0FFF_F3F5);
}

#[test]
fn color_write_masks_of_color_masks() {
    let mut state = ColorWriteState::new();
    state
        .set_mask(0, ColorMask::rgb().bits())
        .set_mask(1, ColorMask::a().bits())
        .set_mask(2, ColorMask::empty().bits())
        .set_mask(3, ColorMask::r().union(ColorMask::b()).bits());
    assert_eq!(state.to_bits(), 0xFFFF_5087);
    state.set_mask(1, ColorMask::rgba().bits());
    assert_eq!(state.to_bits(), 0xFFFF_50F7);
}

#[test]
fn color_write_setting_all_masks() {
    let mut state = ColorWriteState::new();
    for id in 0..8u32 {
        state.set_mask(id, id + 1);
    }
    assert_eq!(state.to_bits(), 0x8765_4321);
    for id in 0..8u32 {
        state.set_mask(7 - id, 0);
    }
    assert_eq!(state.to_bits(), 0);
}
