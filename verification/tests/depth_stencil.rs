use deko3d::{CompareOp, DepthStencilState, StencilOp};

fn stencil_ops() -> [StencilOp; 8] {
    [
        StencilOp::Keep,
        StencilOp::Zero,
        StencilOp::Replace,
        StencilOp::Incr,
        StencilOp::Decr,
        StencilOp::Invert,
        StencilOp::IncrWrap,
        StencilOp::DecrWrap,
    ]
}

fn depth_compare_ops() -> [CompareOp; 8] {
    [
        CompareOp::Never,
        CompareOp::Less,
        CompareOp::Equal,
        CompareOp::Lequal,
        CompareOp::Greater,
        CompareOp::NotEqual,
        CompareOp::Gequal,
        CompareOp::Always,
    ]
}

/// The fields that the two words hold, in the order of the layout.
fn depth_stencil_fields(words: (u32, u32)) -> [u32; 12] {
    [
        words.0 & 1,
        words.0 >> 1 & 1,
        words.0 >> 2 & 1,
        words.0 >> 3 & 0xF,
        words.0 >> 7 & 0xF,
        words.0 >> 11 & 0xF,
        words.0 >> 15 & 0xF,
        words.0 >> 19 & 0xF,
        words.0 >> 23 & 0xF,
        words.0 >> 27 & 0xF,
        words.1 & 0xF,
        words.1 >> 4 & 0xF,
    ]
}

const DEFAULT_FIELDS: [u32; 12] = [1, 1, 0, 2, 1, 3, 1, 8, 1, 3, 1, 8];

fn with_field(index: usize, value: u32) -> [u32; 12] {
    let mut fields = DEFAULT_FIELDS;
    fields[index] = value;
    fields
}

#[test]
fn depth_stencil_default_words() {
    assert_eq!(DepthStencilState::new().to_words(), (0x18C0_9893, 0x81));
}

#[test]
fn depth_stencil_defaults() {
    let fields = depth_stencil_fields(DepthStencilState::new().to_words());
    assert_eq!(fields, DEFAULT_FIELDS);
    assert_eq!(fields[3], CompareOp::Less.to_raw());
    assert_eq!(fields[4], StencilOp::Keep.to_raw());
    assert_eq!(fields[5], StencilOp::Replace.to_raw());
    assert_eq!(fields[6], StencilOp::Keep.to_raw());
    assert_eq!(fields[7], CompareOp::Always.to_raw());
    assert_eq!(fields[8], StencilOp::Keep.to_raw());
    assert_eq!(fields[9], StencilOp::Replace.to_raw());
    assert_eq!(fields[10], StencilOp::Keep.to_raw());
    assert_eq!(fields[11], CompareOp::Always.to_raw());
}

#[test]
fn depth_stencil_switches_read_back() {
    for enable in [false, true] {
        let mut state = DepthStencilState::new();
        state.set_depth_test_enable(enable);
        assert_eq!(depth_stencil_fields(state.to_words()), with_field(0, enable as u32));
        let mut state = DepthStencilState::new();
        state.set_depth_write_enable(enable);
        assert_eq!(depth_stencil_fields(state.to_words()), with_field(1, enable as u32));
        let mut state = DepthStencilState::new();
        state.set_stencil_test_enable(enable);
        assert_eq!(depth_stencil_fields(state.to_words()), with_field(2, enable as u32));
    }
}

#[test]
fn depth_stencil_compare_ops_read_back() {
    for op in depth_compare_ops() {
        let mut state = DepthStencilState::new();
        state.set_depth_compare_op(op);
        assert_eq!(depth_stencil_fields(state.to_words()), with_field(3, op.to_raw()));
        let mut state = DepthStencilState::new();
        state.set_stencil_front_compare_op(op);
        assert_eq!(depth_stencil_fields(state.to_words()), with_field(7, op.to_raw()));
        let mut state = DepthStencilState::new();
        state.set_stencil_back_compare_op(op);
        assert_eq!(depth_stencil_fields(state.to_words()), with_field(11, op.to_raw()));
    }
}

#[test]
fn depth_stencil_front_ops_read_back() {
    for op in stencil_ops() {
        let mut state = DepthStencilState::new();
        state.set_stencil_front_fail_op(op);
        assert_eq!(depth_stencil_fields(state.to_words()), with_field(4, op.to_raw()));
        let mut state = DepthStencilState::new();
        state.set_stencil_front_pass_op(op);
        assert_eq!(depth_stencil_fields(state.to_words()), with_field(5, op.to_raw()));
        let mut state = DepthStencilState::new();
        state.set_stencil_front_depth_fail_op(op);
        assert_eq!(depth_stencil_fields(state.to_words()), with_field(6, op.to_raw()));
    }
}

#[test]
fn depth_stencil_back_ops_read_back() {
    for op in stencil_ops() {
        let mut state = DepthStencilState::new();
        state.set_stencil_back_fail_op(op);
        assert_eq!(depth_stencil_fields(state.to_words()), with_field(8, op.to_raw()));
        let mut state = DepthStencilState::new();
        state.set_stencil_back_pass_op(op);
        assert_eq!(depth_stencil_fields(state.to_words()), with_field(9, op.to_raw()));
        let mut state = DepthStencilState::new();
        state.set_stencil_back_depth_fail_op(op);
        assert_eq!(depth_stencil_fields(state.to_words()), with_field(10, op.to_raw()));
    }
}

#[test]
fn depth_stencil_every_field_set() {
    let mut state = DepthStencilState::new();
    state
        .set_depth_test_enable(false)
        .set_depth_write_enable(false)
        .set_stencil_test_enable(true)
        .set_depth_compare_op(CompareOp::Gequal)
        .set_stencil_front_fail_op(StencilOp::Zero)
        .set_stencil_front_pass_op(StencilOp::Incr)
        .set_stencil_front_depth_fail_op(StencilOp::Decr)
        .set_stencil_front_compare_op(CompareOp::NotEqual)
        .set_stencil_back_fail_op(StencilOp::Invert)
        .set_stencil_back_pass_op(StencilOp::IncrWrap)
        .set_stencil_back_depth_fail_op(StencilOp::DecrWrap)
        .set_stencil_back_compare_op(CompareOp::Never);
    assert_eq!(depth_stencil_fields(state.to_words()), [0, 0, 1, 7, 2, 4, 5, 6, 6, 7, 8, 1]);
    assert_eq!(state.to_words(), (0x3B32_A13C, 0x18));
}

#[test]
fn depth_stencil_unused_bits_stay_zero() {
    for op in stencil_ops() {
        for compare in depth_compare_ops() {
            let mut state = DepthStencilState::new();
            state
                .set_stencil_back_pass_op(op)
                .set_stencil_back_depth_fail_op(op)
                .set_stencil_back_compare_op(compare)
                .set_depth_compare_op(compare);
            let words = state.to_words();
            assert_eq!(words.0 >> 31, 0);
            assert_eq!(words.1 >> 8, 0);
            let mut fields = DEFAULT_FIELDS;
            fields[3] = compare.to_raw();
            fields[9] = op.to_raw();
            fields[10] = op.to_raw();
            fields[11] = compare.to_raw();
            assert_eq!(depth_stencil_fields(words), fields);
        }
    }
}
