use deko3d::{VtxAttribSize, VtxAttribState, VtxAttribType, VtxBufferState};

fn attrib_sizes() -> [VtxAttribSize; 14] {
    [
        VtxAttribSize::_1x32,
        VtxAttribSize::_2x32,
        VtxAttribSize::_3x32,
        VtxAttribSize::_4x32,
        VtxAttribSize::_1x16,
        VtxAttribSize::_2x16,
        VtxAttribSize::_3x16,
        VtxAttribSize::_4x16,
        VtxAttribSize::_1x8,
        VtxAttribSize::_2x8,
        VtxAttribSize::_3x8,
        VtxAttribSize::_4x8,
        VtxAttribSize::_10_10_10_2,
        VtxAttribSize::_11_11_10,
    ]
}

fn attrib_types() -> [VtxAttribType; 8] {
    [
        VtxAttribType::NoType,
        VtxAttribType::Snorm,
        VtxAttribType::Unorm,
        VtxAttribType::Sint,
        VtxAttribType::Uint,
        VtxAttribType::Uscaled,
        VtxAttribType::Sscaled,
        VtxAttribType::Float,
    ]
}

#[test]
fn vtx_attrib_defaults() {
    let state = VtxAttribState::new();
    assert_eq!(state.to_bits(), 0);
    assert_eq!(state.get_buffer_id(), 0);
    assert!(!state.get_is_fixed());
    assert_eq!(state.get_offset(), 0);
    assert_eq!(state.get_type(), VtxAttribType::NoType);
    assert!(!state.get_is_bgra());
}

#[test]
fn vtx_attrib_buffer_id_reads_back() {
    for buffer_id in 0..32u8 {
        let mut state = VtxAttribState::new();
        state.set_buffer_id(buffer_id);
        assert_eq!(state.get_buffer_id(), buffer_id);
        assert_eq!(state.to_bits(), buffer_id as u32);
    }
}

#[test]
fn vtx_attrib_buffer_id_keeps_five_bits() {
    let mut state = VtxAttribState::new();
    state.set_buffer_id(32);
    assert_eq!(state.get_buffer_id(), 0);
    assert_eq!(state.to_bits(), 0);
    state.set_buffer_id(0xFF);
    assert_eq!(state.get_buffer_id(), 31);
    assert_eq!(state.to_bits(), 31);
    state.set_buffer_id(0x25);
    assert_eq!(state.get_buffer_id(), 5);
}

#[test]
fn vtx_attrib_switches_read_back() {
    for on in [false, true] {
        let mut state = VtxAttribState::new();
        state.set_is_fixed(on);
        assert_eq!(state.get_is_fixed(), on);
        assert_eq!(state.to_bits(), (on as u32) << 6);
        let mut state = VtxAttribState::new();
        state.set_is_bgra(on);
        assert_eq!(state.get_is_bgra(), on);
        assert_eq!(state.to_bits(), (on as u32) << 31);
    }
}

#[test]
fn vtx_attrib_offset_reads_back() {
    for offset in [0u16, 1, 2, 12, 0xFF, 0x100, 0x1234, 0x2000, 0x3FFE, 0x3FFF] {
        let mut state = VtxAttribState::new();
        state.set_offset(offset);
        assert_eq!(state.get_offset(), offset);
        assert_eq!(state.to_bits(), (offset as u32) << 7);
    }
}

#[test]
fn vtx_attrib_offset_keeps_fourteen_bits() {
    let mut state = VtxAttribState::new();
    state.set_offset(0x4000);
    assert_eq!(state.get_offset(), 0);
    state.set_offset(0xFFFF);
    assert_eq!(state.get_offset(), 0x3FFF);
    assert_eq!(state.to_bits(), 0x3FFF << 7);
    state.set_offset(0x8001);
    assert_eq!(state.get_offset(), 1);
    assert!(!state.get_is_fixed());
    assert_eq!(state.get_buffer_id(), 0);
}

#[test]
fn vtx_attrib_size_reads_back() {
    for size in attrib_sizes() {
        let mut state = VtxAttribState::new();
        state.set_size(size);
        assert_eq!(state.get_size(), size);
        assert_eq!(state.to_bits(), size.to_raw() << 21);
    }
}

#[test]
fn vtx_attrib_type_reads_back() {
    for attrib_type in attrib_types() {
        let mut state = VtxAttribState::new();
        state.set_type(attrib_type);
        assert_eq!(state.get_type(), attrib_type);
        assert_eq!(state.to_bits(), attrib_type.to_raw() << 27);
    }
}

#[test]
fn vtx_attrib_setters_leave_other_fields() {
    let mut state = VtxAttribState::new();
    state
        .set_buffer_id(3)
        .set_is_fixed(true)
        .set_offset(24)
        .set_size(VtxAttribSize::_3x32)
        .set_type(VtxAttribType::Float)
        .set_is_bgra(true);
    assert_eq!(state.to_bits(), 3 | 1 << 6 | 24 << 7 | 0x02 << 21 | 7 << 27 | 1 << 31);
    assert_eq!(state.to_bits(), 0xB840_0C43);
    state.set_offset(0);
    assert_eq!(state.get_buffer_id(), 3);
    assert!(state.get_is_fixed());
    assert_eq!(state.get_offset(), 0);
    assert_eq!(state.get_size(), VtxAttribSize::_3x32);
    assert_eq!(state.get_type(), VtxAttribType::Float);
    assert!(state.get_is_bgra());
    assert_eq!(state.to_bits(), 0xB840_0043);
}

#[test]
fn vtx_attrib_word_follows_the_layout() {
    for size in attrib_sizes() {
        for attrib_type in attrib_types() {
            for bits in 0..4u32 {
                let buffer_id = (size.to_raw() % 32) as u8;
                let offset = (attrib_type.to_raw() * 0x777 + bits) as u16;
                let mut state = VtxAttribState::new();
                state
                    .set_is_bgra(bits & 1 != 0)
                    .set_type(attrib_type)
                    .set_size(size)
                    .set_offset(offset)
                    .set_is_fixed(bits & 2 != 0)
                    .set_buffer_id(buffer_id);
                let word = buffer_id as u32
                    | (bits >> 1) << 6
                    | (offset as u32) << 7
                    | size.to_raw() << 21
                    | attrib_type.to_raw() << 27
                    | (bits & 1) << 31;
                assert_eq!(state.to_bits(), word);
                assert_eq!(word & (1 << 5 | 1 << 30), 0);
                assert_eq!(state.get_buffer_id(), buffer_id);
                assert_eq!(state.get_offset(), offset);
                assert_eq!(state.get_size(), size);
                assert_eq!(state.get_type(), attrib_type);
            }
        }
    }
}

#[test]
fn vtx_buffer_defaults() {
    let state = VtxBufferState::new();
    assert_eq!(state.stride, 0);
    assert_eq!(state.divisor, 0);
    assert_eq!(state, VtxBufferState { stride: 0, divisor: 0 });
}

#[test]
fn vtx_buffer_fields_read_back() {
    let mut state = VtxBufferState::new();
    state.stride = 32;
    assert_eq!(state, VtxBufferState { stride: 32, divisor: 0 });
    state.divisor = 1;
    assert_eq!(state, VtxBufferState { stride: 32, divisor: 1 });
    for value in [0u32, 1, 0x10, 0xFFFF_FFFF] {
        let mut state = VtxBufferState::new();
        state.stride = value;
        assert_eq!(state.stride, value);
        assert_eq!(state.divisor, 0);
        let mut state = VtxBufferState::new();
        state.divisor = value;
        assert_eq!(state.divisor, value);
        assert_eq!(state.stride, 0);
    }
}
