//! The multisample state: how many samples a pixel has and what becomes of their coverage.

use crate::bits::{bit_of, extract, flag_bit, get_field, lemma_fields, set_field};
use vstd::pervasive::unreached;
use vstd::prelude::*;

verus! {

/// The number of samples of a pixel.
#[derive(Debug, Copy, Clone, PartialEq, Eq, Hash, Structural)]
pub enum MsMode {
    Ms1x,
    Ms2x,
    Ms4x,
    Ms8x,
}

impl MsMode {
    /// The number that stands for this value in driver structures and command streams.
    pub open spec fn raw(self) -> u32 {
        match self {
            MsMode::Ms1x => 0,
            MsMode::Ms2x => 1,
            MsMode::Ms4x => 2,
            MsMode::Ms8x => 3,
        }
    }

    /// Whether `code` is the number of some value of this type.
    pub open spec fn is_raw(code: u32) -> bool {
        code <= 3
    }

    /// The value whose number is `code`; it means nothing where `code` is no such number.
    pub open spec fn of_raw(code: u32) -> MsMode {
        match code {
            0 => MsMode::Ms1x,
            1 => MsMode::Ms2x,
            2 => MsMode::Ms4x,
            3 => MsMode::Ms8x,
            _ => arbitrary(),
        }
    }

    pub fn to_raw(self) -> (code: u32)
        ensures
            code == self.raw(),
            MsMode::is_raw(code),
            MsMode::of_raw(code) == self,
    {
        match self {
            MsMode::Ms1x => 0,
            MsMode::Ms2x => 1,
            MsMode::Ms4x => 2,
            MsMode::Ms8x => 3,
        }
    }

    pub fn is_valid_raw(code: u32) -> (valid: bool)
        ensures
            valid == MsMode::is_raw(code),
    {
        code <= 3
    }

    /// Reads a number handed back by the driver. Numbers that stand for no value are
    /// left to the caller, who can tell them apart with `is_valid_raw`.
    pub fn from(code: u32) -> (value: MsMode)
        requires
            MsMode::is_raw(code),
        ensures
            value == MsMode::of_raw(code),
            value.raw() == code,
    {
        match code {
            0 => MsMode::Ms1x,
            1 => MsMode::Ms2x,
            2 => MsMode::Ms4x,
            3 => MsMode::Ms8x,
            _ => unreached(),
        }
    }
}

/// The color components that the coverage of a pixel scales.
#[derive(Debug, Copy, Clone, PartialEq, Eq, Hash, Structural)]
pub enum CoverageModulation {
    NoModulation,
    Rgb,
    Alpha,
    Rgba,
}

impl CoverageModulation {
    /// The number that stands for this value in driver structures and command streams.
    pub open spec fn raw(self) -> u32 {
        match self {
            CoverageModulation::NoModulation => 0,
            CoverageModulation::Rgb => 1,
            CoverageModulation::Alpha => 2,
            CoverageModulation::Rgba => 3,
        }
    }

    /// Whether `code` is the number of some value of this type.
    pub open spec fn is_raw(code: u32) -> bool {
        code <= 3
    }

    /// The value whose number is `code`; it means nothing where `code` is no such number.
    pub open spec fn of_raw(code: u32) -> CoverageModulation {
        match code {
            0 => CoverageModulation::NoModulation,
            1 => CoverageModulation::Rgb,
            2 => CoverageModulation::Alpha,
            3 => CoverageModulation::Rgba,
            _ => arbitrary(),
        }
    }

    pub fn to_raw(self) -> (code: u32)
        ensures
            code == self.raw(),
            CoverageModulation::is_raw(code),
            CoverageModulation::of_raw(code) == self,
    {
        match self {
            CoverageModulation::NoModulation => 0,
            CoverageModulation::Rgb => 1,
            CoverageModulation::Alpha => 2,
            CoverageModulation::Rgba => 3,
        }
    }

    pub fn is_valid_raw(code: u32) -> (valid: bool)
        ensures
            valid == CoverageModulation::is_raw(code),
    {
        code <= 3
    }

    /// Reads a number handed back by the driver. Numbers that stand for no value are
    /// left to the caller, who can tell them apart with `is_valid_raw`.
    pub fn from(code: u32) -> (value: CoverageModulation)
        requires
            CoverageModulation::is_raw(code),
        ensures
            value == CoverageModulation::of_raw(code),
            value.raw() == code,
    {
        match code {
            0 => CoverageModulation::NoModulation,
            1 => CoverageModulation::Rgb,
            2 => CoverageModulation::Alpha,
            3 => CoverageModulation::Rgba,
            _ => unreached(),
        }
    }
}

/// The fields of a multisample state.
pub struct MultisampleStateView {
    /// Samples of each pixel of the render targets.
    pub mode: MsMode,
    /// Samples that the rasterizer covers in each pixel.
    pub rasterizer_mode: MsMode,
    pub alpha_to_coverage_enable: bool,
    pub alpha_to_coverage_dither: bool,
    pub coverage_to_color_enable: bool,
    /// The render target that receives the coverage, 0 to 7.
    pub coverage_to_color_output: u32,
    pub coverage_modulation: CoverageModulation,
    /// The sample locations, sixteen of them in four words, in the form the hardware reads.
    pub sample_locations: Seq<u32>,
}

impl MultisampleStateView {
    /// The state of the hardware after a reset: one sample per pixel, alpha-to-coverage off
    /// but dithered, no coverage output, and every sample at the centre of its pixel.
    pub open spec fn defaults() -> MultisampleStateView {
        MultisampleStateView {
            mode: MsMode::Ms1x,
            rasterizer_mode: MsMode::Ms1x,
            alpha_to_coverage_enable: false,
            alpha_to_coverage_dither: true,
            coverage_to_color_enable: false,
            coverage_to_color_output: 0,
            coverage_modulation: CoverageModulation::NoModulation,
            sample_locations: seq![0x8888_8888u32, 0x8888_8888u32, 0x8888_8888u32, 0x8888_8888u32],
        }
    }

    /// The output fits its three bits and there are four words of sample locations.
    pub open spec fn is_legal(self) -> bool {
        &&& self.coverage_to_color_output <= 7
        &&& self.sample_locations.len() == 4
    }
}

/// Fixed-function configuration of multisampling: one packed word and the sample
/// locations.
///
/// | bits  | field                    |
/// |-------|--------------------------|
/// | 0-1   | mode                     |
/// | 2-3   | rasterizer mode          |
/// | 4     | alpha to coverage enable |
/// | 5     | alpha to coverage dither |
/// | 6     | coverage to color enable |
/// | 7-9   | coverage to color output |
/// | 10-11 | coverage modulation      |
/// | 12-31 | zero                     |
#[derive(Debug, Copy, Clone, PartialEq, Eq, Hash)]
pub struct MultisampleState {
    bits: u32,
    sample_locations: [u32; 4],
}

impl View for MultisampleState {
    type V = MultisampleStateView;

    closed spec fn view(&self) -> MultisampleStateView {
        MultisampleState::unpack(self.bits, self.sample_locations@)
    }
}

impl MultisampleState {
    /// The word made of the field values, each at its place.
    pub open spec fn pack_fields(
        mode: u32,
        rasterizer_mode: u32,
        alpha_to_coverage_enable: u32,
        alpha_to_coverage_dither: u32,
        coverage_to_color_enable: u32,
        coverage_to_color_output: u32,
        coverage_modulation: u32,
    ) -> u32 {
        mode | (rasterizer_mode << 2u32) | (alpha_to_coverage_enable << 4u32)
            | (alpha_to_coverage_dither << 5u32) | (coverage_to_color_enable << 6u32)
            | (coverage_to_color_output << 7u32) | (coverage_modulation << 10u32)
    }

    /// The word that holds the state `view`.
    pub open spec fn pack(view: MultisampleStateView) -> u32 {
        MultisampleState::pack_fields(
            view.mode.raw(),
            view.rasterizer_mode.raw(),
            flag_bit(view.alpha_to_coverage_enable),
            flag_bit(view.alpha_to_coverage_dither),
            flag_bit(view.coverage_to_color_enable),
            view.coverage_to_color_output,
            view.coverage_modulation.raw(),
        )
    }

    /// The state that the word holds.
    pub open spec fn unpack(bits: u32, sample_locations: Seq<u32>) -> MultisampleStateView {
        MultisampleStateView {
            mode: MsMode::of_raw(extract(bits, 0, 2)),
            rasterizer_mode: MsMode::of_raw(extract(bits, 2, 2)),
            alpha_to_coverage_enable: extract(bits, 4, 1) != 0,
            alpha_to_coverage_dither: extract(bits, 5, 1) != 0,
            coverage_to_color_enable: extract(bits, 6, 1) != 0,
            coverage_to_color_output: extract(bits, 7, 3),
            coverage_modulation: CoverageModulation::of_raw(extract(bits, 10, 2)),
            sample_locations,
        }
    }

    /// The words that hold a state: the bits above the fields are zero.
    pub open spec fn is_packed(bits: u32) -> bool {
        extract(bits, 12, 20) == 0
    }

    #[verifier::type_invariant]
    spec fn well_formed(&self) -> bool {
        MultisampleState::is_packed(self.bits)
    }

    proof fn lemma_fields_of_pack(
        word: u32,
        a0: u32,
        a1: u32,
        a2: u32,
        a3: u32,
        a4: u32,
        a5: u32,
        a6: u32,
    )
        by (bit_vector)
        requires
            word == MultisampleState::pack_fields(a0, a1, a2, a3, a4, a5, a6),
            a0 <= 3,
            a1 <= 3,
            a2 <= 1,
            a3 <= 1,
            a4 <= 1,
            a5 <= 7,
            a6 <= 3,
        ensures
            extract(word, 0, 2) == a0,
            extract(word, 2, 2) == a1,
            extract(word, 4, 1) == a2,
            extract(word, 5, 1) == a3,
            extract(word, 6, 1) == a4,
            extract(word, 7, 3) == a5,
            extract(word, 10, 2) == a6,
            extract(word, 12, 20) == 0,
            MultisampleState::pack_fields(0, 0, 0, 1, 0, 0, 0) == 0x20,
    {
    }

    proof fn lemma_pack_of_fields(bits: u32)
        by (bit_vector)
        requires
            extract(bits, 12, 20) == 0,
        ensures
            MultisampleState::pack_fields(
                extract(bits, 0, 2),
                extract(bits, 2, 2),
                extract(bits, 4, 1),
                extract(bits, 5, 1),
                extract(bits, 6, 1),
                extract(bits, 7, 3),
                extract(bits, 10, 2),
            ) == bits,
    {
    }

    /// What is read back from the packed word after the state `view` was put there.
    pub open spec fn read_back(view: MultisampleStateView) -> MultisampleStateView {
        MultisampleState::unpack(MultisampleState::pack(view), view.sample_locations)
    }

    /// Packing a legal state and unpacking the word gives the state back: every field holds
    /// every value of its domain, whatever the other fields hold. The word is one that holds
    /// a state.
    pub proof fn lemma_unpack_pack(view: MultisampleStateView)
        requires
            view.is_legal(),
        ensures
            MultisampleState::read_back(view) == view,
            MultisampleState::is_packed(MultisampleState::pack(view)),
    {
        MultisampleState::lemma_fields_of_pack(
            MultisampleState::pack(view),
            view.mode.raw(),
            view.rasterizer_mode.raw(),
            flag_bit(view.alpha_to_coverage_enable),
            flag_bit(view.alpha_to_coverage_dither),
            flag_bit(view.coverage_to_color_enable),
            view.coverage_to_color_output,
            view.coverage_modulation.raw(),
        );
    }

    /// Unpacking a word that holds a state and packing the state gives the word back: a
    /// state has one packed form.
    pub proof fn lemma_pack_unpack(bits: u32, sample_locations: Seq<u32>)
        requires
            MultisampleState::is_packed(bits),
        ensures
            MultisampleState::pack(MultisampleState::unpack(bits, sample_locations)) == bits,
            MultisampleState::unpack(bits, sample_locations).coverage_to_color_output <= 7,
    {
        lemma_fields();
        MultisampleState::lemma_pack_of_fields(bits);
    }

    /// A field that is set on the reset state reads back as it was set. This holds of every
    /// field and of every value of its domain: here each field in turn is set to what it is
    /// in `view`.
    pub proof fn lemma_set_then_get(view: MultisampleStateView)
        requires
            view.is_legal(),
        ensures
            MultisampleState::read_back(
                MultisampleStateView { mode: view.mode, ..MultisampleStateView::defaults() },
            ).mode == view.mode,
            MultisampleState::read_back(
                MultisampleStateView {
                    rasterizer_mode: view.rasterizer_mode,
                    ..MultisampleStateView::defaults()
                },
            ).rasterizer_mode == view.rasterizer_mode,
            MultisampleState::read_back(
                MultisampleStateView {
                    alpha_to_coverage_enable: view.alpha_to_coverage_enable,
                    ..MultisampleStateView::defaults()
                },
            ).alpha_to_coverage_enable == view.alpha_to_coverage_enable,
            MultisampleState::read_back(
                MultisampleStateView {
                    alpha_to_coverage_dither: view.alpha_to_coverage_dither,
                    ..MultisampleStateView::defaults()
                },
            ).alpha_to_coverage_dither == view.alpha_to_coverage_dither,
            MultisampleState::read_back(
                MultisampleStateView {
                    coverage_to_color_enable: view.coverage_to_color_enable,
                    ..MultisampleStateView::defaults()
                },
            ).coverage_to_color_enable == view.coverage_to_color_enable,
            MultisampleState::read_back(
                MultisampleStateView {
                    coverage_to_color_output: view.coverage_to_color_output,
                    ..MultisampleStateView::defaults()
                },
            ).coverage_to_color_output == view.coverage_to_color_output,
            MultisampleState::read_back(
                MultisampleStateView {
                    coverage_modulation: view.coverage_modulation,
                    ..MultisampleStateView::defaults()
                },
            ).coverage_modulation == view.coverage_modulation,
    {
        MultisampleState::lemma_unpack_pack(
            MultisampleStateView { mode: view.mode, ..MultisampleStateView::defaults() },
        );
        MultisampleState::lemma_unpack_pack(
            MultisampleStateView {
                rasterizer_mode: view.rasterizer_mode,
                ..MultisampleStateView::defaults()
            },
        );
        MultisampleState::lemma_unpack_pack(
            MultisampleStateView {
                alpha_to_coverage_enable: view.alpha_to_coverage_enable,
                ..MultisampleStateView::defaults()
            },
        );
        MultisampleState::lemma_unpack_pack(
            MultisampleStateView {
                alpha_to_coverage_dither: view.alpha_to_coverage_dither,
                ..MultisampleStateView::defaults()
            },
        );
        MultisampleState::lemma_unpack_pack(
            MultisampleStateView {
                coverage_to_color_enable: view.coverage_to_color_enable,
                ..MultisampleStateView::defaults()
            },
        );
        MultisampleState::lemma_unpack_pack(
            MultisampleStateView {
                coverage_to_color_output: view.coverage_to_color_output,
                ..MultisampleStateView::defaults()
            },
        );
        MultisampleState::lemma_unpack_pack(
            MultisampleStateView {
                coverage_modulation: view.coverage_modulation,
                ..MultisampleStateView::defaults()
            },
        );
    }

    /// The state of the hardware after a reset.
    pub fn new() -> (state: MultisampleState)
        ensures
            state@ == MultisampleStateView::defaults(),
    {
        let sample_locations: [u32; 4] = [0x8888_8888, 0x8888_8888, 0x8888_8888, 0x8888_8888];
        proof {
            MultisampleState::lemma_fields_of_pack(
                MultisampleState::pack_fields(0, 0, 0, 1, 0, 0, 0),
                0,
                0,
                0,
                1,
                0,
                0,
                0,
            );
            assert(sample_locations@ =~= MultisampleStateView::defaults().sample_locations);
        }
        MultisampleState { bits: 0x20, sample_locations }
    }

    /// The packed word, as it is bound into a command stream.
    pub fn to_bits(&self) -> (bits: u32)
        ensures
            bits == MultisampleState::pack(self@),
            MultisampleState::unpack(bits, self@.sample_locations) == self@,
            MultisampleState::is_packed(bits),
    {
        proof {
            use_type_invariant(self);
            MultisampleState::lemma_pack_unpack(self.bits, self.sample_locations@);
        }
        self.bits
    }

    /// The four words of sample locations, as they are bound into a command stream.
    pub fn locations(&self) -> (words: [u32; 4])
        ensures
            words@ == self@.sample_locations,
    {
        self.sample_locations
    }

    /// Takes the sample locations in the form the hardware reads: sixteen locations in four
    /// words.
    pub fn set_locations(&mut self, words: [u32; 4]) -> (ret: &mut Self)
        ensures
            ret@ == (MultisampleStateView { sample_locations: words@, ..old(self)@ }),
            *final(self) == *final(ret),
    {
        proof {
            use_type_invariant(&*self);
        }
        self.sample_locations = words;
        self
    }


    pub fn set_mode(&mut self, mode: MsMode) -> (ret: &mut Self)
        ensures
            ret@ == (MultisampleStateView { mode, ..old(self)@ }),
            *final(self) == *final(ret),
    {
        proof {
            use_type_invariant(&*self);
            lemma_fields();
        }
        self.bits = set_field(self.bits, 0, 2, mode.to_raw());
        self
    }

    pub fn set_rasterizer_mode(&mut self, mode: MsMode) -> (ret: &mut Self)
        ensures
            ret@ == (MultisampleStateView { rasterizer_mode: mode, ..old(self)@ }),
            *final(self) == *final(ret),
    {
        proof {
            use_type_invariant(&*self);
            lemma_fields();
        }
        self.bits = set_field(self.bits, 2, 2, mode.to_raw());
        self
    }

    pub fn set_alpha_to_coverage_enable(&mut self, enable: bool) -> (ret: &mut Self)
        ensures
            ret@ == (MultisampleStateView { alpha_to_coverage_enable: enable, ..old(self)@ }),
            *final(self) == *final(ret),
    {
        proof {
            use_type_invariant(&*self);
            lemma_fields();
        }
        self.bits = set_field(self.bits, 4, 1, bit_of(enable));
        self
    }

    pub fn set_alpha_to_coverage_dither(&mut self, dither: bool) -> (ret: &mut Self)
        ensures
            ret@ == (MultisampleStateView { alpha_to_coverage_dither: dither, ..old(self)@ }),
            *final(self) == *final(ret),
    {
        proof {
            use_type_invariant(&*self);
            lemma_fields();
        }
        self.bits = set_field(self.bits, 5, 1, bit_of(dither));
        self
    }

    pub fn set_coverage_to_color_enable(&mut self, enable: bool) -> (ret: &mut Self)
        ensures
            ret@ == (MultisampleStateView { coverage_to_color_enable: enable, ..old(self)@ }),
            *final(self) == *final(ret),
    {
        proof {
            use_type_invariant(&*self);
            lemma_fields();
        }
        self.bits = set_field(self.bits, 6, 1, bit_of(enable));
        self
    }

    /// Keeps the three low bits of `output`.
    pub fn set_coverage_to_color_output(&mut self, output: u32) -> (ret: &mut Self)
        ensures
            ret@ == (MultisampleStateView { coverage_to_color_output: output & 7, ..old(self)@ }),
            output <= 7 ==> ret@.coverage_to_color_output == output,
            *final(self) == *final(ret),
    {
        proof {
            use_type_invariant(&*self);
            lemma_fields();
        }
        self.bits = set_field(self.bits, 7, 3, output);
        self
    }

    pub fn set_coverage_modulation(&mut self, modulation: CoverageModulation) -> (ret: &mut Self)
        ensures
            ret@ == (MultisampleStateView { coverage_modulation: modulation, ..old(self)@ }),
            *final(self) == *final(ret),
    {
        proof {
            use_type_invariant(&*self);
            lemma_fields();
        }
        self.bits = set_field(self.bits, 10, 2, modulation.to_raw());
        self
    }

    pub fn get_mode(&self) -> (mode: MsMode)
        ensures
            mode == self@.mode,
    {
        proof {
            lemma_fields();
        }
        MsMode::from(get_field(self.bits, 0, 2))
    }

    pub fn get_rasterizer_mode(&self) -> (mode: MsMode)
        ensures
            mode == self@.rasterizer_mode,
    {
        proof {
            lemma_fields();
        }
        MsMode::from(get_field(self.bits, 2, 2))
    }

    pub fn get_alpha_to_coverage_enable(&self) -> (enable: bool)
        ensures
            enable == self@.alpha_to_coverage_enable,
    {
        get_field(self.bits, 4, 1) != 0
    }

    pub fn get_alpha_to_coverage_dither(&self) -> (dither: bool)
        ensures
            dither == self@.alpha_to_coverage_dither,
    {
        get_field(self.bits, 5, 1) != 0
    }

    pub fn get_coverage_to_color_enable(&self) -> (enable: bool)
        ensures
            enable == self@.coverage_to_color_enable,
    {
        get_field(self.bits, 6, 1) != 0
    }

    pub fn get_coverage_to_color_output(&self) -> (output: u32)
        ensures
            output == self@.coverage_to_color_output,
            output <= 7,
    {
        proof {
            lemma_fields();
        }
        get_field(self.bits, 7, 3)
    }

    pub fn get_coverage_modulation(&self) -> (modulation: CoverageModulation)
        ensures
            modulation == self@.coverage_modulation,
    {
        proof {
            lemma_fields();
        }
        CoverageModulation::from(get_field(self.bits, 10, 2))
    }
}

} // verus!
