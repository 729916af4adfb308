//! Shaders: the stages of the pipeline, and the configuration from which a shader is made.

use vstd::pervasive::unreached;
use vstd::prelude::*;

verus! {

/// A programmable stage of the pipeline.
#[derive(Debug, Copy, Clone, PartialEq, Eq, Hash, Structural)]
pub enum Stage {
    Vertex,
    TessCtrl,
    TessEval,
    Geometry,
    Fragment,
    Compute,
}

impl Stage {
    /// The number that stands for this value in driver structures and command streams.
    pub open spec fn raw(self) -> u32 {
        match self {
            Stage::Vertex => 0,
            Stage::TessCtrl => 1,
            Stage::TessEval => 2,
            Stage::Geometry => 3,
            Stage::Fragment => 4,
            Stage::Compute => 5,
        }
    }

    /// Whether `code` is the number of some value of this type.
    pub open spec fn is_raw(code: u32) -> bool {
        code <= 5
    }

    /// The value whose number is `code`; it means nothing where `code` is no such number.
    pub open spec fn of_raw(code: u32) -> Stage {
        match code {
            0 => Stage::Vertex,
            1 => Stage::TessCtrl,
            2 => Stage::TessEval,
            3 => Stage::Geometry,
            4 => Stage::Fragment,
            5 => Stage::Compute,
            _ => arbitrary(),
        }
    }

    pub fn to_raw(self) -> (code: u32)
        ensures
            code == self.raw(),
            Stage::is_raw(code),
            Stage::of_raw(code) == self,
    {
        match self {
            Stage::Vertex => 0,
            Stage::TessCtrl => 1,
            Stage::TessEval => 2,
            Stage::Geometry => 3,
            Stage::Fragment => 4,
            Stage::Compute => 5,
        }
    }

    pub fn is_valid_raw(code: u32) -> (valid: bool)
        ensures
            valid == Stage::is_raw(code),
    {
        code <= 5
    }

    /// Reads a number handed back by the driver. Numbers that stand for no value are
    /// left to the caller, who can tell them apart with `is_valid_raw`.
    pub fn from(code: u32) -> (value: Stage)
        requires
            Stage::is_raw(code),
        ensures
            value == Stage::of_raw(code),
            value.raw() == code,
    {
        match code {
            0 => Stage::Vertex,
            1 => Stage::TessCtrl,
            2 => Stage::TessEval,
            3 => Stage::Geometry,
            4 => Stage::Fragment,
            5 => Stage::Compute,
            _ => unreached(),
        }
    }
}

/// A stage as one bit of a mask, or all graphics stages together.
#[derive(Debug, Copy, Clone, PartialEq, Eq, Hash, Structural)]
pub enum StageFlag {
    Vertex,
    TessCtrl,
    TessEval,
    Geometry,
    Fragment,
    Compute,
    /// The five graphics stages.
    GraphicsMask,
}

impl StageFlag {
    /// The number that stands for this value in driver structures and command streams.
    pub open spec fn raw(self) -> u32 {
        match self {
            StageFlag::Vertex => 1,
            StageFlag::TessCtrl => 2,
            StageFlag::TessEval => 4,
            StageFlag::Geometry => 8,
            StageFlag::Fragment => 16,
            StageFlag::Compute => 32,
            StageFlag::GraphicsMask => 31,
        }
    }

    pub fn to_raw(self) -> (code: u32)
        ensures
            code == self.raw(),
    {
        match self {
            StageFlag::Vertex => 1,
            StageFlag::TessCtrl => 2,
            StageFlag::TessEval => 4,
            StageFlag::Geometry => 8,
            StageFlag::Fragment => 16,
            StageFlag::Compute => 32,
            StageFlag::GraphicsMask => 31,
        }
    }
}

/// The configuration from which a shader is made: where its code lies in a block of code
/// memory, and which program of that code it is.
#[derive(Debug, Copy, Clone, PartialEq, Eq, Hash, Structural)]
pub struct ShaderMaker {
    /// The address of the control section of the shader in the caller's memory, or zero
    /// where it precedes the code. Only the driver follows the address.
    pub control: usize,
    /// Where the code starts within its memory block, in bytes.
    pub code_offset: u32,
    pub program_id: u32,
}

impl ShaderMaker {
    /// The configuration of the first program of the code at `code_offset`, with the
    /// control section where the code is.
    pub fn new(code_offset: u32) -> (maker: ShaderMaker)
        ensures
            maker == (ShaderMaker { control: 0, code_offset, program_id: 0 }),
    {
        ShaderMaker { control: 0, code_offset, program_id: 0 }
    }

    pub fn set_control(&mut self, control: usize) -> (ret: &mut Self)
        ensures
            *ret == (ShaderMaker { control, ..*old(self) }),
            *final(self) == *final(ret),
    {
        self.control = control;
        self
    }

    pub fn get_control(&self) -> (control: usize)
        ensures
            control == self.control,
    {
        self.control
    }

    pub fn set_program_id(&mut self, program_id: u32) -> (ret: &mut Self)
        ensures
            *ret == (ShaderMaker { program_id, ..*old(self) }),
            *final(self) == *final(ret),
    {
        self.program_id = program_id;
        self
    }

    pub fn get_program_id(&self) -> (program_id: u32)
        ensures
            program_id == self.program_id,
    {
        self.program_id
    }
}

} // verus!
