//! The comparison that depth, stencil and alpha tests and comparing samplers apply.

use vstd::pervasive::unreached;
use vstd::prelude::*;

verus! {

/// A comparison between an incoming value and a stored one. The test passes where the
/// comparison holds.
#[derive(Debug, Copy, Clone, PartialEq, Eq, Hash, Structural)]
pub enum CompareOp {
    Never,
    Less,
    Equal,
    /// Less or equal.
    Lequal,
    Greater,
    NotEqual,
    /// Greater or equal.
    Gequal,
    Always,
}

impl CompareOp {
    /// The number that stands for this value in driver structures and command streams.
    pub open spec fn raw(self) -> u32 {
        match self {
            CompareOp::Never => 1,
            CompareOp::Less => 2,
            CompareOp::Equal => 3,
            CompareOp::Lequal => 4,
            CompareOp::Greater => 5,
            CompareOp::NotEqual => 6,
            CompareOp::Gequal => 7,
            CompareOp::Always => 8,
        }
    }

    /// Whether `code` is the number of some value of this type.
    pub open spec fn is_raw(code: u32) -> bool {
        1 <= code <= 8
    }

    /// The value whose number is `code`; it means nothing where `code` is no such number.
    pub open spec fn of_raw(code: u32) -> CompareOp {
        match code {
            1 => CompareOp::Never,
            2 => CompareOp::Less,
            3 => CompareOp::Equal,
            4 => CompareOp::Lequal,
            5 => CompareOp::Greater,
            6 => CompareOp::NotEqual,
            7 => CompareOp::Gequal,
            8 => CompareOp::Always,
            _ => arbitrary(),
        }
    }

    pub fn to_raw(self) -> (code: u32)
        ensures
            code == self.raw(),
            CompareOp::is_raw(code),
            CompareOp::of_raw(code) == self,
    {
        match self {
            CompareOp::Never => 1,
            CompareOp::Less => 2,
            CompareOp::Equal => 3,
            CompareOp::Lequal => 4,
            CompareOp::Greater => 5,
            CompareOp::NotEqual => 6,
            CompareOp::Gequal => 7,
            CompareOp::Always => 8,
        }
    }

    pub fn is_valid_raw(code: u32) -> (valid: bool)
        ensures
            valid == CompareOp::is_raw(code),
    {
        1 <= code && code <= 8
    }

    /// Reads a number handed back by the driver. Numbers that stand for no value are
    /// left to the caller, who can tell them apart with `is_valid_raw`.
    pub fn from(code: u32) -> (value: CompareOp)
        requires
            CompareOp::is_raw(code),
        ensures
            value == CompareOp::of_raw(code),
            value.raw() == code,
    {
        match code {
            1 => CompareOp::Never,
            2 => CompareOp::Less,
            3 => CompareOp::Equal,
            4 => CompareOp::Lequal,
            5 => CompareOp::Greater,
            6 => CompareOp::NotEqual,
            7 => CompareOp::Gequal,
            8 => CompareOp::Always,
            _ => unreached(),
        }
    }
}

} // verus!
