//! What an operation of the driver reports, as a `Result`.

use vstd::prelude::*;

verus! {

/// Why an operation failed.
#[derive(Debug, Copy, Clone, PartialEq, Eq, Hash, Structural)]
pub enum DekoError {
    /// Failure without a more specific cause.
    Fail,
    /// The deadline of a wait passed.
    Timeout,
    OutOfMemory,
    NotImplemented,
    /// A size is not a multiple of the alignment it must respect.
    MisalignedSize,
    /// An address or offset is not aligned as it must be.
    MisalignedData,
    BadInput,
    BadFlags,
    BadState,
    /// The driver reported a code that this layer does not know.
    Unknown,
}

/// The result that the driver's result code `code` stands for: code 0 is success, codes 1 to
/// 9 are the known failures in the order of `DekoError`, and every other code is `Unknown`.
pub open spec fn result_of_code(code: u32) -> Result<(), DekoError> {
    match code {
        0 => Ok(()),
        1 => Err(DekoError::Fail),
        2 => Err(DekoError::Timeout),
        3 => Err(DekoError::OutOfMemory),
        4 => Err(DekoError::NotImplemented),
        5 => Err(DekoError::MisalignedSize),
        6 => Err(DekoError::MisalignedData),
        7 => Err(DekoError::BadInput),
        8 => Err(DekoError::BadFlags),
        9 => Err(DekoError::BadState),
        _ => Err(DekoError::Unknown),
    }
}

/// Turns a result code of the driver into a `Result`.
pub fn into_result(code: u32) -> (result: Result<(), DekoError>)
    ensures
        result == result_of_code(code),
        result is Ok <==> code == 0,
        result == Err::<(), DekoError>(DekoError::Unknown) <==> code > 9,
{
    match code {
        0 => Ok(()),
        1 => Err(DekoError::Fail),
        2 => Err(DekoError::Timeout),
        3 => Err(DekoError::OutOfMemory),
        4 => Err(DekoError::NotImplemented),
        5 => Err(DekoError::MisalignedSize),
        6 => Err(DekoError::MisalignedData),
        7 => Err(DekoError::BadInput),
        8 => Err(DekoError::BadFlags),
        9 => Err(DekoError::BadState),
        _ => Err(DekoError::Unknown),
    }
}

} // verus!
