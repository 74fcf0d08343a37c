use vstd::prelude::*;

verus! {

/// Why a raw word could not be turned into a structured value.
///
/// None of these is recoverable where it arises: the caller is expected to
/// abandon the current instruction or register write.
#[derive(Clone, Copy, Debug, PartialEq, Eq, Structural)]
pub enum CpuError {
    /// The opcode field of an instruction names no known operation.
    UnrecognizedInstruction,
    /// A register field holds a bit pattern that the hardware reserves.
    InvalidFieldValue,
    /// The operation has no defined behaviour yet.
    NotImplemented,
}

} // verus!
