//! Load-time errors and run-time faults.

use vstd::prelude::*;

verus! {

/// Why a guest was halted. A fault is terminal: a hart that raised one is
/// never stepped again.
#[derive(Clone, Copy, Debug, PartialEq, Eq, Structural)]
pub enum Fault {
    /// A fetch or data access reached beyond the end of the arena.
    OutOfBounds,
    /// A store targeted the read-only sensor block.
    ReadOnlyViolation,
    /// A data access straddled the boundary of a device block.
    MisalignedDeviceAccess,
    /// The program counter pointed into a device block.
    ExecuteFromDevice,
    /// The fetched word is not an instruction of the supported subset.
    IllegalInstruction,
    /// A taken branch or a jump aimed at an unaligned or out-of-bounds address.
    InvalidBranchTarget,
    /// The program counter was not a multiple of four.
    MisalignedFetch,
}

/// A fault together with where it happened.
#[derive(Clone, Copy, Debug, PartialEq, Eq, Structural)]
pub struct FaultRecord {
    /// What went wrong.
    pub kind: Fault,
    /// The offending value: the data address of a memory fault, the target of
    /// an invalid transfer, the instruction word of an illegal instruction, or
    /// the program counter of a fetch fault.
    pub detail: u32,
    /// The program counter of the instruction that faulted.
    pub pc: u32,
}

/// Why an image was rejected. No machine is built from a rejected image.
#[derive(Clone, Copy, Debug, PartialEq, Eq, Structural)]
pub enum LoadError {
    /// The image is not a 32-bit little-endian RISC-V executable.
    UnsupportedArchitecture,
    /// A loadable segment does not fit into the arena.
    ImageTooLarge,
    /// The program header table or a segment is malformed, or a segment
    /// overlaps the device blocks.
    InvalidLayout,
    /// The entry address is unaligned or outside the arena.
    InvalidEntryPoint,
}

} // verus!
