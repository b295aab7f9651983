//! The faults the machine can report.
//!
//! Every fault the reference behaviour treats as fatal — an address no
//! region maps, an opcode the decoder does not know, a mapping that does
//! not fit its device — is surfaced as a value of [`VmError`] from
//! `step`/`run` and the mapper operations, so an embedding application
//! can catch and report it instead of crashing.

use vstd::prelude::*;

verus! {

/// A fault raised by the memory mapper or the CPU.
#[derive(Clone, Copy, Debug, PartialEq, Eq, Structural)]
pub enum VmError {
    /// No mapped region contains this address.
    UnmappedAddress(u16),
    /// A region contains the address, but the translated offset falls
    /// past the end of the region's backing device.
    DeviceOverrun(u16),
    /// The fetched opcode byte selects no instruction.
    UnknownOpcode(u8),
    /// `map` was asked to remap a range onto a device smaller than the range.
    RegionTooSmall,
}

} // verus!
