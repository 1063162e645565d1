//! Descriptor-table and CPU-state primitives for an x86_64 kernel.
//!
//! Every type here is a bit-accurate model of a structure that the processor
//! reads or hands to a handler: canonical addresses, segment selectors, the
//! flags register, page-table entries, model-specific register values and the
//! interrupt descriptor table with its gate descriptors.

pub mod addr;
pub mod idt;
pub mod model_specific;
pub mod rflags;
pub mod segmentation;
pub mod structures;
pub mod vga_buffer;

use crate::addr::VirtualAddr;
use vstd::prelude::*;

verus! {

/// What the table-load instructions take: the size of a descriptor table in
/// bytes less one, and the address where the table starts.
#[derive(Debug, Clone, Copy, PartialEq, Eq, Structural)]
pub struct DescriptorTablePointer {
    /// Size of the table in bytes, less one.
    pub limit: u16,
    /// Where the table starts.
    pub base: VirtualAddr,
}

/// What a test run tells the emulator when it ends.
#[derive(Debug, Clone, Copy, PartialEq, Eq, Structural)]
pub enum QemuExitCode {
    /// Every test passed.
    Success,
    /// A test failed.
    Failed,
}

impl QemuExitCode {
    /// The value that is written to the emulator's exit port.
    pub open spec fn spec_code(self) -> u32 {
        match self {
            QemuExitCode::Success => 0x10,
            QemuExitCode::Failed => 0x11,
        }
    }

    /// The value to write to the emulator's exit port.
    pub fn code(self) -> (r: u32)
        ensures
            r == self.spec_code(),
    {
        match self {
            QemuExitCode::Success => 0x10,
            QemuExitCode::Failed => 0x11,
        }
    }
}

/// The four protection rings of the processor.
#[derive(Clone, Copy, Debug, PartialEq, Eq, Structural)]
pub enum PrivilegeLevel {
    Ring0,
    Ring1,
    Ring2,
    Ring3,
}

impl PrivilegeLevel {
    /// The ring's number, 0 to 3.
    pub open spec fn spec_bits(self) -> u16 {
        match self {
            PrivilegeLevel::Ring0 => 0,
            PrivilegeLevel::Ring1 => 1,
            PrivilegeLevel::Ring2 => 2,
            PrivilegeLevel::Ring3 => 3,
        }
    }

    /// The ring that a number from 0 to 3 names.
    pub open spec fn spec_from_bits(value: u16) -> PrivilegeLevel {
        if value == 0 {
            PrivilegeLevel::Ring0
        } else if value == 1 {
            PrivilegeLevel::Ring1
        } else if value == 2 {
            PrivilegeLevel::Ring2
        } else {
            PrivilegeLevel::Ring3
        }
    }

    /// Encodes the ring as its two-bit number.
    pub fn bits(self) -> (r: u16)
        ensures
            r == self.spec_bits(),
            r <= 3,
    {
        match self {
            PrivilegeLevel::Ring0 => 0,
            PrivilegeLevel::Ring1 => 1,
            PrivilegeLevel::Ring2 => 2,
            PrivilegeLevel::Ring3 => 3,
        }
    }

    /// Decodes a two-bit number into its ring.
    pub fn from_u16(value: u16) -> (r: PrivilegeLevel)
        requires
            value <= 3,
        ensures
            r == Self::spec_from_bits(value),
            r.spec_bits() == value,
    {
        if value == 0 {
            PrivilegeLevel::Ring0
        } else if value == 1 {
            PrivilegeLevel::Ring1
        } else if value == 2 {
            PrivilegeLevel::Ring2
        } else {
            PrivilegeLevel::Ring3
        }
    }
}

} // verus!
