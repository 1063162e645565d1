//! The error codes that the processor pushes with some exceptions, and the
//! numbers of the exceptions.

use vstd::prelude::*;

verus! {

/// The error code that the processor pushes for a page fault.
///
/// The word may hold bits without a name; they are kept as they came.
#[derive(Debug, Clone, Copy, PartialEq, Eq, Structural)]
pub struct PageFaultErrorCode {
    pub bits: u64,
}

impl View for PageFaultErrorCode {
    type V = u64;

    open spec fn view(&self) -> u64 {
        self.bits
    }
}

impl PageFaultErrorCode {
    /// Set: a protection violation. Clear: the page was not present.
    pub const PROTECTION_VIOLATION: u64 = 1;

    /// Set: a write caused the fault. Clear: a read did.
    pub const CAUSED_BY_WRITE: u64 = 1 << 1;

    /// The access came from ring 3.
    pub const USER_MODE: u64 = 1 << 2;

    /// A reserved bit was set in a page-table entry.
    pub const MALFORMED_TABLE: u64 = 1 << 3;

    /// An instruction fetch caused the fault.
    pub const INSTRUCTION_FETCH: u64 = 1 << 4;

    /// A protection key forbade the access.
    pub const PROTECTION_KEY: u64 = 1 << 5;

    /// A shadow-stack access caused the fault.
    pub const SHADOW_KEY: u64 = 1 << 6;

    /// The fault came up during linear-address translation by the hypervisor.
    pub const HLAT: u64 = 1 << 7;

    /// An enclave access check failed.
    pub const SGX: u64 = 1 << 15;

    /// The reverse map table forbade the access.
    pub const RMP: u64 = 1 << 31;

    /// Every named bit of the error code.
    pub const ALL: u64 = 0x8000_80ff;

    /// The set without any bit.
    pub fn empty() -> (r: Self)
        ensures
            r@ == 0,
    {
        PageFaultErrorCode { bits: 0 }
    }

    /// The set of all named bits.
    pub fn all() -> (r: Self)
        ensures
            r@ == Self::ALL,
    {
        PageFaultErrorCode { bits: Self::ALL }
    }

    /// The word that holds the set.
    pub fn bits(&self) -> (r: u64)
        ensures
            r == self@,
    {
        self.bits
    }

    /// The set that a word holds, provided that each of its bits has a name.
    pub fn from_bits(bits: u64) -> (r: Option<Self>)
        ensures
            bits & !Self::ALL == 0 ==> r.is_some() && r.unwrap()@ == bits,
            bits & !Self::ALL != 0 ==> r.is_none(),
    {
        if bits & !Self::ALL == 0 {
            Some(PageFaultErrorCode { bits })
        } else {
            None
        }
    }

    /// The named bits of a word; the others are dropped.
    pub fn from_bits_truncate(bits: u64) -> (r: Self)
        ensures
            r@ == bits & Self::ALL,
    {
        PageFaultErrorCode { bits: bits & Self::ALL }
    }

    /// All bits of a word, named or not.
    pub fn from_bits_retain(bits: u64) -> (r: Self)
        ensures
            r@ == bits,
    {
        PageFaultErrorCode { bits }
    }

    /// Whether no bit is set.
    pub fn is_empty(&self) -> (r: bool)
        ensures
            r == (self@ == 0),
    {
        self.bits == 0
    }

    /// Whether every bit of `other` is set in `self`.
    pub fn contains(&self, other: Self) -> (r: bool)
        ensures
            r == (self@ & other@ == other@),
    {
        self.bits & other.bits == other.bits
    }

    /// Sets the bits of `other`.
    pub fn insert(&mut self, other: Self)
        ensures
            final(self)@ == old(self)@ | other@,
    {
        self.bits = self.bits | other.bits;
    }

    /// Clears the bits of `other`.
    pub fn remove(&mut self, other: Self)
        ensures
            final(self)@ == old(self)@ & !other@,
    {
        self.bits = self.bits & !other.bits;
    }
}

/// The descriptor table that a selector error code points into.
#[derive(Debug, Clone, Copy, PartialEq, Eq, Structural)]
pub enum DescriptorTable {
    /// The global descriptor table.
    GDT,
    /// The interrupt descriptor table.
    IDT,
    /// The local descriptor table.
    LDT,
}

/// The table that the two-bit table field of a selector error code names.
/// Both odd values name the interrupt descriptor table.
pub open spec fn table_of_field(field: u64) -> DescriptorTable {
    if field == 0 {
        DescriptorTable::GDT
    } else if field == 2 {
        DescriptorTable::LDT
    } else {
        DescriptorTable::IDT
    }
}

/// The error code of the exceptions that concern a segment selector. It has
/// 16 bits: bit 0 says whether the cause lies outside the program, bits 1
/// and 2 name the descriptor table, the other bits index it.
#[derive(Debug, Clone, Copy, PartialEq, Eq, Structural)]
pub struct SelectorErrorCode {
    flags: u64,
}

impl View for SelectorErrorCode {
    type V = u64;

    closed spec fn view(&self) -> u64 {
        self.flags
    }
}

impl SelectorErrorCode {
    /// Whether the cause lies outside the program: bit 0.
    pub open spec fn spec_external(self) -> bool {
        self@ & 1 != 0
    }

    /// The descriptor table: bits 1 and 2.
    pub open spec fn spec_descriptor_table(self) -> DescriptorTable {
        table_of_field((self@ >> 1) & 3)
    }

    /// The error code with the value `value`, if that fits in 16 bits.
    pub fn new(value: u64) -> (r: Option<Self>)
        ensures
            value <= u16::MAX ==> r.is_some() && r.unwrap()@ == value,
            value > u16::MAX ==> r.is_none(),
    {
        if value > 0xffff {
            None
        } else {
            Some(SelectorErrorCode { flags: value })
        }
    }

    /// The error code that the low 16 bits of `value` spell.
    pub fn new_truncate(value: u64) -> (r: Self)
        ensures
            r@ == value & 0xffff,
            r@ <= u16::MAX,
    {
        assert(value & 0xffff <= 0xffff) by (bit_vector);
        SelectorErrorCode { flags: value & 0xffff }
    }

    /// The value of the error code.
    pub fn bits(&self) -> (r: u64)
        ensures
            r == self@,
    {
        self.flags
    }

    /// Whether the exception came up while an event from outside the
    /// program was delivered, such as an interrupt.
    pub fn external(&self) -> (r: bool)
        ensures
            r == self.spec_external(),
    {
        self.flags & 1 != 0
    }

    /// The descriptor table that the selector points into.
    pub fn descriptor_table(&self) -> (r: DescriptorTable)
        ensures
            r == self.spec_descriptor_table(),
    {
        let field: u64 = (self.flags >> 1) & 3;
        if field == 0 {
            DescriptorTable::GDT
        } else if field == 2 {
            DescriptorTable::LDT
        } else {
            DescriptorTable::IDT
        }
    }
}

/// The exceptions of the processor.
#[derive(Debug, Clone, Copy, PartialEq, Eq, Structural)]
pub enum ExceptionVector {
    /// Vector 0.
    Division,
    /// Vector 1.
    Debug,
    /// Vector 2.
    NonMaskableInterrupt,
    /// Vector 3.
    Breakpoint,
    /// Vector 4.
    Overflow,
    /// Vector 5.
    BoundRange,
    /// Vector 6.
    InvalidOpcode,
    /// Vector 7.
    DeviceNotAvailable,
    /// Vector 8.
    Double,
    /// Vector 10.
    InvalidTss,
    /// Vector 11.
    SementNotpresent,
    /// Vector 12.
    Stack,
    /// Vector 13.
    GeneralProtection,
    /// Vector 14.
    Page,
    /// Vector 16.
    X87FloatingPoint,
    /// Vector 17.
    AlignmentChack,
    /// Vector 18.
    MachineCheck,
    /// Vector 19.
    SimdFloatingPoint,
    /// Vector 20.
    Virtualization,
    /// Vector 21.
    ControlProtection,
    /// Vector 28.
    HypervisorInjection,
    /// Vector 29.
    VmmCommunication,
    /// Vector 30.
    Security,
}

/// A number that names no exception.
#[derive(Debug, Clone, Copy, PartialEq, Eq, Structural)]
pub struct InvalidExceptionVectorNumber(pub u8);

impl ExceptionVector {
    /// The vector number of the exception.
    pub open spec fn spec_number(self) -> u8 {
        match self {
            ExceptionVector::Division => 0,
            ExceptionVector::Debug => 1,
            ExceptionVector::NonMaskableInterrupt => 2,
            ExceptionVector::Breakpoint => 3,
            ExceptionVector::Overflow => 4,
            ExceptionVector::BoundRange => 5,
            ExceptionVector::InvalidOpcode => 6,
            ExceptionVector::DeviceNotAvailable => 7,
            ExceptionVector::Double => 8,
            ExceptionVector::InvalidTss => 10,
            ExceptionVector::SementNotpresent => 11,
            ExceptionVector::Stack => 12,
            ExceptionVector::GeneralProtection => 13,
            ExceptionVector::Page => 14,
            ExceptionVector::X87FloatingPoint => 16,
            ExceptionVector::AlignmentChack => 17,
            ExceptionVector::MachineCheck => 18,
            ExceptionVector::SimdFloatingPoint => 19,
            ExceptionVector::Virtualization => 20,
            ExceptionVector::ControlProtection => 21,
            ExceptionVector::HypervisorInjection => 28,
            ExceptionVector::VmmCommunication => 29,
            ExceptionVector::Security => 30,
        }
    }

    /// Whether a number names an exception.
    pub open spec fn is_exception_number(number: u8) -> bool {
        number <= 30 && number != 9 && number != 15 && !(22 <= number <= 27)
    }

    /// The vector number of the exception.
    pub fn number(self) -> (r: u8)
        ensures
            r == self.spec_number(),
            Self::is_exception_number(r),
    {
        match self {
            ExceptionVector::Division => 0,
            ExceptionVector::Debug => 1,
            ExceptionVector::NonMaskableInterrupt => 2,
            ExceptionVector::Breakpoint => 3,
            ExceptionVector::Overflow => 4,
            ExceptionVector::BoundRange => 5,
            ExceptionVector::InvalidOpcode => 6,
            ExceptionVector::DeviceNotAvailable => 7,
            ExceptionVector::Double => 8,
            ExceptionVector::InvalidTss => 10,
            ExceptionVector::SementNotpresent => 11,
            ExceptionVector::Stack => 12,
            ExceptionVector::GeneralProtection => 13,
            ExceptionVector::Page => 14,
            ExceptionVector::X87FloatingPoint => 16,
            ExceptionVector::AlignmentChack => 17,
            ExceptionVector::MachineCheck => 18,
            ExceptionVector::SimdFloatingPoint => 19,
            ExceptionVector::Virtualization => 20,
            ExceptionVector::ControlProtection => 21,
            ExceptionVector::HypervisorInjection => 28,
            ExceptionVector::VmmCommunication => 29,
            ExceptionVector::Security => 30,
        }
    }

    /// The exception that a vector number names, or the number as an error
    /// if it names none.
    pub fn from_number(number: u8) -> (r: Result<ExceptionVector, InvalidExceptionVectorNumber>)
        ensures
            Self::is_exception_number(number) ==> r.is_ok() && r.unwrap().spec_number() == number,
            !Self::is_exception_number(number) ==> r == Err::<
                ExceptionVector,
                InvalidExceptionVectorNumber,
            >(InvalidExceptionVectorNumber(number)),
    {
        match number {
            0 => Ok(ExceptionVector::Division),
            1 => Ok(ExceptionVector::Debug),
            2 => Ok(ExceptionVector::NonMaskableInterrupt),
            3 => Ok(ExceptionVector::Breakpoint),
            4 => Ok(ExceptionVector::Overflow),
            5 => Ok(ExceptionVector::BoundRange),
            6 => Ok(ExceptionVector::InvalidOpcode),
            7 => Ok(ExceptionVector::DeviceNotAvailable),
            8 => Ok(ExceptionVector::Double),
            10 => Ok(ExceptionVector::InvalidTss),
            11 => Ok(ExceptionVector::SementNotpresent),
            12 => Ok(ExceptionVector::Stack),
            13 => Ok(ExceptionVector::GeneralProtection),
            14 => Ok(ExceptionVector::Page),
            16 => Ok(ExceptionVector::X87FloatingPoint),
            17 => Ok(ExceptionVector::AlignmentChack),
            18 => Ok(ExceptionVector::MachineCheck),
            19 => Ok(ExceptionVector::SimdFloatingPoint),
            20 => Ok(ExceptionVector::Virtualization),
            21 => Ok(ExceptionVector::ControlProtection),
            28 => Ok(ExceptionVector::HypervisorInjection),
            29 => Ok(ExceptionVector::VmmCommunication),
            30 => Ok(ExceptionVector::Security),
            _ => Err(InvalidExceptionVectorNumber(number)),
        }
    }
}

} // verus!
