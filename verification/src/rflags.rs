//! The processor's flags register.
//!
//! Reading and writing the register itself is the caller's business. What is
//! here decodes a word that was read and computes the word to write back,
//! which keeps every bit that has no name.

use vstd::prelude::*;

verus! {

/// The named bits of the flags register.
///
/// The word may hold bits without a name; they are kept as they came.
#[derive(Debug, Clone, Copy, PartialEq, Eq, Structural)]
pub struct RFlags {
    pub bits: u64,
}

impl View for RFlags {
    type V = u64;

    open spec fn view(&self) -> u64 {
        self.bits
    }
}

impl RFlags {
    /// The processor identifies itself on request where software can change this bit.
    pub const ID: u64 = 1 << 21;

    /// An external, maskable interrupt is pending.
    pub const VIRTUAL_INTERRUPT_PENDING: u64 = 1 << 20;

    /// Virtual image of the interrupt-enable bit.
    pub const VIRTUAL_INTERRUPT: u64 = 1 << 19;

    /// Alignment is checked in ring 3.
    pub const ALIGNMENT_CHECK: u64 = 1 << 18;

    /// Virtual-8086 mode is on.
    pub const VIRTUAL_8086_MODE: u64 = 1 << 17;

    /// An instruction restarts after an instruction breakpoint.
    pub const RESUME_FLAG: u64 = 1 << 16;

    /// The current task is nested in another.
    pub const NESTED_TASK: u64 = 1 << 14;

    /// High bit of the I/O privilege level.
    pub const IOPL_HIGH: u64 = 1 << 13;

    /// Low bit of the I/O privilege level.
    pub const IOPL_LOW: u64 = 1 << 12;

    /// The last signed operation overflowed.
    pub const OVERFLOW_FLAG: u64 = 1 << 11;

    /// String instructions run downwards.
    pub const DIRECTION_FLAG: u64 = 1 << 10;

    /// Maskable interrupts are delivered.
    pub const INTERRUPT_FLAG: u64 = 1 << 9;

    /// Single-step mode is on.
    pub const TRAP_FLAG: u64 = 1 << 8;

    /// The last result was negative.
    pub const SIGN_FLAG: u64 = 1 << 7;

    /// The last result was zero.
    pub const ZERO_FLAG: u64 = 1 << 6;

    /// The last operation carried out of bit 3.
    pub const AUXILARY_CARRY_FLAG: u64 = 1 << 4;

    /// The last result had an even number of set bits.
    pub const PARITY_FLAG: u64 = 1 << 2;

    /// The last operation carried out of the top bit.
    pub const CARRY_FLAG: u64 = 1;

    /// Every named bit of the register.
    pub const ALL: u64 = 0x3f_7fd5;

    /// The set without any bit.
    pub fn empty() -> (r: Self)
        ensures
            r@ == 0,
    {
        RFlags { bits: 0 }
    }

    /// The set of all named bits.
    pub fn all() -> (r: Self)
        ensures
            r@ == Self::ALL,
    {
        RFlags { bits: Self::ALL }
    }

    /// The word that holds the set.
    pub fn bits(&self) -> (r: u64)
        ensures
            r == self@,
    {
        self.bits
    }

    /// The set that a word holds, provided that each of its bits has a name.
    pub fn from_bits(bits: u64) -> (r: Option<Self>)
        ensures
            bits & !Self::ALL == 0 ==> r.is_some() && r.unwrap()@ == bits,
            bits & !Self::ALL != 0 ==> r.is_none(),
    {
        if bits & !Self::ALL == 0 {
            Some(RFlags { bits })
        } else {
            None
        }
    }

    /// The named bits of a word; the others are dropped.
    pub fn from_bits_truncate(bits: u64) -> (r: Self)
        ensures
            r@ == bits & Self::ALL,
    {
        RFlags { bits: bits & Self::ALL }
    }

    /// All bits of a word, named or not.
    pub fn from_bits_retain(bits: u64) -> (r: Self)
        ensures
            r@ == bits,
    {
        RFlags { bits }
    }

    /// Whether no bit is set.
    pub fn is_empty(&self) -> (r: bool)
        ensures
            r == (self@ == 0),
    {
        self.bits == 0
    }

    /// Whether every bit of `other` is set in `self`.
    pub fn contains(&self, other: Self) -> (r: bool)
        ensures
            r == (self@ & other@ == other@),
    {
        self.bits & other.bits == other.bits
    }

    /// Sets the bits of `other`.
    pub fn insert(&mut self, other: Self)
        ensures
            final(self)@ == old(self)@ | other@,
    {
        self.bits = self.bits | other.bits;
    }

    /// Clears the bits of `other`.
    pub fn remove(&mut self, other: Self)
        ensures
            final(self)@ == old(self)@ & !other@,
    {
        self.bits = self.bits & !other.bits;
    }
}

/// The word to store in the register so that its named bits become `flags`
/// while the bits without a name stay as they are in `current`.
pub open spec fn merge_reserved(current: u64, flags: u64) -> u64 {
    (current & !RFlags::ALL) | flags
}

/// Decodes the word that was read from the register: its named bits.
pub fn read(raw: u64) -> (r: RFlags)
    ensures
        r@ == raw & RFlags::ALL,
{
    RFlags::from_bits_truncate(raw)
}

/// Computes the word to store for `flags`, given the word `current` that the
/// register holds now: the bits without a name are taken from `current`.
pub fn write(current: u64, flags: RFlags) -> (r: u64)
    ensures
        r == merge_reserved(current, flags@),
{
    let reserved: u64 = current & !RFlags::ALL;
    reserved | flags.bits()
}

/// Read, modify, write: decodes `current`, lets `f` change the flags, and
/// computes the word to store.
pub fn update<F: FnOnce(RFlags) -> RFlags>(current: u64, f: F) -> (r: u64)
    requires
        f.requires((RFlags { bits: current & RFlags::ALL },)),
    ensures
        exists|flags: RFlags|
            f.ensures((RFlags { bits: current & RFlags::ALL },), flags) && r == merge_reserved(
                current,
                flags@,
            ),
{
    let flags = f(read(current));
    write(current, flags)
}

} // verus!
