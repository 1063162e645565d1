//! The 64-bit page-table entry.
//!
//! Bits 12 to 51 of an entry hold the address of a 4 KiB frame; every other
//! bit is a flag.

use crate::addr::PhyAddr;
use vstd::prelude::*;

verus! {

/// Why an entry yields no frame.
#[derive(Debug, Clone, Copy, PartialEq, Eq, Structural)]
pub enum FrameError {
    /// The entry is not present.
    FrameNotPresent,
    /// The entry maps a huge page.
    HugeFrame,
}

/// The bits of an entry that hold the frame address: bits 12 to 51.
pub const PHYSICAL_ADDRESS_MASK: u64 = 0x000f_ffff_ffff_f000;

/// Number of entries of a page table.
pub const ENTRY_COUNT: usize = 512;

/// The bits of a page-table entry that are not part of the frame address.
///
/// The word may hold bits without a name; they are kept as they came.
#[derive(Debug, Clone, Copy, PartialEq, Eq, Structural)]
pub struct PageTableFlags {
    pub bits: u64,
}

impl View for PageTableFlags {
    type V = u64;

    open spec fn view(&self) -> u64 {
        self.bits
    }
}

impl PageTableFlags {
    /// The entry maps a frame or points to a table.
    pub const PRESENT: u64 = 1;

    /// Writes through this entry are allowed.
    pub const WRITABLE: u64 = 1 << 1;

    /// Ring 3 may use this entry.
    pub const USERACCESSIBLE: u64 = 1 << 2;

    /// Writes go through the cache to memory.
    pub const WRITETHROUGH: u64 = 1 << 3;

    /// The mapped memory is not cached.
    pub const NOCACHE: u64 = 1 << 4;

    /// The processor has used this entry.
    pub const ACCESSED: u64 = 1 << 5;

    /// The processor has written through this entry.
    pub const DIRTY: u64 = 1 << 6;

    /// The entry maps a huge page in place of a table.
    pub const HUGE_PAGE: u64 = 1 << 7;

    /// The translation survives an address-space switch.
    pub const GLOBAL: u64 = 1 << 8;

    /// Free for software.
    pub const BIT9: u64 = 1 << 9;

    /// Free for software.
    pub const BIT10: u64 = 1 << 10;

    /// Free for software.
    pub const BIT11: u64 = 1 << 11;

    /// Free for software.
    pub const BIT52: u64 = 1 << 52;

    /// Free for software.
    pub const BIT53: u64 = 1 << 53;

    /// Free for software.
    pub const BIT54: u64 = 1 << 54;

    /// Free for software.
    pub const BIT55: u64 = 1 << 55;

    /// Free for software.
    pub const BIT56: u64 = 1 << 56;

    /// Free for software.
    pub const BIT57: u64 = 1 << 57;

    /// Free for software.
    pub const BIT58: u64 = 1 << 58;

    /// Free for software.
    pub const BIT59: u64 = 1 << 59;

    /// Free for software.
    pub const BIT60: u64 = 1 << 60;

    /// Free for software.
    pub const BIT61: u64 = 1 << 61;

    /// Free for software.
    pub const BIT62: u64 = 1 << 62;

    /// No instruction is fetched through this entry.
    pub const NO_EXECUTE: u64 = 1 << 63;

    /// Every named bit of an entry.
    pub const ALL: u64 = 0xfff0_0000_0000_0fff;

    /// The set without any bit.
    pub fn empty() -> (r: Self)
        ensures
            r@ == 0,
    {
        PageTableFlags { bits: 0 }
    }

    /// The set of all named bits.
    pub fn all() -> (r: Self)
        ensures
            r@ == Self::ALL,
    {
        PageTableFlags { bits: Self::ALL }
    }

    /// The word that holds the set.
    pub fn bits(&self) -> (r: u64)
        ensures
            r == self@,
    {
        self.bits
    }

    /// The set that a word holds, provided that each of its bits has a name.
    pub fn from_bits(bits: u64) -> (r: Option<Self>)
        ensures
            bits & !Self::ALL == 0 ==> r.is_some() && r.unwrap()@ == bits,
            bits & !Self::ALL != 0 ==> r.is_none(),
    {
        if bits & !Self::ALL == 0 {
            Some(PageTableFlags { bits })
        } else {
            None
        }
    }

    /// The named bits of a word; the others are dropped.
    pub fn from_bits_truncate(bits: u64) -> (r: Self)
        ensures
            r@ == bits & Self::ALL,
    {
        PageTableFlags { bits: bits & Self::ALL }
    }

    /// All bits of a word, named or not.
    pub fn from_bits_retain(bits: u64) -> (r: Self)
        ensures
            r@ == bits,
    {
        PageTableFlags { bits }
    }

    /// Whether no bit is set.
    pub fn is_empty(&self) -> (r: bool)
        ensures
            r == (self@ == 0),
    {
        self.bits == 0
    }

    /// Whether every bit of `other` is set in `self`.
    pub fn contains(&self, other: Self) -> (r: bool)
        ensures
            r == (self@ & other@ == other@),
    {
        self.bits & other.bits == other.bits
    }

    /// Sets the bits of `other`.
    pub fn insert(&mut self, other: Self)
        ensures
            final(self)@ == old(self)@ | other@,
    {
        self.bits = self.bits | other.bits;
    }

    /// Clears the bits of `other`.
    pub fn remove(&mut self, other: Self)
        ensures
            final(self)@ == old(self)@ & !other@,
    {
        self.bits = self.bits & !other.bits;
    }
}

/// One entry of a page table.
#[derive(Debug, Clone, Copy, PartialEq, Eq, Structural)]
pub struct PageTableEntry {
    entry: u64,
}

impl View for PageTableEntry {
    type V = u64;

    closed spec fn view(&self) -> u64 {
        self.entry
    }
}

/// Splitting a word by the address mask loses nothing, and an address and
/// flags that keep to their own bits come back out of their combination.
pub proof fn lemma_entry_parts(addr: u64, flags: u64)
    by (bit_vector)
    requires
        addr & !0x000f_ffff_ffff_f000u64 == 0,
        flags & 0x000f_ffff_ffff_f000u64 == 0,
    ensures
        (addr | flags) & 0x000f_ffff_ffff_f000u64 == addr,
        (addr | flags) & !0x000f_ffff_ffff_f000u64 == flags,
{
}

/// The address bits of any word are below the end of physical memory, and
/// four-kilobyte aligned.
pub proof fn lemma_masked_is_frame(word: u64)
    by (bit_vector)
    ensures
        word & 0x000f_ffff_ffff_f000u64 < 0x10_0000_0000_0000u64,
        (word & 0x000f_ffff_ffff_f000u64) & 0xfffu64 == 0,
        (word & 0x000f_ffff_ffff_f000u64) & !0x000f_ffff_ffff_f000u64 == 0,
        (word & !0x000f_ffff_ffff_f000u64) & 0x000f_ffff_ffff_f000u64 == 0,
        (word & 0x000f_ffff_ffff_f000u64) | (word & !0x000f_ffff_ffff_f000u64) == word,
{
}

impl PageTableEntry {
    /// The address bits of the entry.
    pub open spec fn spec_addr(self) -> u64 {
        self@ & PHYSICAL_ADDRESS_MASK
    }

    /// The flag bits of the entry.
    pub open spec fn spec_flags(self) -> u64 {
        self@ & !PHYSICAL_ADDRESS_MASK
    }

    /// An unused entry: every bit is zero.
    pub fn new() -> (r: Self)
        ensures
            r@ == 0,
    {
        PageTableEntry { entry: 0 }
    }

    /// Whether every bit is zero.
    pub fn is_unused(&self) -> (r: bool)
        ensures
            r == (self@ == 0),
    {
        self.entry == 0
    }

    /// Clears every bit: the entry maps nothing.
    pub fn set_unused(&mut self)
        ensures
            final(self)@ == 0,
    {
        self.entry = 0;
    }

    /// The flags: every bit outside the frame address. Empty for an unused
    /// entry.
    pub fn flags(&self) -> (r: PageTableFlags)
        ensures
            r@ == self.spec_flags(),
            self@ == 0 ==> r@ == 0,
    {
        assert(0u64 & !0x000f_ffff_ffff_f000u64 == 0) by (bit_vector);
        PageTableFlags::from_bits_retain(self.entry & !PHYSICAL_ADDRESS_MASK)
    }

    /// The frame address: bits 12 to 51. Zero for an unused entry.
    pub fn addr(&self) -> (r: PhyAddr)
        ensures
            r@ == self.spec_addr(),
            self@ == 0 ==> r@ == 0,
    {
        proof {
            lemma_masked_is_frame(self.entry);
        }
        assert(0u64 & 0x000f_ffff_ffff_f000u64 == 0) by (bit_vector);
        PhyAddr::new(self.entry & PHYSICAL_ADDRESS_MASK)
    }

    /// Maps the frame at `addr` with `flags`. The address has to keep to
    /// bits 12 to 51; flag bits inside the address field are dropped.
    pub fn set_addr(&mut self, addr: PhyAddr, flags: PageTableFlags)
        requires
            addr@ & !PHYSICAL_ADDRESS_MASK == 0,
        ensures
            final(self)@ == addr@ | (flags@ & !PHYSICAL_ADDRESS_MASK),
            final(self).spec_addr() == addr@,
            final(self).spec_flags() == flags@ & !PHYSICAL_ADDRESS_MASK,
    {
        let kept: u64 = flags.bits() & !PHYSICAL_ADDRESS_MASK;
        proof {
            lemma_masked_is_frame(flags@);
            lemma_entry_parts(addr@, kept);
        }
        self.entry = addr.as_u64() | kept;
    }

    /// Replaces the flags and keeps the frame address.
    pub fn set_flags(&mut self, flags: PageTableFlags)
        ensures
            final(self)@ == old(self).spec_addr() | (flags@ & !PHYSICAL_ADDRESS_MASK),
            final(self).spec_addr() == old(self).spec_addr(),
            final(self).spec_flags() == flags@ & !PHYSICAL_ADDRESS_MASK,
    {
        let kept: u64 = flags.bits() & !PHYSICAL_ADDRESS_MASK;
        let frame: u64 = self.entry & PHYSICAL_ADDRESS_MASK;
        proof {
            lemma_masked_is_frame(flags@);
            lemma_masked_is_frame(self.entry);
            lemma_entry_parts(frame, kept);
        }
        self.entry = frame | kept;
    }
}

/// A page table: 512 entries.
#[derive(Debug, Clone, Copy)]
pub struct PageTable {
    entries: [PageTableEntry; 512],
}

impl View for PageTable {
    type V = Seq<u64>;

    closed spec fn view(&self) -> Seq<u64> {
        Seq::new(512, |i: int| self.entries[i]@)
    }
}

impl PageTable {
    /// A table of unused entries.
    pub fn new() -> (r: Self)
        ensures
            r@.len() == ENTRY_COUNT,
            forall|i: int| 0 <= i < ENTRY_COUNT ==> r@[i] == 0,
    {
        PageTable { entries: [PageTableEntry::new();512] }
    }

    /// Entry `index` of the table.
    pub fn index(&self, index: usize) -> (r: &PageTableEntry)
        requires
            index < ENTRY_COUNT,
        ensures
            r@ == self@[index as int],
    {
        &self.entries[index]
    }

    /// Entry `index` of the table, to change it. No other entry changes.
    pub fn index_mut(&mut self, index: usize) -> (r: &mut PageTableEntry)
        requires
            index < ENTRY_COUNT,
        ensures
            r@ == old(self)@[index as int],
            final(self)@ == old(self)@.update(index as int, final(r)@),
    {
        &mut self.entries[index]
    }
}

} // verus!
