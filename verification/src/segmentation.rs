//! Segment selectors and the names of the segment registers.

use crate::PrivilegeLevel;
use vstd::prelude::*;

verus! {

/// A segment selector: bits 3 to 15 index a descriptor table, bit 2 says
/// which table, and bits 0 and 1 hold the requested privilege level.
/// Selectors are equal and ordered by value.
#[derive(Clone, Copy, PartialEq, Eq, Debug, PartialOrd, Ord, Hash, Structural)]
pub struct SegmentSelector(pub u16);

impl View for SegmentSelector {
    type V = u16;

    open spec fn view(&self) -> u16 {
        self.0
    }
}

/// The selector word for a table index and a ring number: the index moves
/// to bit 3 and up, the ring fills bits 0 and 1.
pub open spec fn selector_bits(index: u16, ring: u16) -> u16 {
    (index << 3) | ring
}

/// Index and ring come back out of the word they were packed into.
pub proof fn lemma_selector_fields(index: u16, ring: u16)
    by (bit_vector)
    requires
        index < 0x2000,
        ring <= 3,
    ensures
        ((index << 3) | ring) >> 3 == index,
        ((index << 3) | ring) & 3 == ring,
        ((index << 3) | ring) & 4 == 0,
{
}

/// Replacing the ring of a word changes bits 0 and 1 and nothing else.
pub proof fn lemma_replace_ring(word: u16, ring: u16)
    by (bit_vector)
    requires
        ring <= 3,
    ensures
        ((word & !3u16) | ring) & 3 == ring,
        ((word & !3u16) | ring) >> 2 == word >> 2,
        word & 3 <= 3,
{
}

impl SegmentSelector {
    /// The selector without index and with ring 0.
    pub const NULL: u16 = 0;

    /// The table index, bits 3 to 15.
    pub open spec fn spec_index(self) -> u16 {
        self.0 >> 3
    }

    /// The requested privilege level, bits 0 and 1.
    pub open spec fn spec_rpl(self) -> PrivilegeLevel {
        PrivilegeLevel::spec_from_bits(self.0 & 3)
    }

    /// Packs a table index and a requested privilege level. An index of
    /// more than 13 bits loses its upper bits.
    pub fn new(index: u16, rpl: PrivilegeLevel) -> (r: SegmentSelector)
        ensures
            r@ == selector_bits(index, rpl.spec_bits()),
            index < 0x2000 ==> r.spec_index() == index && r.spec_rpl() == rpl,
    {
        let ring: u16 = rpl.bits();
        proof {
            if index < 0x2000 {
                lemma_selector_fields(index, ring);
            }
        }
        SegmentSelector((index << 3) | ring)
    }

    /// The table index.
    pub fn index(self) -> (r: u16)
        ensures
            r == self.spec_index(),
    {
        self.0 >> 3
    }

    /// The requested privilege level.
    pub fn rpl(self) -> (r: PrivilegeLevel)
        ensures
            r == self.spec_rpl(),
    {
        proof {
            lemma_replace_ring(self.0, 0);
        }
        PrivilegeLevel::from_u16(self.0 & 3)
    }

    /// Replaces the requested privilege level and keeps the other bits.
    pub fn set_rpl(&mut self, rpl: PrivilegeLevel)
        ensures
            final(self)@ == (old(self)@ & !3u16) | rpl.spec_bits(),
            final(self).spec_rpl() == rpl,
            final(self)@ >> 2 == old(self)@ >> 2,
    {
        let ring: u16 = rpl.bits();
        proof {
            lemma_replace_ring(self.0, ring);
        }
        self.0 = (self.0 & !3u16) | ring;
    }
}

/// The code segment register.
#[derive(Debug, Clone, Copy)]
pub struct CS;

/// The stack segment register.
#[derive(Debug, Clone, Copy)]
pub struct SS;

/// The data segment register.
#[derive(Debug, Clone, Copy)]
pub struct DS;

/// The extra segment register.
#[derive(Debug, Clone, Copy)]
pub struct ES;

/// The FS register, of which 64-bit mode uses the base only.
#[derive(Debug, Clone, Copy)]
pub struct FS;

/// The GS register, of which 64-bit mode uses the base only.
#[derive(Debug, Clone, Copy)]
pub struct GS;

} // verus!
