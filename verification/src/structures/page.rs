//! Pages of virtual memory.

use crate::addr::{
    canonical_align_down, canonical_is_aligned, lemma_align_down_is_aligned, lemma_power_of_two_4096,
    VirtualAddr,
};
use vstd::prelude::*;

verus! {

/// Size of a page in bytes.
pub const PAGE_SIZE: u64 = 4096;

/// An address that does not start a page.
#[derive(Debug, Clone, Copy, PartialEq, Eq, Structural)]
pub struct AddressNotAligned;

/// A page of 4 KiB, known by the address where it starts.
#[derive(Debug, Clone, Copy, PartialEq, Eq, Structural)]
pub struct Page {
    start_address: VirtualAddr,
}

impl View for Page {
    type V = u64;

    /// The address where the page starts.
    closed spec fn view(&self) -> u64 {
        self.start_address@
    }
}

impl Page {
    #[verifier::type_invariant]
    closed spec fn starts_aligned(self) -> bool {
        canonical_is_aligned(self.start_address@, PAGE_SIZE)
    }

    /// The page that starts at `address`, if one does.
    pub fn from_start_address(address: VirtualAddr) -> (r: Result<Page, AddressNotAligned>)
        ensures
            canonical_is_aligned(address@, PAGE_SIZE) ==> r.is_ok() && r.unwrap()@ == address@,
            !canonical_is_aligned(address@, PAGE_SIZE) ==> r.is_err(),
    {
        proof {
            lemma_power_of_two_4096();
        }
        if address.is_aligned(PAGE_SIZE) {
            Ok(Page { start_address: address })
        } else {
            Err(AddressNotAligned)
        }
    }

    /// The page that holds `address`.
    pub fn containing_address(address: VirtualAddr) -> (r: Page)
        ensures
            r@ == canonical_align_down(address@, PAGE_SIZE),
    {
        let raw: u64 = address.as_u64();
        proof {
            lemma_power_of_two_4096();
            lemma_align_down_is_aligned(raw, PAGE_SIZE);
        }
        Page { start_address: address.align_down(PAGE_SIZE) }
    }

    /// The address where the page starts.
    pub fn start_address(self) -> (r: VirtualAddr)
        ensures
            r@ == self@,
            canonical_is_aligned(r@, PAGE_SIZE),
    {
        proof {
            use_type_invariant(self);
        }
        self.start_address
    }
}

} // verus!
