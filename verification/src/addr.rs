//! Virtual and physical address wrappers.
//!
//! A virtual address is canonical: of its 64 bits only the low 48 are
//! implemented, and bits 48 to 63 repeat bit 47. A physical address has 52
//! implemented bits.

use vstd::prelude::*;

verus! {

/// Number of distinct values of the implemented low 48 bits.
pub const ADDRESS_SPACE_SIZE: u64 = 0x1_0000_0000_0000;

/// First value with bit 47 set: the end of the lower canonical half.
pub const LOWER_HALF_END: u64 = 0x0000_8000_0000_0000;

/// First value of the upper canonical half, where bits 47 to 63 are all set.
pub const UPPER_HALF_START: u64 = 0xffff_8000_0000_0000;

/// Number of distinct physical addresses: 52 implemented bits.
pub const PHYSICAL_SPACE_SIZE: u64 = 0x10_0000_0000_0000;

/// A 64-bit value is canonical when bits 48 to 63 all repeat bit 47, that is
/// when it lies in the lower or in the upper half of the address space.
pub open spec fn is_canonical(raw: u64) -> bool {
    raw < LOWER_HALF_END || raw >= UPPER_HALF_START
}

/// The canonical value that shares its low 48 bits with `raw`: bit 47 is
/// copied into bits 48 to 63.
pub open spec fn sign_extend_48(raw: u64) -> u64 {
    let low = raw % ADDRESS_SPACE_SIZE;
    if low >= LOWER_HALF_END {
        (low + (UPPER_HALF_START - LOWER_HALF_END)) as u64
    } else {
        low
    }
}

/// Whether `align` is a power of two: exactly one bit is set.
pub open spec fn is_power_of_two(align: u64) -> bool {
    align != 0 && align & ((align - 1) as u64) == 0
}

/// `addr` rounded down to a multiple of `align`.
pub open spec fn spec_align_down(addr: u64, align: u64) -> int
    recommends
        align != 0,
{
    addr - addr % align
}

/// `addr` rounded up to a multiple of `align`. The result may exceed 64
/// bits.
pub open spec fn spec_align_up(addr: u64, align: u64) -> int
    recommends
        align != 0,
{
    if addr % align == 0 {
        addr as int
    } else {
        addr - addr % align + align
    }
}

/// A power of two has one bit set: it is 1 shifted left by less than 64.
pub proof fn lemma_power_of_two_is_shift(align: u64)
    requires
        is_power_of_two(align),
    ensures
        exists|k: u64| k < 64 && align == 1u64 << k,
{
    assert(
        align == 1u64 << 0u64 || align == 1u64 << 1u64 || align == 1u64 << 2u64 ||
            align == 1u64 << 3u64 || align == 1u64 << 4u64 || align == 1u64 << 5u64 ||
            align == 1u64 << 6u64 || align == 1u64 << 7u64 || align == 1u64 << 8u64 ||
            align == 1u64 << 9u64 || align == 1u64 << 10u64 || align == 1u64 << 11u64 ||
            align == 1u64 << 12u64 || align == 1u64 << 13u64 || align == 1u64 << 14u64 ||
            align == 1u64 << 15u64 || align == 1u64 << 16u64 || align == 1u64 << 17u64 ||
            align == 1u64 << 18u64 || align == 1u64 << 19u64 || align == 1u64 << 20u64 ||
            align == 1u64 << 21u64 || align == 1u64 << 22u64 || align == 1u64 << 23u64 ||
            align == 1u64 << 24u64 || align == 1u64 << 25u64 || align == 1u64 << 26u64 ||
            align == 1u64 << 27u64 || align == 1u64 << 28u64 || align == 1u64 << 29u64 ||
            align == 1u64 << 30u64 || align == 1u64 << 31u64 || align == 1u64 << 32u64 ||
            align == 1u64 << 33u64 || align == 1u64 << 34u64 || align == 1u64 << 35u64 ||
            align == 1u64 << 36u64 || align == 1u64 << 37u64 || align == 1u64 << 38u64 ||
            align == 1u64 << 39u64 || align == 1u64 << 40u64 || align == 1u64 << 41u64 ||
            align == 1u64 << 42u64 || align == 1u64 << 43u64 || align == 1u64 << 44u64 ||
            align == 1u64 << 45u64 || align == 1u64 << 46u64 || align == 1u64 << 47u64 ||
            align == 1u64 << 48u64 || align == 1u64 << 49u64 || align == 1u64 << 50u64 ||
            align == 1u64 << 51u64 || align == 1u64 << 52u64 || align == 1u64 << 53u64 ||
            align == 1u64 << 54u64 || align == 1u64 << 55u64 || align == 1u64 << 56u64 ||
            align == 1u64 << 57u64 || align == 1u64 << 58u64 || align == 1u64 << 59u64 ||
            align == 1u64 << 60u64 || align == 1u64 << 61u64 || align == 1u64 << 62u64 ||
            align == 1u64 << 63u64) by (bit_vector)
        requires
            align != 0 && align & ((align - 1) as u64) == 0,
    ;
}

/// 1 shifted left by `k` is 2 to the power `k`, a power of two, and
/// clearing the bits below bit `k` rounds down to a multiple of it.
pub proof fn lemma_align_down_to_shift(addr: u64, k: u64)
    requires
        k < 64,
    ensures
        1u64 << k == vstd::arithmetic::power2::pow2(k as nat),
        is_power_of_two(1u64 << k),
        addr & !(((1u64 << k) - 1) as u64) == spec_align_down(addr, 1u64 << k),
{
    let p = 1u64 << k;
    vstd::bits::lemma_u64_pow2_no_overflow(k as nat);
    vstd::bits::lemma_u64_shl_is_mul(1, k);
    assert(p != 0 && p & ((p - 1) as u64) == 0 && addr & !((p - 1) as u64) == (addr >> k) << k)
        by (bit_vector)
        requires
            k < 64,
            p == 1u64 << k,
    ;
    vstd::bits::lemma_u64_shr_is_div(addr, k);
    let q = addr >> k;
    vstd::arithmetic::div_mod::lemma_fundamental_div_mod(addr as int, p as int);
    vstd::arithmetic::div_mod::lemma_mod_bound(addr as int, p as int);
    assert(q * p == p * q) by (nonlinear_arith);
    vstd::bits::lemma_u64_shl_is_mul(q, k);
}

/// For a power of two, rounding is masking: clearing the bits below the
/// one that `align` sets rounds down, and a value is a multiple of `align`
/// exactly when those bits are clear; filling them and adding one rounds
/// any other value up.
pub proof fn lemma_mask_is_round(addr: u64, align: u64)
    requires
        is_power_of_two(align),
    ensures
        addr & !((align - 1) as u64) == spec_align_down(addr, align),
        addr & ((align - 1) as u64) == addr % align,
        addr % align != 0 ==> (addr | ((align - 1) as u64)) + 1 == spec_align_up(addr, align),
{
    lemma_power_of_two_is_shift(align);
    let k = choose|k: u64| k < 64 && align == 1u64 << k;
    lemma_align_down_to_shift(addr, k);
    assert(addr & ((align - 1) as u64) == addr - (addr & !((align - 1) as u64)) && (addr & ((align
        - 1) as u64) != 0 ==> (addr | ((align - 1) as u64)) + 1 == (addr & !((align - 1) as u64))
        + align)) by (bit_vector)
        requires
            align != 0 && align & ((align - 1) as u64) == 0,
    ;
}

/// Rounding down gives the one multiple of `align` among the `align`
/// values that end at `addr`; rounding up the one among the `align` values
/// that start at `addr`.
pub proof fn lemma_round_bounds(addr: u64, align: u64)
    requires
        align != 0,
    ensures
        spec_align_down(addr, align) % (align as int) == 0,
        spec_align_down(addr, align) <= addr < spec_align_down(addr, align) + align,
        spec_align_up(addr, align) % (align as int) == 0,
        addr <= spec_align_up(addr, align) < addr + align,
{
    let down = spec_align_down(addr, align);
    vstd::arithmetic::div_mod::lemma_fundamental_div_mod(addr as int, align as int);
    vstd::arithmetic::div_mod::lemma_mod_bound(addr as int, align as int);
    vstd::arithmetic::div_mod::lemma_mod_multiples_basic(addr as int / align as int, align as int);
    assert((addr as int / align as int) * align == align * (addr as int / align as int))
        by (nonlinear_arith);
    if addr % align != 0 {
        vstd::arithmetic::div_mod::lemma_mod_adds(down, align as int, align as int);
        vstd::arithmetic::div_mod::lemma_mod_self_0(align as int);
    }
}

/// The bitwise form of sign extension from bit 47.
pub proof fn lemma_sign_extend_bits(raw: u64)
    by (bit_vector)
    ensures
        raw & 0x0000_8000_0000_0000u64 != 0 ==> raw | 0xffff_0000_0000_0000u64 == (raw
            % 0x1_0000_0000_0000u64) + 0xffff_0000_0000_0000u64 && (raw % 0x1_0000_0000_0000u64)
            >= 0x0000_8000_0000_0000u64,
        raw & 0x0000_8000_0000_0000u64 == 0 ==> raw & 0x0000_ffff_ffff_ffffu64 == raw
            % 0x1_0000_0000_0000u64 && (raw % 0x1_0000_0000_0000u64) < 0x0000_8000_0000_0000u64,
{
}

/// The page size is a power of two.
pub proof fn lemma_power_of_two_4096()
    ensures
        is_power_of_two(4096),
{
    assert(4096u64 & 4095u64 == 0) by (bit_vector);
}

/// Tells whether `align` is a power of two.
pub fn power_of_two(align: u64) -> (r: bool)
    ensures
        r == is_power_of_two(align),
{
    align != 0 && align & (align - 1) == 0
}

/// Rounds `addr` down to a multiple of the power of two `align`.
pub fn align_down(addr: u64, align: u64) -> (r: u64)
    requires
        is_power_of_two(align),
    ensures
        r == spec_align_down(addr, align),
{
    proof {
        lemma_mask_is_round(addr, align);
    }
    addr & !(align - 1)
}

/// Rounds `addr` up to a multiple of the power of two `align`. The rounded
/// value has to fit in 64 bits.
pub fn align_up(addr: u64, align: u64) -> (r: u64)
    requires
        is_power_of_two(align),
        spec_align_up(addr, align) <= u64::MAX,
    ensures
        r == spec_align_up(addr, align),
{
    proof {
        lemma_mask_is_round(addr, align);
    }
    let align_mask: u64 = align - 1;
    if addr & align_mask == 0 {
        addr
    } else {
        (addr | align_mask) + 1
    }
}

/// A canonical 64-bit virtual address. Addresses are ordered by value.
#[derive(Debug, Clone, Copy, PartialEq, Eq, PartialOrd, Ord, Hash, Structural)]
pub struct VirtualAddr(u64);

/// A physical address of at most 52 bits. Addresses are ordered by value.
#[derive(Debug, Clone, Copy, PartialEq, Eq, PartialOrd, Ord, Hash, Structural)]
pub struct PhyAddr(u64);

/// The rejected value of a failed address construction.
#[derive(Debug, Clone, Copy, PartialEq, Eq, Structural)]
pub struct VirtAddrNotValid(pub u64);

impl View for VirtualAddr {
    type V = u64;

    closed spec fn view(&self) -> u64 {
        self.0
    }
}

impl View for PhyAddr {
    type V = u64;

    closed spec fn view(&self) -> u64 {
        self.0
    }
}

impl VirtualAddr {
    #[verifier::type_invariant]
    closed spec fn canonical(self) -> bool {
        is_canonical(self.0)
    }

    /// Two addresses with the same value are the same address.
    pub proof fn lemma_view_injective(self, other: VirtualAddr)
        ensures
            self@ == other@ <==> self == other,
    {
    }

    /// Wraps a value that the caller knows to be canonical.
    pub fn new(addr: u64) -> (r: VirtualAddr)
        requires
            is_canonical(addr),
        ensures
            r@ == addr,
    {
        VirtualAddr(addr)
    }

    /// Wraps `addr` if it is canonical and hands it back as an error if not.
    pub fn try_new(addr: u64) -> (r: Result<VirtualAddr, VirtAddrNotValid>)
        ensures
            is_canonical(addr) ==> r.is_ok() && r.unwrap()@ == addr,
            r.is_ok() ==> r.unwrap()@ == sign_extend_48(addr),
            !is_canonical(addr) ==> r == Err::<VirtualAddr, VirtAddrNotValid>(
                VirtAddrNotValid(addr),
            ),
    {
        let v = Self::new_truncate(addr);
        proof {
            lemma_sign_extend_fixes_canonical(addr);
        }
        if v.0 == addr {
            Ok(v)
        } else {
            Err(VirtAddrNotValid(addr))
        }
    }

    /// Keeps the low 48 bits of `addr` and overwrites bits 48 to 63 with
    /// copies of bit 47.
    pub fn new_truncate(addr: u64) -> (r: VirtualAddr)
        ensures
            r@ == sign_extend_48(addr),
            is_canonical(r@),
    {
        proof {
            lemma_sign_extend_bits(addr);
            lemma_sign_extend_fixes_canonical(addr);
        }
        if addr & 0x0000_8000_0000_0000u64 != 0 {
            VirtualAddr(addr | 0xffff_0000_0000_0000u64)
        } else {
            VirtualAddr(addr & 0x0000_ffff_ffff_ffffu64)
        }
    }

    /// Wraps a value without testing it; the caller answers for its form.
    pub fn new_safe(addr: u64) -> (r: VirtualAddr)
        requires
            is_canonical(addr),
        ensures
            r@ == addr,
    {
        VirtualAddr(addr)
    }

    /// The address zero.
    pub fn zero() -> (r: VirtualAddr)
        ensures
            r@ == 0,
    {
        VirtualAddr(0)
    }

    /// The wrapped value.
    pub fn as_u64(self) -> (r: u64)
        ensures
            r == self@,
            is_canonical(r),
    {
        proof {
            use_type_invariant(self);
        }
        self.0
    }

    /// Whether this is the address zero.
    pub fn is_null(&self) -> (r: bool)
        ensures
            r == (self@ == 0),
    {
        self.0 == 0
    }

    /// Rounds the value up to a multiple of `align` and brings the result
    /// back into canonical form.
    pub fn align_up(&self, align: u64) -> (r: VirtualAddr)
        requires
            is_power_of_two(align),
            spec_align_up(self@, align) <= u64::MAX,
        ensures
            r@ == canonical_align_up(self@, align),
    {
        Self::new_truncate(align_up(self.0, align))
    }

    /// Rounds the value down to a multiple of `align` and brings the result
    /// back into canonical form.
    pub fn align_down(self, align: u64) -> (r: VirtualAddr)
        requires
            is_power_of_two(align),
        ensures
            r@ == canonical_align_down(self@, align),
    {
        Self::new_truncate(align_down(self.0, align))
    }

    /// Whether rounding down to `align` leaves the address unchanged.
    pub fn is_aligned(self, align: u64) -> (r: bool)
        requires
            is_power_of_two(align),
        ensures
            r == canonical_is_aligned(self@, align),
    {
        self.align_down(align).as_u64() == self.as_u64()
    }
}

/// Truncating construction always yields a canonical value, and it leaves a
/// value unchanged exactly when that value is canonical already: strict
/// construction succeeds on those values, with the same address.
pub proof fn lemma_sign_extend_fixes_canonical(raw: u64)
    ensures
        is_canonical(sign_extend_48(raw)),
        is_canonical(raw) <==> sign_extend_48(raw) == raw,
{
    assert(raw < 0x0000_8000_0000_0000u64 ==> raw % 0x1_0000_0000_0000u64 == raw) by (bit_vector);
    assert(raw >= 0xffff_8000_0000_0000u64 ==> raw % 0x1_0000_0000_0000u64 == raw
        - 0xffff_0000_0000_0000u64) by (bit_vector);
    assert(raw % 0x1_0000_0000_0000u64 < 0x1_0000_0000_0000u64) by (bit_vector);
}

/// What `VirtualAddr::align_down` returns for the value `addr`.
pub open spec fn canonical_align_down(addr: u64, align: u64) -> u64 {
    sign_extend_48(spec_align_down(addr, align) as u64)
}

/// What `VirtualAddr::align_up` returns for the value `addr`.
pub open spec fn canonical_align_up(addr: u64, align: u64) -> u64 {
    sign_extend_48(spec_align_up(addr, align) as u64)
}

/// What `VirtualAddr::is_aligned` returns for the value `addr`.
pub open spec fn canonical_is_aligned(addr: u64, align: u64) -> bool {
    canonical_align_down(addr, align) == addr
}

/// Rounding a canonical address down stays below it by less than `align`.
/// An address of the upper half rounded to more than half the address space
/// would lose its upper bits, so that combination is left out.
pub proof fn lemma_align_down_brackets(addr: u64, align: u64)
    requires
        is_canonical(addr),
        is_power_of_two(align),
        addr < LOWER_HALF_END || align <= LOWER_HALF_END,
    ensures
        canonical_align_down(addr, align) == spec_align_down(addr, align),
        canonical_align_down(addr, align) <= addr < canonical_align_down(addr, align) + align,
{
    let down = addr & !((align - 1) as u64);
    lemma_mask_is_round(addr, align);
    lemma_round_bounds(addr, align);
    assert(addr >= 0xffff_8000_0000_0000u64 && align <= 0x0000_8000_0000_0000u64 ==> addr & !((
        align - 1) as u64) >= 0xffff_8000_0000_0000u64) by (bit_vector)
        requires
            align != 0 && align & ((align - 1) as u64) == 0,
    ;
    lemma_sign_extend_fixes_canonical(down);
}

/// A canonical address rounded down is aligned, whatever the alignment.
pub proof fn lemma_align_down_is_aligned(addr: u64, align: u64)
    requires
        is_canonical(addr),
        is_power_of_two(align),
    ensures
        canonical_is_aligned(canonical_align_down(addr, align), align),
{
    let down = addr & !((align - 1) as u64);
    let kept = sign_extend_48(down);
    lemma_mask_is_round(addr, align);
    lemma_mask_is_round(kept, align);
    lemma_sign_extend_fixes_canonical(down);
    lemma_sign_extend_bits(down);
    assert((down & 0x0000_8000_0000_0000u64 != 0 ==> (down | 0xffff_0000_0000_0000u64) & !((align
        - 1) as u64) == down | 0xffff_0000_0000_0000u64) && (down & 0x0000_8000_0000_0000u64 == 0
        ==> (down & 0x0000_ffff_ffff_ffffu64) & !((align - 1) as u64) == down
        & 0x0000_ffff_ffff_ffffu64)) by (bit_vector)
        requires
            align != 0 && align & ((align - 1) as u64) == 0,
            down == addr & !((align - 1) as u64),
    ;
    assert(spec_align_down(kept, align) == kept);
    lemma_sign_extend_fixes_canonical(kept);
}

/// Rounding up leaves an aligned address where it is.
pub proof fn lemma_align_up_of_aligned(addr: u64, align: u64)
    requires
        is_canonical(addr),
        is_power_of_two(align),
        canonical_is_aligned(addr, align),
    ensures
        canonical_align_up(addr, align) == addr,
{
    let down = addr & !((align - 1) as u64);
    lemma_mask_is_round(addr, align);
    lemma_sign_extend_fixes_canonical(addr);
    lemma_sign_extend_bits(down);
    assert((down & 0x0000_8000_0000_0000u64 != 0 ==> (down | 0xffff_0000_0000_0000u64) & ((align
        - 1) as u64) == 0) && (down & 0x0000_8000_0000_0000u64 == 0 ==> (down
        & 0x0000_ffff_ffff_ffffu64) & ((align - 1) as u64) == 0)) by (bit_vector)
        requires
            align != 0 && align & ((align - 1) as u64) == 0,
            down == addr & !((align - 1) as u64),
    ;
}

/// Rounding up what was rounded down gives the rounded-down address again.
/// So the result reaches the first address exactly when that one was
/// aligned, and lies below it when it was not.
pub proof fn lemma_align_up_of_rounded_down(addr: u64, align: u64)
    requires
        is_canonical(addr),
        is_power_of_two(align),
    ensures
        canonical_align_up(canonical_align_down(addr, align), align) == canonical_align_down(
            addr,
            align,
        ),
        canonical_is_aligned(addr, align) ==> canonical_align_up(
            canonical_align_down(addr, align),
            align,
        ) >= addr,
{
    let down = canonical_align_down(addr, align);
    lemma_sign_extend_fixes_canonical(spec_align_down(addr, align) as u64);
    lemma_align_down_is_aligned(addr, align);
    lemma_align_up_of_aligned(down, align);
}

impl PhyAddr {
    /// Wraps a value that fits in the 52 implemented bits.
    pub fn new(addr: u64) -> (r: PhyAddr)
        requires
            addr < PHYSICAL_SPACE_SIZE,
        ensures
            r@ == addr,
    {
        PhyAddr(addr)
    }

    /// The wrapped value.
    pub fn as_u64(self) -> (r: u64)
        ensures
            r == self@,
    {
        self.0
    }
}

} // verus!
