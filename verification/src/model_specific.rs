//! Model-specific registers.
//!
//! The instructions that read and write a register move its 64 bits as two
//! halves. Executing them is the caller's business. What is here joins and
//! splits the halves, decodes the word of each known register into a
//! structured value, and computes the word to write for a structured value.

use crate::addr::{
    is_canonical, lemma_mask_is_round, lemma_power_of_two_4096, lemma_sign_extend_fixes_canonical,
    VirtualAddr,
};
use crate::rflags::RFlags;
use crate::segmentation::SegmentSelector;
use crate::structures::page::{Page, PAGE_SIZE};
use crate::PrivilegeLevel;
use vstd::prelude::*;

verus! {

/// The 64-bit word whose upper half is `high` and whose lower half is `low`.
pub open spec fn join_halves(low: u32, high: u32) -> u64 {
    ((high as u64) << 32) | (low as u64)
}

/// Splitting a word into halves and joining them gives the word, and the
/// halves of a joined word are the halves it was made of.
pub proof fn lemma_halves(value: u64, low: u32, high: u32)
    by (bit_vector)
    ensures
        (((value >> 32) as u32 as u64) << 32) | (value as u32 as u64) == value,
        ((((high as u64) << 32) | (low as u64)) >> 32) as u32 == high,
        (((high as u64) << 32) | (low as u64)) as u32 == low,
{
}

/// A model-specific register, known by its index.
#[derive(Debug, Clone, Copy, PartialEq, Eq, Structural)]
pub struct Msr(u32);

impl View for Msr {
    type V = u32;

    closed spec fn view(&self) -> u32 {
        self.0
    }
}

impl Msr {
    /// The register with index `reg`.
    pub fn new(reg: u32) -> (r: Msr)
        ensures
            r@ == reg,
    {
        Msr(reg)
    }

    /// The index of the register.
    pub fn index(&self) -> (r: u32)
        ensures
            r == self@,
    {
        self.0
    }

    /// The value of the register, from the two halves that the read
    /// instruction delivered.
    pub fn read(&self, low: u32, high: u32) -> (r: u64)
        ensures
            r == join_halves(low, high),
    {
        ((high as u64) << 32) | (low as u64)
    }

    /// The two halves to hand to the write instruction for `value`: the low
    /// one first.
    pub fn write(&self, value: u64) -> (r: (u32, u32))
        ensures
            join_halves(r.0, r.1) == value,
            r.0 == value as u32,
            r.1 == (value >> 32) as u32,
    {
        proof {
            lemma_halves(value, 0, 0);
        }
        let low = value as u32;
        let high = (value >> 32) as u32;
        (low, high)
    }
}

/// The extended feature enable register.
#[derive(Debug)]
pub struct Efer;

/// The base of the FS segment.
#[derive(Debug)]
pub struct FsBase;

/// The base of the GS segment. The swap instruction exchanges it with
/// `KernelGsBase`.
#[derive(Debug)]
pub struct GsBase;

/// The kernel's GS base. The swap instruction exchanges it with `GsBase`.
#[derive(Debug)]
pub struct KernelGsBase;

/// The segment selectors of the fast system call instructions.
#[derive(Debug)]
pub struct Star;

/// The entry point of the fast system call in long mode.
#[derive(Debug)]
pub struct LStar;

/// The flags that the fast system call clears on entry.
#[derive(Debug)]
pub struct SFMask;

/// Control-flow enforcement in user mode.
#[derive(Debug)]
pub struct Ucet;

/// Control-flow enforcement in supervisor mode.
#[derive(Debug)]
pub struct Scet;

/// The base register of the local interrupt controller.
#[derive(Debug)]
pub struct ApicBase;

/// The named bits of the extended feature enable register.
///
/// The word may hold bits without a name; they are kept as they came.
#[derive(Debug, Clone, Copy, PartialEq, Eq, Structural)]
pub struct EferFlags {
    pub bits: u64,
}

impl View for EferFlags {
    type V = u64;

    open spec fn view(&self) -> u64 {
        self.bits
    }
}

impl EferFlags {
    /// The fast system call instructions are on.
    pub const SYSTEM_CALL_EXTENSIONS: u64 = 1;

    /// Long mode starts when paging is switched on.
    pub const LONG_MODE_ENABLE: u64 = 1 << 8;

    /// The processor runs in long mode.
    pub const LONG_MODE_ACTIVE: u64 = 1 << 10;

    /// The no-execute bit of page-table entries is honoured.
    pub const NO_EXECUTE_ENABLE: u64 = 1 << 11;

    /// The secure virtual machine extension is on.
    pub const SECURE_VIRTUAL_MACHINE_ENABLE: u64 = 1 << 12;

    /// Segment limits are checked in long mode.
    pub const LONG_MODE_SEGMENT_ENABLE: u64 = 1 << 13;

    /// Floating-point state is saved and restored the fast way.
    pub const FAST_FXSAVE_FXRSTOR: u64 = 1 << 14;

    /// The translation cache extension is on.
    pub const TRANSLATION_CACHE_EXTENSION: u64 = 1 << 15;

    /// Every named bit of the register.
    pub const ALL: u64 = 0xfd01;

    /// The set without any bit.
    pub fn empty() -> (r: Self)
        ensures
            r@ == 0,
    {
        EferFlags { bits: 0 }
    }

    /// The set of all named bits.
    pub fn all() -> (r: Self)
        ensures
            r@ == Self::ALL,
    {
        EferFlags { bits: Self::ALL }
    }

    /// The word that holds the set.
    pub fn bits(&self) -> (r: u64)
        ensures
            r == self@,
    {
        self.bits
    }

    /// The set that a word holds, provided that each of its bits has a name.
    pub fn from_bits(bits: u64) -> (r: Option<Self>)
        ensures
            bits & !Self::ALL == 0 ==> r.is_some() && r.unwrap()@ == bits,
            bits & !Self::ALL != 0 ==> r.is_none(),
    {
        if bits & !Self::ALL == 0 {
            Some(EferFlags { bits })
        } else {
            None
        }
    }

    /// The named bits of a word; the others are dropped.
    pub fn from_bits_truncate(bits: u64) -> (r: Self)
        ensures
            r@ == bits & Self::ALL,
    {
        EferFlags { bits: bits & Self::ALL }
    }

    /// All bits of a word, named or not.
    pub fn from_bits_retain(bits: u64) -> (r: Self)
        ensures
            r@ == bits,
    {
        EferFlags { bits }
    }

    /// Whether no bit is set.
    pub fn is_empty(&self) -> (r: bool)
        ensures
            r == (self@ == 0),
    {
        self.bits == 0
    }

    /// Whether every bit of `other` is set in `self`.
    pub fn contains(&self, other: Self) -> (r: bool)
        ensures
            r == (self@ & other@ == other@),
    {
        self.bits & other.bits == other.bits
    }

    /// Sets the bits of `other`.
    pub fn insert(&mut self, other: Self)
        ensures
            final(self)@ == old(self)@ | other@,
    {
        self.bits = self.bits | other.bits;
    }

    /// Clears the bits of `other`.
    pub fn remove(&mut self, other: Self)
        ensures
            final(self)@ == old(self)@ & !other@,
    {
        self.bits = self.bits & !other.bits;
    }
}

/// The named bits of the control-flow enforcement registers.
///
/// The word may hold bits without a name; they are kept as they came.
#[derive(Debug, Clone, Copy, PartialEq, Eq, Structural)]
pub struct CetFlags {
    pub bits: u64,
}

impl View for CetFlags {
    type V = u64;

    open spec fn view(&self) -> u64 {
        self.bits
    }
}

impl CetFlags {
    /// Shadow stacks are on.
    pub const SS_ENABLE: u64 = 1;

    /// The instruction that writes to shadow stacks is allowed.
    pub const SS_WRITE_ENABLE: u64 = 1 << 1;

    /// Indirect branches are tracked.
    pub const IBT_ENABLE: u64 = 1 << 2;

    /// Code without branch marks is handled by the legacy bitmap.
    pub const IBT_LEGACY_ENABLE: u64 = 1 << 3;

    /// The prefix that exempts a branch from tracking is honoured.
    pub const IBT_NO_TRACK_ENABLE: u64 = 1 << 4;

    /// Tracking can be suppressed for code without branch marks.
    pub const IBT_LEGACY_SUPPRESS_ENABLE: u64 = 1 << 5;

    /// Tracking is suppressed now.
    pub const IBT_LEGACY_SUPREME_ENABLE: u64 = 1 << 10;

    /// The tracker waits for a branch mark.
    pub const IBT_TRACKED: u64 = 1 << 11;

    /// Every named bit of the registers.
    pub const ALL: u64 = 0xc3f;

    /// The set without any bit.
    pub fn empty() -> (r: Self)
        ensures
            r@ == 0,
    {
        CetFlags { bits: 0 }
    }

    /// The set of all named bits.
    pub fn all() -> (r: Self)
        ensures
            r@ == Self::ALL,
    {
        CetFlags { bits: Self::ALL }
    }

    /// The word that holds the set.
    pub fn bits(&self) -> (r: u64)
        ensures
            r == self@,
    {
        self.bits
    }

    /// The set that a word holds, provided that each of its bits has a name.
    pub fn from_bits(bits: u64) -> (r: Option<Self>)
        ensures
            bits & !Self::ALL == 0 ==> r.is_some() && r.unwrap()@ == bits,
            bits & !Self::ALL != 0 ==> r.is_none(),
    {
        if bits & !Self::ALL == 0 {
            Some(CetFlags { bits })
        } else {
            None
        }
    }

    /// The named bits of a word; the others are dropped.
    pub fn from_bits_truncate(bits: u64) -> (r: Self)
        ensures
            r@ == bits & Self::ALL,
    {
        CetFlags { bits: bits & Self::ALL }
    }

    /// All bits of a word, named or not.
    pub fn from_bits_retain(bits: u64) -> (r: Self)
        ensures
            r@ == bits,
    {
        CetFlags { bits }
    }

    /// Whether no bit is set.
    pub fn is_empty(&self) -> (r: bool)
        ensures
            r == (self@ == 0),
    {
        self.bits == 0
    }

    /// Whether every bit of `other` is set in `self`.
    pub fn contains(&self, other: Self) -> (r: bool)
        ensures
            r == (self@ & other@ == other@),
    {
        self.bits & other.bits == other.bits
    }

    /// Sets the bits of `other`.
    pub fn insert(&mut self, other: Self)
        ensures
            final(self)@ == old(self)@ | other@,
    {
        self.bits = self.bits | other.bits;
    }

    /// Clears the bits of `other`.
    pub fn remove(&mut self, other: Self)
        ensures
            final(self)@ == old(self)@ & !other@,
    {
        self.bits = self.bits & !other.bits;
    }
}

/// The named bits of the interrupt controller's base register.
///
/// The word may hold bits without a name; they are kept as they came.
#[derive(Debug, Clone, Copy, PartialEq, Eq, Structural)]
pub struct ApicBaseFlags {
    pub bits: u64,
}

impl View for ApicBaseFlags {
    type V = u64;

    open spec fn view(&self) -> u64 {
        self.bits
    }
}

impl ApicBaseFlags {
    /// This processor is the one that boots the machine.
    pub const BSP: u64 = 1 << 8;

    /// The interrupt controller runs in its extended mode.
    pub const X2APIC_ENABLE: u64 = 1 << 10;

    /// The interrupt controller is on.
    pub const LAPIC_ENABLE: u64 = 1 << 11;

    /// Every named bit of the register.
    pub const ALL: u64 = 0xd00;

    /// The set without any bit.
    pub fn empty() -> (r: Self)
        ensures
            r@ == 0,
    {
        ApicBaseFlags { bits: 0 }
    }

    /// The set of all named bits.
    pub fn all() -> (r: Self)
        ensures
            r@ == Self::ALL,
    {
        ApicBaseFlags { bits: Self::ALL }
    }

    /// The word that holds the set.
    pub fn bits(&self) -> (r: u64)
        ensures
            r == self@,
    {
        self.bits
    }

    /// The set that a word holds, provided that each of its bits has a name.
    pub fn from_bits(bits: u64) -> (r: Option<Self>)
        ensures
            bits & !Self::ALL == 0 ==> r.is_some() && r.unwrap()@ == bits,
            bits & !Self::ALL != 0 ==> r.is_none(),
    {
        if bits & !Self::ALL == 0 {
            Some(ApicBaseFlags { bits })
        } else {
            None
        }
    }

    /// The named bits of a word; the others are dropped.
    pub fn from_bits_truncate(bits: u64) -> (r: Self)
        ensures
            r@ == bits & Self::ALL,
    {
        ApicBaseFlags { bits: bits & Self::ALL }
    }

    /// All bits of a word, named or not.
    pub fn from_bits_retain(bits: u64) -> (r: Self)
        ensures
            r@ == bits,
    {
        ApicBaseFlags { bits }
    }

    /// Whether no bit is set.
    pub fn is_empty(&self) -> (r: bool)
        ensures
            r == (self@ == 0),
    {
        self.bits == 0
    }

    /// Whether every bit of `other` is set in `self`.
    pub fn contains(&self, other: Self) -> (r: bool)
        ensures
            r == (self@ & other@ == other@),
    {
        self.bits & other.bits == other.bits
    }

    /// Sets the bits of `other`.
    pub fn insert(&mut self, other: Self)
        ensures
            final(self)@ == old(self)@ | other@,
    {
        self.bits = self.bits | other.bits;
    }

    /// Clears the bits of `other`.
    pub fn remove(&mut self, other: Self)
        ensures
            final(self)@ == old(self)@ & !other@,
    {
        self.bits = self.bits & !other.bits;
    }
}

/// The word to store in a register so that the bits in `known` become
/// `flags` while the other bits stay as they are in `current`.
pub open spec fn merge_reserved(current: u64, known: u64, flags: u64) -> u64 {
    (current & !known) | flags
}

impl Efer {
    /// The index of the register.
    pub const MSR: u32 = 0xC000_0080;

    /// Decodes the word that was read from the register: its named bits.
    pub fn read(raw: u64) -> (r: EferFlags)
        ensures
            r@ == raw & EferFlags::ALL,
    {
        EferFlags::from_bits_truncate(raw)
    }

    /// Computes the word to store for `flags`, given the word `current`
    /// that the register holds now: the bits without a name are taken from
    /// `current`.
    pub fn write(current: u64, flags: EferFlags) -> (r: u64)
        ensures
            r == merge_reserved(current, EferFlags::ALL, flags@),
    {
        let reserved: u64 = current & !EferFlags::ALL;
        reserved | flags.bits()
    }

    /// Read, modify, write: decodes `current`, lets `f` change the flags,
    /// and computes the word to store.
    pub fn update<F: FnOnce(EferFlags) -> EferFlags>(current: u64, f: F) -> (r: u64)
        requires
            f.requires((EferFlags { bits: current & EferFlags::ALL },)),
        ensures
            exists|flags: EferFlags|
                f.ensures((EferFlags { bits: current & EferFlags::ALL },), flags) && r
                    == merge_reserved(current, EferFlags::ALL, flags@),
    {
        let flags = f(Self::read(current));
        Self::write(current, flags)
    }
}

impl FsBase {
    /// The index of the register.
    pub const MSR: u32 = 0xC000_0100;

    /// Decodes the word that was read from the register: an address.
    pub fn read(raw: u64) -> (r: VirtualAddr)
        requires
            is_canonical(raw),
        ensures
            r@ == raw,
    {
        VirtualAddr::new(raw)
    }

    /// The word to store for `address`.
    pub fn write(address: VirtualAddr) -> (r: u64)
        ensures
            r == address@,
    {
        address.as_u64()
    }
}

impl GsBase {
    /// The index of the register.
    pub const MSR: u32 = 0xC000_0101;

    /// Decodes the word that was read from the register: an address.
    pub fn read(raw: u64) -> (r: VirtualAddr)
        requires
            is_canonical(raw),
        ensures
            r@ == raw,
    {
        VirtualAddr::new(raw)
    }

    /// The word to store for `address`.
    pub fn write(address: VirtualAddr) -> (r: u64)
        ensures
            r == address@,
    {
        address.as_u64()
    }
}

impl KernelGsBase {
    /// The index of the register.
    pub const MSR: u32 = 0xC000_0102;

    /// Decodes the word that was read from the register: an address.
    pub fn read(raw: u64) -> (r: VirtualAddr)
        requires
            is_canonical(raw),
        ensures
            r@ == raw,
    {
        VirtualAddr::new(raw)
    }

    /// The word to store for `address`.
    pub fn write(address: VirtualAddr) -> (r: u64)
        ensures
            r == address@,
    {
        address.as_u64()
    }
}

impl LStar {
    /// The index of the register.
    pub const MSR: u32 = 0xC000_0082;

    /// Decodes the word that was read from the register: the address of
    /// the system call entry.
    pub fn read(raw: u64) -> (r: VirtualAddr)
        requires
            is_canonical(raw),
        ensures
            r@ == raw,
    {
        VirtualAddr::new(raw)
    }

    /// The word to store for `address`.
    pub fn write(address: VirtualAddr) -> (r: u64)
        ensures
            r == address@,
    {
        address.as_u64()
    }
}

impl Scet {
    /// The index of the register.
    pub const MSR: u32 = 0x6A2;
}

impl ApicBase {
    /// The index of the register.
    pub const MSR: u32 = 0x1B;
}

impl SFMask {
    /// The index of the register.
    pub const MSR: u32 = 0xC000_0084;

    /// Decodes the word that was read from the register. Every bit of it
    /// has to be a named flag.
    pub fn read(raw: u64) -> (r: RFlags)
        requires
            raw & !RFlags::ALL == 0,
        ensures
            r@ == raw,
    {
        RFlags::from_bits_retain(raw)
    }

    /// The word to store for `value`: the flags to clear on a system call.
    pub fn write(value: RFlags) -> (r: u64)
        ensures
            r == value@,
    {
        value.bits()
    }

    /// Read, modify, write: decodes `current`, lets `f` change the flags,
    /// and gives the word to store.
    pub fn update<F: FnOnce(RFlags) -> RFlags>(current: u64, f: F) -> (r: u64)
        requires
            current & !RFlags::ALL == 0,
            f.requires((RFlags { bits: current },)),
        ensures
            exists|flags: RFlags| f.ensures((RFlags { bits: current },), flags) && r == flags@,
    {
        let flags = f(Self::read(current));
        Self::write(flags)
    }
}


/// Why four selectors cannot go into the system call selector register.
#[derive(Debug, Clone, Copy, PartialEq, Eq, Structural)]
pub enum InvalidStarSegmentSelectors {
    /// The code and stack selectors for the return are not 8 apart.
    SysretOffset,
    /// The code and stack selectors for the call are not 8 apart.
    SyscallOffset,
    /// The selectors for the return are not of ring 3.
    SysretPrivilegeLevel,
    /// The selectors for the call are not of ring 0.
    SyscallPrivilegeLevel,
}

/// The word of the register for its two fields: the base selector for the
/// return in bits 48 to 63, the one for the call in bits 32 to 47.
pub open spec fn star_word(sysret: u16, syscall: u16) -> u64 {
    ((sysret as u64) << 48) | ((syscall as u64) << 32)
}

/// The base selector for the return: bits 48 to 63 of the word.
pub open spec fn star_sysret(raw: u64) -> u16 {
    (raw >> 48) as u16
}

/// The base selector for the call: bits 32 to 47 of the word.
pub open spec fn star_syscall(raw: u64) -> u16 {
    (raw >> 32) as u16
}

/// The two fields come back out of the word they were packed into.
pub proof fn lemma_star_fields(sysret: u16, syscall: u16)
    by (bit_vector)
    ensures
        ((((sysret as u64) << 48) | ((syscall as u64) << 32)) >> 48) as u16 == sysret,
        ((((sysret as u64) << 48) | ((syscall as u64) << 32)) >> 32) as u16 == syscall,
{
}

/// The first rule that four selectors break, if they break one. The
/// processor derives the selectors for the return from one base: the stack
/// selector is the base plus 8, the code selector the base plus 16; for
/// the call the code selector is the base and the stack selector the base
/// plus 8. So each pair has to be 8 apart. The selectors for the return
/// have to ask for ring 3, those for the call for ring 0.
pub open spec fn star_error(
    cs_sysret: SegmentSelector,
    ss_sysret: SegmentSelector,
    cs_syscall: SegmentSelector,
    ss_syscall: SegmentSelector,
) -> Option<InvalidStarSegmentSelectors> {
    if cs_sysret@ - 16 != ss_sysret@ - 8 {
        Some(InvalidStarSegmentSelectors::SysretOffset)
    } else if cs_syscall@ != ss_syscall@ - 8 {
        Some(InvalidStarSegmentSelectors::SyscallOffset)
    } else if ss_sysret.spec_rpl() != PrivilegeLevel::Ring3 {
        Some(InvalidStarSegmentSelectors::SysretPrivilegeLevel)
    } else if ss_syscall.spec_rpl() != PrivilegeLevel::Ring0 {
        Some(InvalidStarSegmentSelectors::SyscallPrivilegeLevel)
    } else {
        None
    }
}

impl Star {
    /// The index of the register.
    pub const MSR: u32 = 0xC000_0081;

    /// The two fields of the word that was read from the register: the
    /// base selector for the return, then the one for the call.
    pub fn read_raw(raw: u64) -> (r: (u16, u16))
        ensures
            r.0 == star_sysret(raw),
            r.1 == star_syscall(raw),
    {
        let sysret = (raw >> 48) as u16;
        let syscall = (raw >> 32) as u16;
        (sysret, syscall)
    }

    /// Decodes the word that was read from the register into the code and
    /// stack selectors for the return and the code and stack selectors for
    /// the call. The selectors derived from the bases have to fit in 16
    /// bits.
    pub fn read(raw: u64) -> (r: (
        SegmentSelector,
        SegmentSelector,
        SegmentSelector,
        SegmentSelector,
    ))
        requires
            star_sysret(raw) + 16 <= u16::MAX,
            star_syscall(raw) + 8 <= u16::MAX,
        ensures
            r.0@ == star_sysret(raw) + 16,
            r.1@ == star_sysret(raw) + 8,
            r.2@ == star_syscall(raw),
            r.3@ == star_syscall(raw) + 8,
    {
        let raw = Self::read_raw(raw);
        (
            SegmentSelector(raw.0 + 16),
            SegmentSelector(raw.0 + 8),
            SegmentSelector(raw.1),
            SegmentSelector(raw.1 + 8),
        )
    }

    /// The word to store for the two base selectors.
    pub fn write_raw(sysret: u16, syscall: u16) -> (r: u64)
        ensures
            r == star_word(sysret, syscall),
            star_sysret(r) == sysret,
            star_syscall(r) == syscall,
    {
        proof {
            lemma_star_fields(sysret, syscall);
        }
        ((sysret as u64) << 48) | ((syscall as u64) << 32)
    }

    /// Checks the four selectors and computes the word to store for them.
    /// The first broken rule is the error. Selectors that pass have to
    /// leave room for the base below the stack selector for the return.
    pub fn write(
        cs_sysret: SegmentSelector,
        ss_sysret: SegmentSelector,
        cs_syscall: SegmentSelector,
        ss_syscall: SegmentSelector,
    ) -> (r: Result<u64, InvalidStarSegmentSelectors>)
        requires
            star_error(cs_sysret, ss_sysret, cs_syscall, ss_syscall).is_none() ==> ss_sysret@ >= 8,
        ensures
            r == match star_error(cs_sysret, ss_sysret, cs_syscall, ss_syscall) {
                Some(e) => Err::<u64, InvalidStarSegmentSelectors>(e),
                None => Ok::<u64, InvalidStarSegmentSelectors>(
                    star_word((ss_sysret@ - 8) as u16, cs_syscall@),
                ),
            },
    {
        let cs_sysret_base: i32 = cs_sysret.0 as i32 - 16;
        let ss_sysret_base: i32 = ss_sysret.0 as i32 - 8;
        let cs_syscall_base: i32 = cs_syscall.0 as i32;
        let ss_syscall_base: i32 = ss_syscall.0 as i32 - 8;
        if cs_sysret_base != ss_sysret_base {
            return Err(InvalidStarSegmentSelectors::SysretOffset);
        }
        if cs_syscall_base != ss_syscall_base {
            return Err(InvalidStarSegmentSelectors::SyscallOffset);
        }
        if ss_sysret.rpl() != PrivilegeLevel::Ring3 {
            return Err(InvalidStarSegmentSelectors::SysretPrivilegeLevel);
        }
        if ss_syscall.rpl() != PrivilegeLevel::Ring0 {
            return Err(InvalidStarSegmentSelectors::SyscallPrivilegeLevel);
        }
        Ok(Self::write_raw(ss_sysret.0 - 8, cs_syscall.0))
    }

    /// Tells whether `write` can be called with the four selectors: whether
    /// they break a rule, or leave room for the base.
    pub fn writable(
        cs_sysret: SegmentSelector,
        ss_sysret: SegmentSelector,
        cs_syscall: SegmentSelector,
        ss_syscall: SegmentSelector,
    ) -> (r: bool)
        ensures
            r == (star_error(cs_sysret, ss_sysret, cs_syscall, ss_syscall).is_none() ==> ss_sysret@
                >= 8),
    {
        if ss_sysret.0 >= 8 {
            return true;
        }
        cs_sysret.0 as i32 - 16 != ss_sysret.0 as i32 - 8 || cs_syscall.0 as i32 != ss_syscall.0 as i32
            - 8 || ss_sysret.rpl() != PrivilegeLevel::Ring3 || ss_syscall.rpl()
            != PrivilegeLevel::Ring0
    }
}

/// Four selectors that pass the checks come back from the word that was
/// computed for them.
pub proof fn lemma_star_round_trip(
    cs_sysret: SegmentSelector,
    ss_sysret: SegmentSelector,
    cs_syscall: SegmentSelector,
    ss_syscall: SegmentSelector,
)
    requires
        star_error(cs_sysret, ss_sysret, cs_syscall, ss_syscall).is_none(),
        ss_sysret@ >= 8,
    ensures
        ({
            let word = star_word((ss_sysret@ - 8) as u16, cs_syscall@);
            &&& star_sysret(word) + 16 == cs_sysret@
            &&& star_sysret(word) + 8 == ss_sysret@
            &&& star_syscall(word) == cs_syscall@
            &&& star_syscall(word) + 8 == ss_syscall@
        }),
{
    lemma_star_fields((ss_sysret@ - 8) as u16, cs_syscall@);
}

/// The bits of a control-flow enforcement register that hold the address
/// of the legacy bitmap: all but the low twelve.
pub open spec fn bitmap_address(raw: u64) -> u64 {
    raw & !0xfffu64
}

impl Ucet {
    /// The index of the register.
    pub const MSR: u32 = 0x6A0;

    /// Decodes the word that was read from the register: the named flags,
    /// and the page of the legacy bitmap, whose address has to be
    /// canonical.
    pub fn read(raw: u64) -> (r: (CetFlags, Page))
        requires
            is_canonical(bitmap_address(raw)),
        ensures
            r.0@ == raw & CetFlags::ALL,
            r.1@ == bitmap_address(raw),
    {
        let cet_flags = CetFlags::from_bits_truncate(raw);
        let start: u64 = raw & !(PAGE_SIZE - 1);
        proof {
            lemma_power_of_two_4096();
            lemma_mask_is_round(start, PAGE_SIZE);
            lemma_sign_extend_fixes_canonical(start);
            assert((raw & !0xfffu64) & !0xfffu64 == raw & !0xfffu64) by (bit_vector);
        }
        match Page::from_start_address(VirtualAddr::new(start)) {
            Ok(legacy_bitmap) => (cet_flags, legacy_bitmap),
            Err(_) => vstd::pervasive::unreached(),
        }
    }

    /// The word to store for the flags and the page of the legacy bitmap.
    pub fn write(flags: CetFlags, legacy_bitmap: Page) -> (r: u64)
        ensures
            r == flags@ | legacy_bitmap@,
    {
        flags.bits() | legacy_bitmap.start_address().as_u64()
    }

    /// Read, modify, write: decodes `current`, lets `f` change the flags
    /// and the page, and computes the word to store.
    pub fn update<F: FnOnce(CetFlags, Page) -> (CetFlags, Page)>(current: u64, f: F) -> (r: u64)
        requires
            is_canonical(bitmap_address(current)),
            forall|page: Page|
                page@ == bitmap_address(current) ==> f.requires(
                    (CetFlags { bits: current & CetFlags::ALL }, page),
                ),
        ensures
            exists|page: Page, out: (CetFlags, Page)|
                page@ == bitmap_address(current) && f.ensures(
                    (CetFlags { bits: current & CetFlags::ALL }, page),
                    out,
                ) && r == out.0@ | out.1@,
    {
        let (flags, legacy_bitmap) = Self::read(current);
        let out = f(flags, legacy_bitmap);
        Self::write(out.0, out.1)
    }
}

} // verus!
