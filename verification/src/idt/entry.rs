//! Gate descriptors: the entries of the interrupt descriptor table.

use crate::addr::{is_canonical, lemma_sign_extend_fixes_canonical, sign_extend_48, VirtualAddr};
use crate::segmentation::SegmentSelector;
use crate::PrivilegeLevel;
use core::marker::PhantomData;
use vstd::prelude::*;

verus! {

/// The options word of a gate that is not in use: an interrupt gate, not
/// present, ring 0, no stack switch.
pub const MINIMAL_OPTIONS: u16 = 0x0e00;

/// Whether the present bit, bit 15, is set.
pub open spec fn options_present(bits: u16) -> bool {
    bits & 0x8000 != 0
}

/// Whether bit 8 is clear, so that the descriptor is an interrupt gate and
/// the processor masks interrupts when it enters the handler.
pub open spec fn options_interrupts_disabled(bits: u16) -> bool {
    bits & 0x0100 == 0
}

/// The descriptor privilege level, bits 13 and 14.
pub open spec fn options_privilege_level(bits: u16) -> PrivilegeLevel {
    PrivilegeLevel::spec_from_bits((bits >> 13) & 3)
}

/// The stack field, bits 0 to 2: zero for no switch, else one more than the
/// index of the stack in the interrupt stack table.
pub open spec fn options_stack_field(bits: u16) -> u16 {
    bits & 7
}

/// The selector and the options word of a gate descriptor.
#[derive(Clone, Copy, Debug, PartialEq, Eq, Structural)]
pub struct EntryOptions {
    cs: SegmentSelector,
    bits: u16,
}

/// What an `EntryOptions` holds.
pub struct EntryOptionsView {
    /// The code segment that the handler runs in.
    pub code_selector: u16,
    /// The options word.
    pub bits: u16,
}

impl View for EntryOptions {
    type V = EntryOptionsView;

    closed spec fn view(&self) -> EntryOptionsView {
        EntryOptionsView { code_selector: self.cs@, bits: self.bits }
    }
}

impl EntryOptionsView {
    /// Whether the descriptor is present.
    pub open spec fn present(self) -> bool {
        options_present(self.bits)
    }

    /// Whether interrupts are masked on entry.
    pub open spec fn interrupts_disabled(self) -> bool {
        options_interrupts_disabled(self.bits)
    }

    /// The ring that may call the descriptor by an instruction.
    pub open spec fn privilege_level(self) -> PrivilegeLevel {
        options_privilege_level(self.bits)
    }

    /// The index of the stack to switch to, if any.
    pub open spec fn stack_index(self) -> Option<u16> {
        if options_stack_field(self.bits) == 0 {
            None
        } else {
            Some((options_stack_field(self.bits) - 1) as u16)
        }
    }
}

/// Setting or clearing one bit of the options word leaves the other fields
/// as they were.
pub proof fn lemma_options_bit(bits: u16)
    by (bit_vector)
    ensures
        (bits | 0x8000) & 0x8000 != 0,
        (bits & !0x8000u16) & 0x8000 == 0,
        (bits | 0x8000) & 0x7fff == bits & 0x7fff,
        (bits & !0x8000u16) & 0x7fff == bits & 0x7fff,
        (bits | 0x8000) & 0x0100 == bits & 0x0100,
        (bits & !0x8000u16) & 0x0100 == bits & 0x0100,
        (bits | 0x8000) & 7 == bits & 7,
        (bits & !0x8000u16) & 7 == bits & 7,
        ((bits | 0x8000) >> 13) & 3 == (bits >> 13) & 3,
        ((bits & !0x8000u16) >> 13) & 3 == (bits >> 13) & 3,
        (bits | 0x0100) & 0x0100 != 0,
        (bits & !0x0100u16) & 0x0100 == 0,
        (bits | 0x0100) & 0x8000 == bits & 0x8000,
        (bits & !0x0100u16) & 0x8000 == bits & 0x8000,
        (bits | 0x0100) & 7 == bits & 7,
        (bits & !0x0100u16) & 7 == bits & 7,
        ((bits | 0x0100) >> 13) & 3 == (bits >> 13) & 3,
        ((bits & !0x0100u16) >> 13) & 3 == (bits >> 13) & 3,
        (bits >> 13) & 3 <= 3,
        bits & 7 <= 7,
{
}

/// Replacing the privilege level or the stack field of the options word
/// leaves the other fields as they were.
pub proof fn lemma_options_field(bits: u16, value: u16)
    by (bit_vector)
    requires
        value <= 7,
    ensures
        value <= 3 ==> (((bits & !0x6000u16) | (value << 13)) >> 13) & 3 == value,
        value <= 3 ==> ((bits & !0x6000u16) | (value << 13)) & 0x9fff == bits & 0x9fff,
        value <= 3 ==> ((bits & !0x6000u16) | (value << 13)) & 0x8000 == bits & 0x8000,
        value <= 3 ==> ((bits & !0x6000u16) | (value << 13)) & 0x0100 == bits & 0x0100,
        value <= 3 ==> ((bits & !0x6000u16) | (value << 13)) & 7 == bits & 7,
        ((bits & !7u16) | value) & 7 == value,
        ((bits & !7u16) | value) & 0xfff8 == bits & 0xfff8,
        ((bits & !7u16) | value) & 0x8000 == bits & 0x8000,
        ((bits & !7u16) | value) & 0x0100 == bits & 0x0100,
        (((bits & !7u16) | value) >> 13) & 3 == (bits >> 13) & 3,
{
}

impl EntryOptions {
    /// The options of a gate that is not in use.
    pub fn minimal() -> (r: Self)
        ensures
            r@.code_selector == 0,
            r@.bits == MINIMAL_OPTIONS,
            !r@.present(),
            r@.interrupts_disabled(),
            r@.privilege_level() == PrivilegeLevel::Ring0,
            r@.stack_index().is_none(),
    {
        assert(0x0e00u16 & 0x8000 == 0 && 0x0e00u16 & 0x0100 == 0 && (0x0e00u16 >> 13) & 3 == 0
            && 0x0e00u16 & 7 == 0) by (bit_vector);
        EntryOptions { cs: SegmentSelector(0), bits: 0x0e00 }
    }

    /// Names the code segment that the handler runs in. The caller answers
    /// for its being a 64-bit code segment.
    pub fn set_code_selector(&mut self, cs: SegmentSelector) -> (r: &mut Self)
        ensures
            r@ == (EntryOptionsView { code_selector: cs@, bits: old(self)@.bits }),
            *final(self) == *final(r),
    {
        self.cs = cs;
        self
    }

    /// Sets or clears the present bit.
    pub fn set_present(&mut self, present: bool) -> (r: &mut Self)
        ensures
            r@.bits == if present {
                old(self)@.bits | 0x8000
            } else {
                old(self)@.bits & !0x8000u16
            },
            r@.code_selector == old(self)@.code_selector,
            r@.present() == present,
            r@.interrupts_disabled() == old(self)@.interrupts_disabled(),
            r@.privilege_level() == old(self)@.privilege_level(),
            r@.stack_index() == old(self)@.stack_index(),
            *final(self) == *final(r),
    {
        proof {
            lemma_options_bit(self.bits);
        }
        if present {
            self.bits = self.bits | 0x8000;
        } else {
            self.bits = self.bits & !0x8000u16;
        }
        self
    }

    /// Whether the descriptor is present.
    pub fn present(&self) -> (r: bool)
        ensures
            r == self@.present(),
    {
        self.bits & 0x8000 != 0
    }

    /// Chooses whether the processor masks interrupts when it enters the
    /// handler. Bit 8 of the word is the inverse: set, it leaves them on.
    pub fn disable_interrupts(&mut self, disable: bool) -> (r: &mut Self)
        ensures
            r@.bits == if disable {
                old(self)@.bits & !0x0100u16
            } else {
                old(self)@.bits | 0x0100
            },
            r@.code_selector == old(self)@.code_selector,
            r@.interrupts_disabled() == disable,
            r@.present() == old(self)@.present(),
            r@.privilege_level() == old(self)@.privilege_level(),
            r@.stack_index() == old(self)@.stack_index(),
            *final(self) == *final(r),
    {
        proof {
            lemma_options_bit(self.bits);
        }
        if disable {
            self.bits = self.bits & !0x0100u16;
        } else {
            self.bits = self.bits | 0x0100;
        }
        self
    }

    /// Sets the ring that may call the descriptor by an instruction.
    pub fn set_privilege_level(&mut self, dpl: PrivilegeLevel) -> (r: &mut Self)
        ensures
            r@.bits == (old(self)@.bits & !0x6000u16) | (dpl.spec_bits() << 13),
            r@.code_selector == old(self)@.code_selector,
            r@.privilege_level() == dpl,
            r@.present() == old(self)@.present(),
            r@.interrupts_disabled() == old(self)@.interrupts_disabled(),
            r@.stack_index() == old(self)@.stack_index(),
            *final(self) == *final(r),
    {
        let ring: u16 = dpl.bits();
        proof {
            lemma_options_field(self.bits, ring);
        }
        self.bits = (self.bits & !0x6000u16) | (ring << 13);
        self
    }

    /// The ring that may call the descriptor by an instruction.
    pub fn privilege_level(&self) -> (r: PrivilegeLevel)
        ensures
            r == self@.privilege_level(),
    {
        proof {
            lemma_options_bit(self.bits);
        }
        PrivilegeLevel::from_u16((self.bits >> 13) & 3)
    }

    /// Makes the processor switch to stack `index` of the interrupt stack
    /// table when it enters the handler. The field holds `index + 1`, since
    /// zero stands for no switch; so there are seven stacks, 0 to 6. The
    /// caller answers for the stack being set up and used by no other gate.
    pub fn set_stack_index(&mut self, index: u16) -> (r: &mut Self)
        requires
            index < 7,
        ensures
            r@.bits == (old(self)@.bits & !7u16) | ((index + 1) as u16),
            r@.code_selector == old(self)@.code_selector,
            r@.stack_index() == Some(index),
            r@.present() == old(self)@.present(),
            r@.interrupts_disabled() == old(self)@.interrupts_disabled(),
            r@.privilege_level() == old(self)@.privilege_level(),
            *final(self) == *final(r),
    {
        proof {
            lemma_options_field(self.bits, (index + 1) as u16);
        }
        self.bits = (self.bits & !7u16) | (index + 1);
        self
    }

    /// The index of the stack that the processor switches to, if any.
    pub fn stack_index(&self) -> (r: Option<u16>)
        ensures
            r == self@.stack_index(),
    {
        proof {
            lemma_options_bit(self.bits);
        }
        (self.bits & 7).checked_sub(1)
    }

    /// The code segment that the handler runs in.
    pub fn code_selector(&self) -> (r: SegmentSelector)
        ensures
            r@ == self@.code_selector,
    {
        self.cs
    }

    /// The options word.
    pub fn bits(&self) -> (r: u16)
        ensures
            r == self@.bits,
    {
        self.bits
    }
}

/// What a gate descriptor holds.
pub struct EntryView {
    /// The 64-bit handler address that the three pointer fields spell.
    pub handler: u64,
    /// The selector and the options word.
    pub options: EntryOptionsView,
    /// The reserved field.
    pub reserved: u32,
}

impl EntryView {
    /// The handler address in canonical form.
    pub open spec fn handler_addr(self) -> u64 {
        sign_extend_48(self.handler)
    }
}

/// The 64-bit address that the pointer fields of a gate spell: bits 0 to 15,
/// bits 16 to 31 and bits 32 to 63.
pub open spec fn join_pointer(low: u16, middle: u16, high: u32) -> u64 {
    (low as u64) | ((middle as u64) << 16) | ((high as u64) << 32)
}

/// Splitting an address into the pointer fields and joining them again
/// gives the address.
pub proof fn lemma_split_join(addr: u64)
    by (bit_vector)
    ensures
        (addr as u16 as u64) | (((addr >> 16) as u16 as u64) << 16) | (((addr >> 32) as u32 as u64)
            << 32) == addr,
{
}

/// A canonical handler address that is split into the three pointer fields
/// of a gate comes back unchanged when the fields are joined and the
/// result is brought into canonical form.
pub proof fn lemma_handler_round_trip(addr: u64)
    requires
        is_canonical(addr),
    ensures
        join_pointer(addr as u16, (addr >> 16) as u16, (addr >> 32) as u32) == addr,
        sign_extend_48(join_pointer(addr as u16, (addr >> 16) as u16, (addr >> 32) as u32))
            == addr,
{
    lemma_split_join(addr);
    lemma_sign_extend_fixes_canonical(addr);
}

/// The two 64-bit words of a gate descriptor as the processor reads them,
/// low word first. From bit 0 up the low word holds bits 0 to 15 of the
/// handler address, the code selector, the options word and bits 16 to 31
/// of the address; the high word holds bits 32 to 63 of the address and
/// the reserved field.
pub open spec fn gate_words(gate: EntryView) -> (u64, u64) {
    (
        (gate.handler & 0xffff) | ((gate.options.code_selector as u64) << 16) | ((
        gate.options.bits as u64) << 32) | (((gate.handler >> 16) & 0xffff) << 48),
        (gate.handler >> 32) | ((gate.reserved as u64) << 32),
    )
}

/// The fields of a joined pointer are the fields it was joined from.
pub proof fn lemma_join_fields(low: u16, middle: u16, high: u32)
    by (bit_vector)
    ensures
        ((low as u64) | ((middle as u64) << 16) | ((high as u64) << 32)) & 0xffff == low as u64,
        (((low as u64) | ((middle as u64) << 16) | ((high as u64) << 32)) >> 16) & 0xffff
            == middle as u64,
        ((low as u64) | ((middle as u64) << 16) | ((high as u64) << 32)) >> 32 == high as u64,
{
}

/// Handlers that return and get no error code.
#[derive(Debug, Clone, Copy)]
pub struct HandlerFunc {
    addr: VirtualAddr,
}

/// Handlers that return and get an error code.
#[derive(Debug, Clone, Copy)]
pub struct HandlerFuncWithErrCode {
    addr: VirtualAddr,
}

/// Handlers of the page fault, which get a page-fault error code.
#[derive(Debug, Clone, Copy)]
pub struct PageFaultHandlerFunc {
    addr: VirtualAddr,
}

/// Handlers that never return and get no error code.
#[derive(Debug, Clone, Copy)]
pub struct DivergingHandlerFunc {
    addr: VirtualAddr,
}

/// Handlers that never return and get an error code.
#[derive(Debug, Clone, Copy)]
pub struct DivergingHandlerFuncWithErrCode {
    addr: VirtualAddr,
}

/// A kind of handler: a value of it stands for one handler function and
/// knows where that function's code starts.
pub trait HandlerFuncType: Sized {
    /// The address of the handler's first instruction.
    spec fn spec_addr(self) -> VirtualAddr;

    /// The address of the handler's first instruction.
    fn to_virt_addr(self) -> (r: VirtualAddr)
        ensures
            r == self.spec_addr(),
    ;
}

impl HandlerFunc {
    /// The handler whose code starts at `addr`.
    pub fn new(addr: VirtualAddr) -> (r: Self)
        ensures
            r.spec_addr() == addr,
    {
        HandlerFunc { addr }
    }
}

impl HandlerFuncType for HandlerFunc {
    closed spec fn spec_addr(self) -> VirtualAddr {
        self.addr
    }

    fn to_virt_addr(self) -> (r: VirtualAddr) {
        self.addr
    }
}

impl HandlerFuncWithErrCode {
    /// The handler whose code starts at `addr`.
    pub fn new(addr: VirtualAddr) -> (r: Self)
        ensures
            r.spec_addr() == addr,
    {
        HandlerFuncWithErrCode { addr }
    }
}

impl HandlerFuncType for HandlerFuncWithErrCode {
    closed spec fn spec_addr(self) -> VirtualAddr {
        self.addr
    }

    fn to_virt_addr(self) -> (r: VirtualAddr) {
        self.addr
    }
}

impl PageFaultHandlerFunc {
    /// The handler whose code starts at `addr`.
    pub fn new(addr: VirtualAddr) -> (r: Self)
        ensures
            r.spec_addr() == addr,
    {
        PageFaultHandlerFunc { addr }
    }
}

impl HandlerFuncType for PageFaultHandlerFunc {
    closed spec fn spec_addr(self) -> VirtualAddr {
        self.addr
    }

    fn to_virt_addr(self) -> (r: VirtualAddr) {
        self.addr
    }
}

impl DivergingHandlerFunc {
    /// The handler whose code starts at `addr`.
    pub fn new(addr: VirtualAddr) -> (r: Self)
        ensures
            r.spec_addr() == addr,
    {
        DivergingHandlerFunc { addr }
    }
}

impl HandlerFuncType for DivergingHandlerFunc {
    closed spec fn spec_addr(self) -> VirtualAddr {
        self.addr
    }

    fn to_virt_addr(self) -> (r: VirtualAddr) {
        self.addr
    }
}

impl DivergingHandlerFuncWithErrCode {
    /// The handler whose code starts at `addr`.
    pub fn new(addr: VirtualAddr) -> (r: Self)
        ensures
            r.spec_addr() == addr,
    {
        DivergingHandlerFuncWithErrCode { addr }
    }
}

impl HandlerFuncType for DivergingHandlerFuncWithErrCode {
    closed spec fn spec_addr(self) -> VirtualAddr {
        self.addr
    }

    fn to_virt_addr(self) -> (r: VirtualAddr) {
        self.addr
    }
}

/// A gate descriptor for handlers of kind `F`. The kind decides which
/// handlers can be installed; it is not part of what the processor reads.
#[derive(Debug)]
pub struct Entry<F> {
    pointer_low: u16,
    options: EntryOptions,
    pointer_middle: u16,
    pointer_high: u32,
    reserved: u32,
    phantom: PhantomData<F>,
}

impl<F> Clone for Entry<F> {
    fn clone(&self) -> (r: Self)
        ensures
            r == *self,
    {
        *self
    }
}

impl<F> Copy for Entry<F> {

}

impl<F> Entry<F> {
    /// Whether two gates agree in every field.
    pub closed spec fn same_fields(&self, other: &Self) -> bool {
        &&& self.pointer_low == other.pointer_low
        &&& self.options == other.options
        &&& self.pointer_middle == other.pointer_middle
        &&& self.pointer_high == other.pointer_high
        &&& self.reserved == other.reserved
    }

    /// Gates that agree in every field hold the same.
    pub proof fn lemma_same_fields(&self, other: &Self)
        ensures
            self.same_fields(other) <==> *self == *other,
            self.same_fields(other) ==> self@ == other@,
    {
    }
}

impl<F> PartialEq for Entry<F> {
    fn eq(&self, other: &Self) -> (r: bool) {
        self.pointer_low == other.pointer_low && self.options == other.options
            && self.pointer_middle == other.pointer_middle && self.pointer_high
            == other.pointer_high && self.reserved == other.reserved
    }
}

impl<F> vstd::std_specs::cmp::PartialEqSpecImpl for Entry<F> {
    open spec fn obeys_eq_spec() -> bool {
        true
    }

    open spec fn eq_spec(&self, other: &Self) -> bool {
        self.same_fields(other)
    }
}

impl<F> View for Entry<F> {
    type V = EntryView;

    closed spec fn view(&self) -> EntryView {
        EntryView {
            handler: join_pointer(self.pointer_low, self.pointer_middle, self.pointer_high),
            options: self.options@,
            reserved: self.reserved,
        }
    }
}

impl<F> Entry<F> {
    /// A gate that is not in use: no handler, not present.
    pub fn missing() -> (r: Self)
        ensures
            r@ == (EntryView {
                handler: 0,
                options: EntryOptionsView { code_selector: 0, bits: MINIMAL_OPTIONS },
                reserved: 0,
            }),
            !r@.options.present(),
    {
        assert(0u64 | (0u64 << 16) | (0u64 << 32) == 0) by (bit_vector);
        Entry {
            pointer_low: 0,
            options: EntryOptions::minimal(),
            pointer_middle: 0,
            pointer_high: 0,
            reserved: 0,
            phantom: PhantomData,
        }
    }

    /// Installs the handler at `addr`, to run in the code segment `cs`,
    /// which should be the one that is active now. The descriptor becomes
    /// present, with interrupts masked on entry, ring 0 and no stack
    /// switch. The options are handed back for further changes.
    pub fn set_handler_addr(&mut self, addr: VirtualAddr, cs: SegmentSelector) -> (r:
        &mut EntryOptions)
        ensures
            r@ == (EntryOptionsView { code_selector: cs@, bits: 0x8e00 }),
            r@.present(),
            r@.interrupts_disabled(),
            r@.privilege_level() == PrivilegeLevel::Ring0,
            r@.stack_index().is_none(),
            final(self)@ == (EntryView {
                handler: addr@,
                options: final(r)@,
                reserved: old(self)@.reserved,
            }),
            final(self)@.handler_addr() == addr@,
    {
        let addr = addr.as_u64();
        proof {
            lemma_handler_round_trip(addr);
            assert(0x0e00u16 | 0x8000 == 0x8e00) by (bit_vector);
        }
        self.pointer_low = addr as u16;
        self.pointer_middle = (addr >> 16) as u16;
        self.pointer_high = (addr >> 32) as u32;
        self.options = EntryOptions::minimal();
        self.options.set_code_selector(cs);
        self.options.set_present(true);
        &mut self.options
    }

    /// The address of the installed handler, in canonical form.
    pub fn handler_addr(&self) -> (r: VirtualAddr)
        ensures
            r@ == self@.handler_addr(),
    {
        let addr: u64 = (self.pointer_low as u64) | ((self.pointer_middle as u64) << 16) | ((
        self.pointer_high as u64) << 32);
        VirtualAddr::new_truncate(addr)
    }

    /// The descriptor as the two 64-bit words that the processor reads,
    /// low word first.
    pub fn encode(&self) -> (r: (u64, u64))
        ensures
            r == gate_words(self@),
    {
        proof {
            lemma_join_fields(self.pointer_low, self.pointer_middle, self.pointer_high);
        }
        let selector: u16 = self.options.code_selector().0;
        let low: u64 = (self.pointer_low as u64) | ((selector as u64) << 16) | ((
        self.options.bits() as u64) << 32) | ((self.pointer_middle as u64) << 48);
        let high: u64 = (self.pointer_high as u64) | ((self.reserved as u64) << 32);
        (low, high)
    }

    /// The selector and the options word.
    pub fn options(&self) -> (r: &EntryOptions)
        ensures
            r@ == self@.options,
    {
        &self.options
    }

    /// The selector and the options word, to change them.
    pub fn options_mut(&mut self) -> (r: &mut EntryOptions)
        ensures
            r@ == old(self)@.options,
            final(self)@ == (EntryView { options: final(r)@, ..old(self)@ }),
    {
        &mut self.options
    }
}

impl<F: HandlerFuncType> Entry<F> {
    /// Installs `handler`, as `set_handler_addr` does with its address.
    pub fn set_handler_func(&mut self, handler: F, cs: SegmentSelector) -> (r: &mut EntryOptions)
        ensures
            r@ == (EntryOptionsView { code_selector: cs@, bits: 0x8e00 }),
            final(self)@ == (EntryView {
                handler: handler.spec_addr()@,
                options: final(r)@,
                reserved: old(self)@.reserved,
            }),
            final(self)@.handler_addr() == handler.spec_addr()@,
    {
        self.set_handler_addr(handler.to_virt_addr(), cs)
    }
}

} // verus!
