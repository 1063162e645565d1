//! The interrupt descriptor table: 256 gate descriptors, one per vector.
//!
//! Vectors 0 to 31 belong to the processor's exceptions. Each has a fixed
//! kind of handler, or is reserved. Vectors 32 to 255 are free for
//! interrupts and all take the plain kind of handler.

pub mod entry;
pub mod error_code;
pub mod frame;

use crate::addr::VirtualAddr;
use crate::idt::entry::{
    DivergingHandlerFunc, DivergingHandlerFuncWithErrCode, Entry, EntryOptionsView, EntryView,
    gate_words, HandlerFunc, HandlerFuncWithErrCode, PageFaultHandlerFunc, MINIMAL_OPTIONS,
};
use crate::DescriptorTablePointer;
use vstd::prelude::*;

verus! {

/// Number of vectors, and of gates in the table.
pub const VECTOR_COUNT: usize = 256;

/// Size of one gate descriptor in bytes.
pub const ENTRY_SIZE: usize = 16;

/// What the processor expects of the handler of a vector.
#[derive(Debug, Clone, Copy, PartialEq, Eq, Structural)]
pub enum VectorClass {
    /// No error code; the handler may return.
    Handler,
    /// An error code is pushed; the handler may return.
    HandlerWithErrCode,
    /// A page-fault error code is pushed; the handler may return.
    PageFault,
    /// No error code; the handler must not return.
    Diverging,
    /// An error code is pushed; the handler must not return.
    DivergingWithErrCode,
    /// The processor keeps the vector for itself.
    Reserved,
}

/// The class of each vector.
pub open spec fn spec_vector_class(index: u8) -> VectorClass {
    if index == 8 {
        VectorClass::DivergingWithErrCode
    } else if index == 14 {
        VectorClass::PageFault
    } else if index == 18 {
        VectorClass::Diverging
    } else if index == 15 || index == 31 || (22 <= index <= 27) {
        VectorClass::Reserved
    } else if (10 <= index <= 13) || index == 17 || index == 21 || index == 29 || index == 30 {
        VectorClass::HandlerWithErrCode
    } else {
        VectorClass::Handler
    }
}

impl VectorClass {
    /// Whether the processor pushes an error code for the vector.
    pub open spec fn spec_has_error_code(self) -> bool {
        self == VectorClass::HandlerWithErrCode || self == VectorClass::PageFault || self
            == VectorClass::DivergingWithErrCode
    }

    /// Whether the handler must not return.
    pub open spec fn spec_is_diverging(self) -> bool {
        self == VectorClass::Diverging || self == VectorClass::DivergingWithErrCode
    }

    /// Whether the processor pushes an error code for the vector.
    pub fn has_error_code(self) -> (r: bool)
        ensures
            r == self.spec_has_error_code(),
    {
        match self {
            VectorClass::HandlerWithErrCode => true,
            VectorClass::PageFault => true,
            VectorClass::DivergingWithErrCode => true,
            _ => false,
        }
    }

    /// Whether the handler must not return.
    pub fn is_diverging(self) -> (r: bool)
        ensures
            r == self.spec_is_diverging(),
    {
        match self {
            VectorClass::Diverging => true,
            VectorClass::DivergingWithErrCode => true,
            _ => false,
        }
    }
}

/// One end of a range of vectors.
#[derive(Debug, Clone, Copy, PartialEq, Eq, Structural)]
pub enum VectorBound {
    /// The range reaches the vector.
    Included(u8),
    /// The range stops short of the vector, or starts behind it.
    Excluded(u8),
    /// The range has no limit on this side.
    Unbounded,
}

/// The first vector of a range that starts at `start`.
pub open spec fn spec_lower_index(start: VectorBound) -> int {
    match start {
        VectorBound::Included(v) => v as int,
        VectorBound::Excluded(v) => v + 1,
        VectorBound::Unbounded => 0,
    }
}

/// One more than the last vector of a range that ends at `end`.
pub open spec fn spec_upper_index(end: VectorBound) -> int {
    match end {
        VectorBound::Included(v) => v + 1,
        VectorBound::Excluded(v) => v as int,
        VectorBound::Unbounded => 256,
    }
}

/// Whether a range can be sliced out of the table: it starts at an
/// interrupt vector and does not end before it starts.
pub open spec fn sliceable(start: VectorBound, end: VectorBound) -> bool {
    32 <= spec_lower_index(start) <= spec_upper_index(end)
}

/// What a gate that is not in use holds.
pub open spec fn missing_entry() -> EntryView {
    EntryView {
        handler: 0,
        options: EntryOptionsView { code_selector: 0, bits: MINIMAL_OPTIONS },
        reserved: 0,
    }
}

/// The views of a sequence of gates.
pub open spec fn entry_views(entries: Seq<Entry<HandlerFunc>>) -> Seq<EntryView> {
    Seq::new(entries.len(), |i: int| entries[i]@)
}

/// A gate without a public name in the table: that of a reserved vector,
/// where nothing can install a handler, or that of vector 9, which is
/// reached by indexing alone.
#[derive(Debug, Clone, Copy)]
pub struct UnnamedEntry {
    entry: Entry<HandlerFunc>,
}

impl View for UnnamedEntry {
    type V = EntryView;

    closed spec fn view(&self) -> EntryView {
        self.entry@
    }
}

impl UnnamedEntry {
    /// The descriptor itself.
    pub closed spec fn spec_entry(&self) -> Entry<HandlerFunc> {
        self.entry
    }

    /// The view of the descriptor is the view of the entry in it.
    pub proof fn lemma_view(&self)
        ensures
            self@ == self.spec_entry()@,
    {
    }

    /// A gate that is not in use.
    fn missing() -> (r: Self)
        ensures
            r@ == missing_entry(),
    {
        UnnamedEntry { entry: Entry::missing() }
    }
}

/// The descriptors of the interrupt vectors, 32 to 255. They are reached by
/// indexing and slicing the table.
#[derive(Debug)]
pub struct InterruptEntries {
    entries: [Entry<HandlerFunc>; 224],
}

impl View for InterruptEntries {
    type V = Seq<Entry<HandlerFunc>>;

    closed spec fn view(&self) -> Seq<Entry<HandlerFunc>> {
        self.entries@
    }
}

impl InterruptEntries {
    /// There are 224 interrupt gates.
    pub proof fn lemma_len(&self)
        ensures
            self@.len() == 224,
    {
    }
}

/// The interrupt descriptor table.
#[derive(Debug)]
pub struct InterruptDescriptorTable {
    /// Vector 0: division by zero or quotient too large.
    pub divide_error: Entry<HandlerFunc>,
    /// Vector 1: debug conditions.
    pub debug: Entry<HandlerFunc>,
    /// Vector 2: the interrupt that cannot be masked.
    pub non_maskable_interrupt: Entry<HandlerFunc>,
    /// Vector 3: the breakpoint instruction.
    pub breakpoint: Entry<HandlerFunc>,
    /// Vector 4: the overflow instruction with the overflow flag set.
    pub overflow: Entry<HandlerFunc>,
    /// Vector 5: the bound instruction with an index out of range.
    pub bound_range_exceeded: Entry<HandlerFunc>,
    /// Vector 6: an invalid or undefined instruction.
    pub invalid_opcode: Entry<HandlerFunc>,
    /// Vector 7: a floating-point instruction while the unit is off.
    pub device_not_available: Entry<HandlerFunc>,
    /// Vector 8: an exception while another was being delivered. Its error
    /// code is zero and its handler must not return.
    pub double_fault: Entry<DivergingHandlerFuncWithErrCode>,
    /// Vector 9, which no current processor raises. It is reached by
    /// indexing.
    pub coprocessor_segment_overrun: UnnamedEntry,
    /// Vector 10: a task switch to an invalid task state segment.
    pub invalid_tss: Entry<HandlerFuncWithErrCode>,
    /// Vector 11: a segment or gate that is not present.
    pub segment_not_present: Entry<HandlerFuncWithErrCode>,
    /// Vector 12: a stack segment fault.
    pub stack_segment_fault: Entry<HandlerFuncWithErrCode>,
    /// Vector 13: a protection violation.
    pub general_protection_fault: Entry<HandlerFuncWithErrCode>,
    /// Vector 14: a fault of address translation.
    pub page_fault: Entry<PageFaultHandlerFunc>,
    /// Vector 15, reserved.
    pub reserved_1: UnnamedEntry,
    /// Vector 16: a pending floating-point exception.
    pub x87_floating_point_exception: Entry<HandlerFunc>,
    /// Vector 17: a misaligned access while alignment is checked.
    pub alignment_chk: Entry<HandlerFuncWithErrCode>,
    /// Vector 18: a machine check. Its handler must not return.
    pub machine_chk: Entry<DivergingHandlerFunc>,
    /// Vector 19: a vector floating-point exception.
    pub simd_floating_point: Entry<HandlerFunc>,
    /// Vector 20: a virtualization exception.
    pub virtualization: Entry<HandlerFunc>,
    /// Vector 21: a control-flow protection violation.
    pub cp_protection_exception: Entry<HandlerFuncWithErrCode>,
    /// Vectors 22 to 27, reserved.
    pub reserved_2: [UnnamedEntry; 6],
    /// Vector 28: an event that the hypervisor injects.
    pub hv_injection_exception: Entry<HandlerFunc>,
    /// Vector 29: a guest has to talk to its hypervisor.
    pub vmm_communication_exception: Entry<HandlerFuncWithErrCode>,
    /// Vector 30: a security exception.
    pub security_exception: Entry<HandlerFuncWithErrCode>,
    /// Vector 31, reserved.
    pub reserved_3: UnnamedEntry,
    /// Vectors 32 to 255.
    pub interrupts: InterruptEntries,
}

impl Default for InterruptDescriptorTable {
    /// A table in which no descriptor is in use.
    fn default() -> (r: Self)
        ensures
            r@.len() == VECTOR_COUNT,
            forall|i: int| 0 <= i < VECTOR_COUNT ==> r@[i] == missing_entry(),
    {
        Self::new()
    }
}

impl View for InterruptDescriptorTable {
    type V = Seq<EntryView>;

    /// What each of the 256 gates holds, by vector.
    open spec fn view(&self) -> Seq<EntryView> {
        Seq::new(256, |i: int| self.gate(i))
    }
}

impl InterruptDescriptorTable {
    /// What the descriptor of vector `i` holds.
    pub open spec fn gate(&self, i: int) -> EntryView {
        if i == 0 {
            self.divide_error@
        } else if i == 1 {
            self.debug@
        } else if i == 2 {
            self.non_maskable_interrupt@
        } else if i == 3 {
            self.breakpoint@
        } else if i == 4 {
            self.overflow@
        } else if i == 5 {
            self.bound_range_exceeded@
        } else if i == 6 {
            self.invalid_opcode@
        } else if i == 7 {
            self.device_not_available@
        } else if i == 8 {
            self.double_fault@
        } else if i == 9 {
            self.coprocessor_segment_overrun@
        } else if i == 10 {
            self.invalid_tss@
        } else if i == 11 {
            self.segment_not_present@
        } else if i == 12 {
            self.stack_segment_fault@
        } else if i == 13 {
            self.general_protection_fault@
        } else if i == 14 {
            self.page_fault@
        } else if i == 15 {
            self.reserved_1@
        } else if i == 16 {
            self.x87_floating_point_exception@
        } else if i == 17 {
            self.alignment_chk@
        } else if i == 18 {
            self.machine_chk@
        } else if i == 19 {
            self.simd_floating_point@
        } else if i == 20 {
            self.virtualization@
        } else if i == 21 {
            self.cp_protection_exception@
        } else if 22 <= i <= 27 {
            self.reserved_2[i - 22]@
        } else if i == 28 {
            self.hv_injection_exception@
        } else if i == 29 {
            self.vmm_communication_exception@
        } else if i == 30 {
            self.security_exception@
        } else if i == 31 {
            self.reserved_3@
        } else {
            self.interrupts@[i - 32]@
        }
    }

    /// The descriptor of a vector of class `Handler`.
    pub open spec fn plain_entry(&self, index: u8) -> Entry<HandlerFunc>
        recommends
            spec_vector_class(index) == VectorClass::Handler,
    {
        if index == 0 {
            self.divide_error
        } else if index == 1 {
            self.debug
        } else if index == 2 {
            self.non_maskable_interrupt
        } else if index == 3 {
            self.breakpoint
        } else if index == 4 {
            self.overflow
        } else if index == 5 {
            self.bound_range_exceeded
        } else if index == 6 {
            self.invalid_opcode
        } else if index == 7 {
            self.device_not_available
        } else if index == 9 {
            self.coprocessor_segment_overrun.spec_entry()
        } else if index == 16 {
            self.x87_floating_point_exception
        } else if index == 19 {
            self.simd_floating_point
        } else if index == 20 {
            self.virtualization
        } else if index == 28 {
            self.hv_injection_exception
        } else {
            self.interrupts@[index - 32]
        }
    }

    /// The view lists the gates by vector: the named ones, then the 224
    /// interrupt gates.
    pub proof fn lemma_view(&self)
        ensures
            self@.len() == 256,
            self.interrupts@.len() == 224,
            self@.subrange(32, 256) == entry_views(self.interrupts@),
            forall|index: u8|
                spec_vector_class(index) == VectorClass::Handler ==> #[trigger] self@[index as int]
                    == self.plain_entry(index)@,
            self@[8] == self.double_fault@,
            self@[10] == self.invalid_tss@,
            self@[11] == self.segment_not_present@,
            self@[12] == self.stack_segment_fault@,
            self@[13] == self.general_protection_fault@,
            self@[14] == self.page_fault@,
            self@[17] == self.alignment_chk@,
            self@[18] == self.machine_chk@,
            self@[21] == self.cp_protection_exception@,
            self@[29] == self.vmm_communication_exception@,
            self@[30] == self.security_exception@,
    {
        self.interrupts.lemma_len();
        self.coprocessor_segment_overrun.lemma_view();
        assert(self@.subrange(32, 256) =~= entry_views(self.interrupts@));
    }

    /// Tells the class of a vector.
    pub fn vector_class(index: u8) -> (r: VectorClass)
        ensures
            r == spec_vector_class(index),
    {
        if index == 8 {
            VectorClass::DivergingWithErrCode
        } else if index == 14 {
            VectorClass::PageFault
        } else if index == 18 {
            VectorClass::Diverging
        } else if index == 15 || index == 31 || (22 <= index && index <= 27) {
            VectorClass::Reserved
        } else if (10 <= index && index <= 13) || index == 17 || index == 21 || index == 29
            || index == 30 {
            VectorClass::HandlerWithErrCode
        } else {
            VectorClass::Handler
        }
    }

    /// A table in which no gate is in use.
    pub fn new() -> (r: InterruptDescriptorTable)
        ensures
            r@.len() == VECTOR_COUNT,
            forall|i: int| 0 <= i < VECTOR_COUNT ==> r@[i] == missing_entry(),
            forall|i: int| 0 <= i < VECTOR_COUNT ==> !(#[trigger] r@[i]).options.present(),
    {
        InterruptDescriptorTable {
            divide_error: Entry::missing(),
            debug: Entry::missing(),
            non_maskable_interrupt: Entry::missing(),
            breakpoint: Entry::missing(),
            overflow: Entry::missing(),
            bound_range_exceeded: Entry::missing(),
            invalid_opcode: Entry::missing(),
            device_not_available: Entry::missing(),
            double_fault: Entry::missing(),
            coprocessor_segment_overrun: UnnamedEntry::missing(),
            invalid_tss: Entry::missing(),
            segment_not_present: Entry::missing(),
            stack_segment_fault: Entry::missing(),
            general_protection_fault: Entry::missing(),
            page_fault: Entry::missing(),
            reserved_1: UnnamedEntry::missing(),
            x87_floating_point_exception: Entry::missing(),
            alignment_chk: Entry::missing(),
            machine_chk: Entry::missing(),
            simd_floating_point: Entry::missing(),
            virtualization: Entry::missing(),
            cp_protection_exception: Entry::missing(),
            reserved_2: [UnnamedEntry::missing();6],
            hv_injection_exception: Entry::missing(),
            vmm_communication_exception: Entry::missing(),
            security_exception: Entry::missing(),
            reserved_3: UnnamedEntry::missing(),
            interrupts: InterruptEntries { entries: [Entry::missing();224] },
        }
    }

    /// Puts every gate out of use.
    pub fn reset(&mut self)
        ensures
            final(self)@.len() == VECTOR_COUNT,
            forall|i: int| 0 <= i < VECTOR_COUNT ==> final(self)@[i] == missing_entry(),
    {
        *self = Self::new();
    }

    /// The table pointer for a table that lies at `base`: the limit is the
    /// table's size in bytes less one.
    pub fn pointer(&self, base: VirtualAddr) -> (r: DescriptorTablePointer)
        ensures
            r.limit == VECTOR_COUNT * ENTRY_SIZE - 1,
            r.limit == 4095,
            r.base == base,
    {
        DescriptorTablePointer { limit: 4095, base }
    }

    /// The descriptor of vector `index`, which has to be of class `Handler`: the
    /// named gate for an exception, an interrupt gate from vector 32 on.
    pub fn index(&self, index: u8) -> (r: &Entry<HandlerFunc>)
        requires
            spec_vector_class(index) == VectorClass::Handler,
        ensures
            *r == self.plain_entry(index),
            r@ == self@[index as int],
    {
        proof {
            self.lemma_view();
        }
        if index == 0 {
            &self.divide_error
        } else if index == 1 {
            &self.debug
        } else if index == 2 {
            &self.non_maskable_interrupt
        } else if index == 3 {
            &self.breakpoint
        } else if index == 4 {
            &self.overflow
        } else if index == 5 {
            &self.bound_range_exceeded
        } else if index == 6 {
            &self.invalid_opcode
        } else if index == 7 {
            &self.device_not_available
        } else if index == 9 {
            &self.coprocessor_segment_overrun.entry
        } else if index == 16 {
            &self.x87_floating_point_exception
        } else if index == 19 {
            &self.simd_floating_point
        } else if index == 20 {
            &self.virtualization
        } else if index == 28 {
            &self.hv_injection_exception
        } else {
            let slot: usize = (index - 32) as usize;
            &self.interrupts.entries[slot]
        }
    }

    /// The descriptor of vector `index`, to change it. The vector has to be of
    /// class `Handler`. No other gate of the table changes.
    pub fn index_mut(&mut self, index: u8) -> (r: &mut Entry<HandlerFunc>)
        requires
            spec_vector_class(index) == VectorClass::Handler,
        ensures
            *r == old(self).plain_entry(index),
            final(self).plain_entry(index) == *final(r),
            final(self)@ == old(self)@.update(index as int, final(r)@),
    {
        proof {
            self.lemma_view();
        }
        if index == 0 {
            &mut self.divide_error
        } else if index == 1 {
            &mut self.debug
        } else if index == 2 {
            &mut self.non_maskable_interrupt
        } else if index == 3 {
            &mut self.breakpoint
        } else if index == 4 {
            &mut self.overflow
        } else if index == 5 {
            &mut self.bound_range_exceeded
        } else if index == 6 {
            &mut self.invalid_opcode
        } else if index == 7 {
            &mut self.device_not_available
        } else if index == 9 {
            &mut self.coprocessor_segment_overrun.entry
        } else if index == 16 {
            &mut self.x87_floating_point_exception
        } else if index == 19 {
            &mut self.simd_floating_point
        } else if index == 20 {
            &mut self.virtualization
        } else if index == 28 {
            &mut self.hv_injection_exception
        } else {
            let slot: usize = (index - 32) as usize;
            &mut self.interrupts.entries[slot]
        }
    }

    /// The descriptor of any vector as the two 64-bit words that the
    /// processor reads, low word first. In memory the table is these pairs
    /// in the order of the vectors.
    pub fn encode_gate(&self, index: u8) -> (r: (u64, u64))
        ensures
            r == gate_words(self@[index as int]),
    {
        if index == 0 {
            self.divide_error.encode()
        } else if index == 1 {
            self.debug.encode()
        } else if index == 2 {
            self.non_maskable_interrupt.encode()
        } else if index == 3 {
            self.breakpoint.encode()
        } else if index == 4 {
            self.overflow.encode()
        } else if index == 5 {
            self.bound_range_exceeded.encode()
        } else if index == 6 {
            self.invalid_opcode.encode()
        } else if index == 7 {
            self.device_not_available.encode()
        } else if index == 8 {
            self.double_fault.encode()
        } else if index == 9 {
            self.coprocessor_segment_overrun.entry.encode()
        } else if index == 10 {
            self.invalid_tss.encode()
        } else if index == 11 {
            self.segment_not_present.encode()
        } else if index == 12 {
            self.stack_segment_fault.encode()
        } else if index == 13 {
            self.general_protection_fault.encode()
        } else if index == 14 {
            self.page_fault.encode()
        } else if index == 15 {
            self.reserved_1.entry.encode()
        } else if index == 16 {
            self.x87_floating_point_exception.encode()
        } else if index == 17 {
            self.alignment_chk.encode()
        } else if index == 18 {
            self.machine_chk.encode()
        } else if index == 19 {
            self.simd_floating_point.encode()
        } else if index == 20 {
            self.virtualization.encode()
        } else if index == 21 {
            self.cp_protection_exception.encode()
        } else if index <= 27 {
            let slot: usize = (index - 22) as usize;
            self.reserved_2[slot].entry.encode()
        } else if index == 28 {
            self.hv_injection_exception.encode()
        } else if index == 29 {
            self.vmm_communication_exception.encode()
        } else if index == 30 {
            self.security_exception.encode()
        } else if index == 31 {
            self.reserved_3.entry.encode()
        } else {
            let slot: usize = (index - 32) as usize;
            self.interrupts.entries[slot].encode()
        }
    }

    /// Brings a range of vectors into the indices at which it starts and
    /// ends. The range has to start at an interrupt vector.
    pub fn condition_slice_bounds(start: VectorBound, end: VectorBound) -> (r: (usize, usize))
        requires
            spec_lower_index(start) >= 32,
        ensures
            r.0 == spec_lower_index(start),
            r.1 == spec_upper_index(end),
            32 <= r.0 <= 256,
            r.1 <= 256,
    {
        let lower_idx: usize = match start {
            VectorBound::Included(v) => v as usize,
            VectorBound::Excluded(v) => v as usize + 1,
            VectorBound::Unbounded => 0,
        };
        let upper_idx: usize = match end {
            VectorBound::Included(v) => v as usize + 1,
            VectorBound::Excluded(v) => v as usize,
            VectorBound::Unbounded => 256,
        };
        (lower_idx, upper_idx)
    }

    /// The indices at which a range of vectors starts and ends, if it can be
    /// sliced out of the table: if it starts at an interrupt vector and does
    /// not end before it starts.
    pub fn checked_slice_bounds(start: VectorBound, end: VectorBound) -> (r: Option<
        (usize, usize),
    >)
        ensures
            sliceable(start, end) ==> r == Some(
                (spec_lower_index(start) as usize, spec_upper_index(end) as usize),
            ),
            !sliceable(start, end) ==> r.is_none(),
    {
        let lower_ok: bool = match start {
            VectorBound::Included(v) => v >= 32,
            VectorBound::Excluded(v) => v >= 31,
            VectorBound::Unbounded => false,
        };
        if !lower_ok {
            return None;
        }
        let (lower_idx, upper_idx) = Self::condition_slice_bounds(start, end);
        if lower_idx <= upper_idx {
            Some((lower_idx, upper_idx))
        } else {
            None
        }
    }

    /// The interrupt gates of a range of vectors.
    pub fn slice(&self, start: VectorBound, end: VectorBound) -> (r: &[Entry<HandlerFunc>])
        requires
            sliceable(start, end),
        ensures
            r@ == self.interrupts@.subrange(
                spec_lower_index(start) - 32,
                spec_upper_index(end) - 32,
            ),
            r@.len() == spec_upper_index(end) - spec_lower_index(start),
            entry_views(r@) == self@.subrange(spec_lower_index(start), spec_upper_index(end)),
    {
        let (lower_idx, upper_idx) = Self::condition_slice_bounds(start, end);
        let all = self.interrupts.entries.as_slice();
        let r = vstd::slice::slice_subrange(all, lower_idx - 32, upper_idx - 32);
        proof {
            self.lemma_view();
            self.interrupts.lemma_len();
            assert(entry_views(r@) =~= self@.subrange(lower_idx as int, upper_idx as int));
        }
        r
    }

    /// The interrupt gates of a range of vectors, to change them. No gate
    /// outside the range changes.
    pub fn slice_mut(&mut self, start: VectorBound, end: VectorBound) -> (r: &mut [Entry<
        HandlerFunc,
    >])
        requires
            sliceable(start, end),
        ensures
            r@ == old(self).interrupts@.subrange(
                spec_lower_index(start) - 32,
                spec_upper_index(end) - 32,
            ),
            r@.len() == spec_upper_index(end) - spec_lower_index(start),
            entry_views(r@) == old(self)@.subrange(spec_lower_index(start), spec_upper_index(end)),
            final(r)@.len() == r@.len(),
            final(self)@ == old(self)@.subrange(0, spec_lower_index(start)) + entry_views(
                final(r)@,
            ) + old(self)@.subrange(spec_upper_index(end), 256),
    {
        let (lower_idx, upper_idx) = Self::condition_slice_bounds(start, end);
        proof {
            self.lemma_view();
            self.interrupts.lemma_len();
            assert(entry_views(
                self.interrupts@.subrange(lower_idx - 32, upper_idx - 32),
            ) =~= self@.subrange(lower_idx as int, upper_idx as int));
        }
        let all: &mut [Entry<HandlerFunc>] = &mut self.interrupts.entries;
        let ghost whole = final(all)@;
        let (head, tail) = all.split_at_mut(upper_idx - 32);
        let ghost head_final = final(head)@;
        let (front, r) = head.split_at_mut(lower_idx - 32);
        proof {
            assert(whole == front@ + final(r)@ + tail@);
            assert(whole == after_borrow(self.interrupts.entries)@);
        }
        r
    }
}

} // verus!
