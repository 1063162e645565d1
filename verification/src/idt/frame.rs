//! The execution context that the processor pushes when it delivers an
//! interrupt or an exception.

use crate::addr::VirtualAddr;
use crate::rflags::RFlags;
use crate::segmentation::SegmentSelector;
use vstd::prelude::*;

verus! {

/// The values of an interrupt stack frame.
#[derive(Debug, Clone, Copy, PartialEq, Eq, Structural)]
pub struct InterruptStackFrameValue {
    /// Where execution goes on when the handler returns: for a fault the
    /// instruction that caused it, else the one after.
    pub instruction_pointer: VirtualAddr,
    /// The code segment at the time of the interrupt.
    pub code_segment: SegmentSelector,
    /// The flags register at the time of the interrupt.
    pub cpu_flags: RFlags,
    /// The stack pointer at the time of the interrupt.
    pub stack_pointer: VirtualAddr,
    /// The stack segment at the time of the interrupt.
    pub stack_segment: SegmentSelector,
}

impl InterruptStackFrameValue {
    /// A frame with the given values.
    pub fn new(
        instruction_pointer: VirtualAddr,
        code_segment: SegmentSelector,
        cpu_flags: RFlags,
        stack_pointer: VirtualAddr,
        stack_segment: SegmentSelector,
    ) -> (r: Self)
        ensures
            r == (InterruptStackFrameValue {
                instruction_pointer,
                code_segment,
                cpu_flags,
                stack_pointer,
                stack_segment,
            }),
    {
        InterruptStackFrameValue {
            instruction_pointer,
            code_segment,
            cpu_flags,
            stack_pointer,
            stack_segment,
        }
    }
}

/// The frame as a handler gets it. It reads as its values do; writing goes
/// through `as_mut` alone, because the processor reads the same memory when the
/// handler returns.
#[derive(Debug, Clone, Copy, PartialEq, Eq, Structural)]
pub struct InterruptStackFrame(InterruptStackFrameValue);

impl View for InterruptStackFrame {
    type V = InterruptStackFrameValue;

    closed spec fn view(&self) -> InterruptStackFrameValue {
        self.0
    }
}

impl core::ops::Deref for InterruptStackFrame {
    type Target = InterruptStackFrameValue;

    fn deref(&self) -> (r: &InterruptStackFrameValue)
        ensures
            *r == self@,
    {
        &self.0
    }
}

impl InterruptStackFrame {
    /// A frame with the given values.
    pub fn new(
        instruction_pointer: VirtualAddr,
        code_segment: SegmentSelector,
        cpu_flags: RFlags,
        stack_pointer: VirtualAddr,
        stack_segment: SegmentSelector,
    ) -> (r: Self)
        ensures
            r@ == (InterruptStackFrameValue {
                instruction_pointer,
                code_segment,
                cpu_flags,
                stack_pointer,
                stack_segment,
            }),
    {
        InterruptStackFrame(
            InterruptStackFrameValue::new(
                instruction_pointer,
                code_segment,
                cpu_flags,
                stack_pointer,
                stack_segment,
            ),
        )
    }

    /// The values of the frame, to change them. The caller answers for
    /// what the processor does with the changed frame on return.
    pub fn as_mut(&mut self) -> (r: &mut InterruptStackFrameValue)
        ensures
            *r == old(self)@,
            final(self)@ == *final(r),
    {
        &mut self.0
    }
}

} // verus!
