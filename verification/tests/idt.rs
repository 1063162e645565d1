use rustyos::addr::VirtualAddr;
use rustyos::idt::entry::{
    DivergingHandlerFuncWithErrCode, Entry, EntryOptions, HandlerFunc, HandlerFuncType,
    HandlerFuncWithErrCode, PageFaultHandlerFunc,
};
use rustyos::idt::{InterruptDescriptorTable, VectorBound, VectorClass};
use rustyos::segmentation::SegmentSelector;
use rustyos::PrivilegeLevel;

#[test]
fn minimal_options() {
    let options = EntryOptions::minimal();
    assert_eq!(options.bits(), 0b1110_0000_0000);
    assert_eq!(options.code_selector(), SegmentSelector(0));
    assert!(!options.present());
    assert_eq!(options.privilege_level(), PrivilegeLevel::Ring0);
    assert_eq!(options.stack_index(), None);
}

#[test]
fn options_present_bit() {
    let mut options = EntryOptions::minimal();
    options.set_present(true);
    assert_eq!(options.bits(), 0x8e00);
    assert!(options.present());
    options.set_present(false);
    assert_eq!(options.bits(), 0x0e00);
    assert!(!options.present());
}

#[test]
fn options_interrupt_bit_is_inverted() {
    let mut options = EntryOptions::minimal();
    options.disable_interrupts(false);
    assert_eq!(options.bits(), 0x0f00);
    options.disable_interrupts(true);
    assert_eq!(options.bits(), 0x0e00);
}

#[test]
fn options_privilege_level() {
    let mut options = EntryOptions::minimal();
    options.set_privilege_level(PrivilegeLevel::Ring3);
    assert_eq!(options.bits(), 0x6e00);
    assert_eq!(options.privilege_level(), PrivilegeLevel::Ring3);
    options.set_privilege_level(PrivilegeLevel::Ring1);
    assert_eq!(options.bits(), 0x2e00);
    assert_eq!(options.privilege_level(), PrivilegeLevel::Ring1);
}

#[test]
fn options_stack_index_is_stored_plus_one() {
    let mut options = EntryOptions::minimal();
    options.set_stack_index(0);
    assert_eq!(options.bits(), 0x0e01);
    assert_eq!(options.stack_index(), Some(0));
    options.set_stack_index(6);
    assert_eq!(options.bits(), 0x0e07);
    assert_eq!(options.stack_index(), Some(6));
}

#[test]
fn options_setters_chain() {
    let mut options = EntryOptions::minimal();
    options
        .set_code_selector(SegmentSelector(0x08))
        .set_present(true)
        .disable_interrupts(false)
        .set_privilege_level(PrivilegeLevel::Ring3)
        .set_stack_index(2);
    assert_eq!(options.bits(), 0xef03);
    assert_eq!(options.code_selector(), SegmentSelector(0x08));
}

#[test]
fn missing_entry_is_empty() {
    let entry: Entry<HandlerFunc> = Entry::missing();
    assert_eq!(entry.handler_addr(), VirtualAddr::zero());
    assert!(!entry.options().present());
    assert_eq!(entry.options().bits(), 0x0e00);
    assert_eq!(entry.encode(), (0x0000_0e00_0000_0000, 0));
}

#[test]
fn handler_address_round_trip() {
    let addrs: [u64; 6] = [
        0,
        0x1000,
        0x0000_1234_5678_9abc,
        0x0000_7fff_ffff_ffff,
        0xffff_8000_0000_0000,
        0xffff_ffff_8020_3040,
    ];
    for a in addrs {
        let mut entry: Entry<HandlerFunc> = Entry::missing();
        entry.set_handler_addr(VirtualAddr::new(a), SegmentSelector(0x08));
        assert_eq!(entry.handler_addr().as_u64(), a);
    }
}

#[test]
fn set_handler_sets_the_defaults() {
    let mut entry: Entry<HandlerFunc> = Entry::missing();
    let options = entry.set_handler_addr(VirtualAddr::new(0xffff_ffff_8020_3040), SegmentSelector(0x08));
    assert!(options.present());
    assert_eq!(options.bits(), 0x8e00);
    assert_eq!(options.code_selector(), SegmentSelector(0x08));
    assert_eq!(options.privilege_level(), PrivilegeLevel::Ring0);
    assert_eq!(options.stack_index(), None);
    assert_eq!(
        entry.encode(),
        (0x8020_8e00_0008_3040, 0x0000_0000_ffff_ffff)
    );
}

#[test]
fn set_handler_func_takes_the_handler_address() {
    let handler = HandlerFuncWithErrCode::new(VirtualAddr::new(0x0040_2000));
    assert_eq!(handler.to_virt_addr().as_u64(), 0x0040_2000);
    let mut entry: Entry<HandlerFuncWithErrCode> = Entry::missing();
    entry.set_handler_func(handler, SegmentSelector(0x10));
    assert_eq!(entry.handler_addr().as_u64(), 0x0040_2000);
    assert_eq!(entry.options().code_selector(), SegmentSelector(0x10));
    assert!(entry.options().present());
}

#[test]
fn double_fault_handler_gets_its_own_stack() {
    let mut idt = InterruptDescriptorTable::new();
    let handler = DivergingHandlerFuncWithErrCode::new(VirtualAddr::new(0x0020_0000));
    idt.double_fault.set_handler_func(handler, SegmentSelector(0x08)).set_stack_index(0);
    assert_eq!(idt.double_fault.options().stack_index(), Some(0));
    assert_eq!(idt.double_fault.options().bits(), 0x8e01);
    assert_eq!(idt.double_fault.handler_addr().as_u64(), 0x0020_0000);
}

#[test]
fn page_fault_slot_takes_its_own_kind() {
    let mut idt = InterruptDescriptorTable::new();
    idt.page_fault
        .set_handler_func(PageFaultHandlerFunc::new(VirtualAddr::new(0x3000)), SegmentSelector(0x08));
    assert_eq!(idt.page_fault.handler_addr().as_u64(), 0x3000);
}

#[test]
fn options_mut_changes_the_entry() {
    let mut entry: Entry<HandlerFunc> = Entry::missing();
    entry.set_handler_addr(VirtualAddr::new(0x1000), SegmentSelector(0x08));
    entry.options_mut().set_privilege_level(PrivilegeLevel::Ring3);
    assert_eq!(entry.options().bits(), 0xee00);
    assert_eq!(entry.handler_addr().as_u64(), 0x1000);
}

#[test]
fn entries_compare_by_fields() {
    let mut a: Entry<HandlerFunc> = Entry::missing();
    let b: Entry<HandlerFunc> = Entry::missing();
    assert_eq!(a, b);
    a.set_handler_addr(VirtualAddr::new(0x0001_0000), SegmentSelector(0x08));
    assert_ne!(a, b);
    let c = a;
    assert_eq!(a, c);
}

#[test]
fn new_table_has_no_gate_in_use() {
    let idt = InterruptDescriptorTable::new();
    assert!(!idt.divide_error.options().present());
    assert!(!idt.double_fault.options().present());
    assert!(!idt.page_fault.options().present());
    assert!(!idt.security_exception.options().present());
    let all = idt.slice(VectorBound::Included(32), VectorBound::Unbounded);
    assert_eq!(all.len(), 224);
    for entry in all {
        assert_eq!(*entry, Entry::missing());
    }
    for v in [0u8, 1, 2, 3, 4, 5, 6, 7, 9, 16, 19, 20, 28] {
        assert_eq!(*idt.index(v), Entry::missing());
    }
}

#[test]
fn reset_puts_every_gate_out_of_use() {
    let mut idt = InterruptDescriptorTable::new();
    idt.index_mut(3).set_handler_addr(VirtualAddr::new(0x1000), SegmentSelector(0x08));
    idt.index_mut(255).set_handler_addr(VirtualAddr::new(0x2000), SegmentSelector(0x08));
    assert!(idt.breakpoint.options().present());
    idt.reset();
    assert!(!idt.breakpoint.options().present());
    assert_eq!(*idt.index(255), Entry::missing());
}

#[test]
fn vector_zero_is_the_named_slot() {
    let mut idt = InterruptDescriptorTable::new();
    idt.index_mut(0).set_handler_addr(VirtualAddr::new(0x4000), SegmentSelector(0x08));
    assert_eq!(idt.divide_error.handler_addr().as_u64(), 0x4000);
    assert!(idt.divide_error.options().present());
    for entry in idt.slice(VectorBound::Included(32), VectorBound::Unbounded) {
        assert!(!entry.options().present());
    }
    idt.divide_error.set_handler_addr(VirtualAddr::new(0x5000), SegmentSelector(0x08));
    assert_eq!(idt.index(0).handler_addr().as_u64(), 0x5000);
}

#[test]
fn named_slots_by_vector() {
    let mut idt = InterruptDescriptorTable::new();
    for v in [0u8, 1, 2, 3, 4, 5, 6, 7, 9, 16, 19, 20, 28] {
        idt.index_mut(v).set_handler_addr(VirtualAddr::new(0x1000 * (v as u64 + 1)), SegmentSelector(8));
    }
    assert_eq!(idt.divide_error.handler_addr().as_u64(), 0x1000);
    assert_eq!(idt.debug.handler_addr().as_u64(), 0x2000);
    assert_eq!(idt.non_maskable_interrupt.handler_addr().as_u64(), 0x3000);
    assert_eq!(idt.breakpoint.handler_addr().as_u64(), 0x4000);
    assert_eq!(idt.overflow.handler_addr().as_u64(), 0x5000);
    assert_eq!(idt.bound_range_exceeded.handler_addr().as_u64(), 0x6000);
    assert_eq!(idt.invalid_opcode.handler_addr().as_u64(), 0x7000);
    assert_eq!(idt.device_not_available.handler_addr().as_u64(), 0x8000);
    assert_eq!(idt.index(9).handler_addr().as_u64(), 0xa000);
    assert_eq!(idt.x87_floating_point_exception.handler_addr().as_u64(), 0x11000);
    assert_eq!(idt.simd_floating_point.handler_addr().as_u64(), 0x14000);
    assert_eq!(idt.virtualization.handler_addr().as_u64(), 0x15000);
    assert_eq!(idt.hv_injection_exception.handler_addr().as_u64(), 0x1d000);
}

#[test]
fn vector_eight_is_not_a_plain_handler() {
    let class = InterruptDescriptorTable::vector_class(8);
    assert_eq!(class, VectorClass::DivergingWithErrCode);
    assert_ne!(class, VectorClass::Handler);
    assert!(class.has_error_code());
    assert!(class.is_diverging());
}

#[test]
fn vector_fifteen_is_reserved() {
    assert_eq!(InterruptDescriptorTable::vector_class(15), VectorClass::Reserved);
    assert_eq!(InterruptDescriptorTable::vector_class(31), VectorClass::Reserved);
    for v in 22u8..=27 {
        assert_eq!(InterruptDescriptorTable::vector_class(v), VectorClass::Reserved);
    }
}

#[test]
fn vector_classes() {
    for v in [0u8, 1, 2, 3, 4, 5, 6, 7, 9, 16, 19, 20, 28] {
        assert_eq!(InterruptDescriptorTable::vector_class(v), VectorClass::Handler);
    }
    for v in [10u8, 11, 12, 13, 17, 21, 29, 30] {
        assert_eq!(InterruptDescriptorTable::vector_class(v), VectorClass::HandlerWithErrCode);
    }
    assert_eq!(InterruptDescriptorTable::vector_class(14), VectorClass::PageFault);
    assert_eq!(InterruptDescriptorTable::vector_class(18), VectorClass::Diverging);
    for v in 32u8..=255 {
        assert_eq!(InterruptDescriptorTable::vector_class(v), VectorClass::Handler);
    }
    assert!(VectorClass::PageFault.has_error_code());
    assert!(!VectorClass::PageFault.is_diverging());
    assert!(VectorClass::Diverging.is_diverging());
    assert!(!VectorClass::Diverging.has_error_code());
    assert!(!VectorClass::Handler.has_error_code());
    assert!(!VectorClass::Reserved.is_diverging());
}

#[test]
fn interrupt_vectors_index_the_general_array() {
    let mut idt = InterruptDescriptorTable::new();
    idt.index_mut(32).set_handler_addr(VirtualAddr::new(0x1000), SegmentSelector(0x08));
    idt.index_mut(255).set_handler_addr(VirtualAddr::new(0x2000), SegmentSelector(0x08));
    assert!(!idt.divide_error.options().present());
    let all = idt.slice(VectorBound::Included(32), VectorBound::Unbounded);
    assert_eq!(all[0].handler_addr().as_u64(), 0x1000);
    assert_eq!(all[223].handler_addr().as_u64(), 0x2000);
    assert!(!all[1].options().present());
}

#[test]
fn slice_bounds() {
    assert_eq!(
        InterruptDescriptorTable::checked_slice_bounds(VectorBound::Included(32), VectorBound::Excluded(40)),
        Some((32, 40))
    );
    assert_eq!(
        InterruptDescriptorTable::checked_slice_bounds(VectorBound::Excluded(31), VectorBound::Included(255)),
        Some((32, 256))
    );
    assert_eq!(
        InterruptDescriptorTable::checked_slice_bounds(VectorBound::Included(100), VectorBound::Unbounded),
        Some((100, 256))
    );
    assert_eq!(
        InterruptDescriptorTable::checked_slice_bounds(VectorBound::Included(40), VectorBound::Excluded(40)),
        Some((40, 40))
    );
    assert_eq!(
        InterruptDescriptorTable::condition_slice_bounds(VectorBound::Excluded(254), VectorBound::Included(255)),
        (255, 256)
    );
}

#[test]
fn slice_rejects_exception_vectors() {
    assert_eq!(
        InterruptDescriptorTable::checked_slice_bounds(VectorBound::Included(31), VectorBound::Excluded(40)),
        None
    );
    assert_eq!(
        InterruptDescriptorTable::checked_slice_bounds(VectorBound::Included(0), VectorBound::Unbounded),
        None
    );
    assert_eq!(
        InterruptDescriptorTable::checked_slice_bounds(VectorBound::Unbounded, VectorBound::Unbounded),
        None
    );
    assert_eq!(
        InterruptDescriptorTable::checked_slice_bounds(VectorBound::Excluded(30), VectorBound::Included(255)),
        None
    );
}

#[test]
fn slice_rejects_ranges_that_end_before_they_start() {
    assert_eq!(
        InterruptDescriptorTable::checked_slice_bounds(VectorBound::Included(41), VectorBound::Excluded(40)),
        None
    );
    assert_eq!(
        InterruptDescriptorTable::checked_slice_bounds(VectorBound::Excluded(255), VectorBound::Included(10)),
        None
    );
}

#[test]
fn slice_reads_the_interrupt_gates() {
    let mut idt = InterruptDescriptorTable::new();
    idt.index_mut(33).set_handler_addr(VirtualAddr::new(0x1000), SegmentSelector(0x08));
    idt.index_mut(34).set_handler_addr(VirtualAddr::new(0x2000), SegmentSelector(0x08));
    let part = idt.slice(VectorBound::Included(33), VectorBound::Included(34));
    assert_eq!(part.len(), 2);
    assert_eq!(part[0].handler_addr().as_u64(), 0x1000);
    assert_eq!(part[1].handler_addr().as_u64(), 0x2000);
    let rest = idt.slice(VectorBound::Excluded(34), VectorBound::Unbounded);
    assert_eq!(rest.len(), 221);
    assert!(!rest[0].options().present());
}

#[test]
fn slice_mut_writes_the_interrupt_gates() {
    let mut idt = InterruptDescriptorTable::new();
    {
        let part = idt.slice_mut(VectorBound::Included(40), VectorBound::Excluded(43));
        assert_eq!(part.len(), 3);
        part[0].set_handler_addr(VirtualAddr::new(0x1000), SegmentSelector(0x08));
        part[2].set_handler_addr(VirtualAddr::new(0x3000), SegmentSelector(0x08));
    }
    assert_eq!(idt.index(40).handler_addr().as_u64(), 0x1000);
    assert!(!idt.index(41).options().present());
    assert_eq!(idt.index(42).handler_addr().as_u64(), 0x3000);
    assert!(!idt.index(39).options().present());
    assert!(!idt.index(43).options().present());
}

#[test]
fn table_pointer() {
    let idt = InterruptDescriptorTable::new();
    let pointer = idt.pointer(VirtualAddr::new(0xffff_8000_0010_0000));
    assert_eq!(pointer.limit, 4095);
    assert_eq!(pointer.base.as_u64(), 0xffff_8000_0010_0000);
}

#[test]
fn default_table_has_no_gate_in_use() {
    let idt = InterruptDescriptorTable::default();
    for v in 0u8..=255 {
        assert_eq!(idt.encode_gate(v), (0x0000_0e00_0000_0000, 0));
    }
}

#[test]
fn encode_gate_reads_every_vector() {
    let mut idt = InterruptDescriptorTable::new();
    idt.index_mut(0).set_handler_addr(VirtualAddr::new(0x1111_2222_3333), SegmentSelector(0x08));
    idt.double_fault
        .set_handler_addr(VirtualAddr::new(0xffff_ffff_8000_1000), SegmentSelector(0x08))
        .set_stack_index(1);
    idt.index_mut(255).set_handler_addr(VirtualAddr::new(0x4000), SegmentSelector(0x18));
    assert_eq!(idt.encode_gate(0), (0x2222_8e00_0008_3333, 0x0000_0000_0000_1111));
    assert_eq!(idt.encode_gate(8), (0x8000_8e02_0008_1000, 0x0000_0000_ffff_ffff));
    assert_eq!(idt.encode_gate(255), (0x0000_8e00_0018_4000, 0));
    assert_eq!(idt.encode_gate(15), (0x0000_0e00_0000_0000, 0));
    assert_eq!(idt.encode_gate(1), (0x0000_0e00_0000_0000, 0));
}
