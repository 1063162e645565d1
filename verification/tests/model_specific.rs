use rustyos::addr::VirtualAddr;
use rustyos::model_specific::{
    ApicBase, ApicBaseFlags, CetFlags, Efer, EferFlags, FsBase, GsBase, InvalidStarSegmentSelectors,
    KernelGsBase, LStar, Msr, SFMask, Scet, Star, Ucet,
};
use rustyos::rflags::RFlags;
use rustyos::segmentation::SegmentSelector;
use rustyos::structures::page::Page;
use rustyos::vga_buffer::{Color, ColorCode};
use rustyos::QemuExitCode;

#[test]
fn register_indices() {
    assert_eq!(Efer::MSR, 0xC000_0080);
    assert_eq!(FsBase::MSR, 0xC000_0100);
    assert_eq!(GsBase::MSR, 0xC000_0101);
    assert_eq!(KernelGsBase::MSR, 0xC000_0102);
    assert_eq!(Star::MSR, 0xC000_0081);
    assert_eq!(LStar::MSR, 0xC000_0082);
    assert_eq!(SFMask::MSR, 0xC000_0084);
    assert_eq!(Ucet::MSR, 0x6A0);
    assert_eq!(Scet::MSR, 0x6A2);
    assert_eq!(ApicBase::MSR, 0x1B);
    assert_eq!(Msr::new(Efer::MSR).index(), 0xC000_0080);
}

#[test]
fn msr_value_moves_as_two_halves() {
    let msr = Msr::new(Efer::MSR);
    assert_eq!(msr.read(0x89ab_cdef, 0x0123_4567), 0x0123_4567_89ab_cdef);
    assert_eq!(msr.write(0x0123_4567_89ab_cdef), (0x89ab_cdef, 0x0123_4567));
    let (low, high) = msr.write(0xffff_0000_0000_0001);
    assert_eq!(msr.read(low, high), 0xffff_0000_0000_0001);
}

#[test]
fn efer_read_keeps_the_named_bits() {
    assert_eq!(Efer::read(0xd01).bits(), 0xd01);
    assert_eq!(Efer::read(0xffff_ffff_ffff_ffff).bits(), 0xfd01);
    assert_eq!(EferFlags::ALL, 0xfd01);
    assert!(Efer::read(0x500).contains(EferFlags::from_bits_truncate(
        EferFlags::LONG_MODE_ENABLE | EferFlags::LONG_MODE_ACTIVE
    )));
}

#[test]
fn efer_write_keeps_the_unnamed_bits() {
    let flags = EferFlags::from_bits_truncate(EferFlags::SYSTEM_CALL_EXTENSIONS);
    assert_eq!(Efer::write(0x0000_0000_0001_0d02, flags), 0x0000_0000_0001_0003);
    assert_eq!(Efer::write(0, flags), 1);
}

#[test]
fn efer_update_reads_changes_and_writes() {
    let word = Efer::update(0x0000_0000_0001_0502, |mut flags| {
        flags.insert(EferFlags::from_bits_truncate(EferFlags::NO_EXECUTE_ENABLE));
        flags
    });
    assert_eq!(word, 0x0000_0000_0001_0d02);
}

#[test]
fn base_registers_hold_addresses() {
    assert_eq!(FsBase::read(0x7000).as_u64(), 0x7000);
    assert_eq!(FsBase::write(VirtualAddr::new(0x7000)), 0x7000);
    assert_eq!(GsBase::read(0xffff_8000_0000_0000).as_u64(), 0xffff_8000_0000_0000);
    assert_eq!(GsBase::write(VirtualAddr::new(0x8000)), 0x8000);
    assert_eq!(KernelGsBase::read(0x9000).as_u64(), 0x9000);
    assert_eq!(KernelGsBase::write(VirtualAddr::new(0x9000)), 0x9000);
    assert_eq!(LStar::read(0xffff_ffff_8000_1000).as_u64(), 0xffff_ffff_8000_1000);
    assert_eq!(LStar::write(VirtualAddr::new(0xffff_ffff_8000_1000)), 0xffff_ffff_8000_1000);
}

#[test]
fn star_fields() {
    assert_eq!(Star::read_raw(0x001b_0008_0000_0000), (0x1b, 0x08));
    assert_eq!(Star::write_raw(0x1b, 0x08), 0x001b_0008_0000_0000);
    assert_eq!(Star::read_raw(0xffff_eeee_1234_5678), (0xffff, 0xeeee));
}

#[test]
fn star_read_derives_the_selectors() {
    assert_eq!(
        Star::read(0x001b_0008_0000_0000),
        (SegmentSelector(0x2b), SegmentSelector(0x23), SegmentSelector(0x08), SegmentSelector(0x10))
    );
}

#[test]
fn star_write_accepts_and_round_trips() {
    let cs_sysret = SegmentSelector(0x2b);
    let ss_sysret = SegmentSelector(0x23);
    let cs_syscall = SegmentSelector(0x08);
    let ss_syscall = SegmentSelector(0x10);
    assert!(Star::writable(cs_sysret, ss_sysret, cs_syscall, ss_syscall));
    let word = Star::write(cs_sysret, ss_sysret, cs_syscall, ss_syscall).unwrap();
    assert_eq!(word, 0x001b_0008_0000_0000);
    assert_eq!(Star::read(word), (cs_sysret, ss_sysret, cs_syscall, ss_syscall));
}

#[test]
fn star_write_rejects_sysret_offset() {
    assert_eq!(
        Star::write(SegmentSelector(0x2b), SegmentSelector(0x1b), SegmentSelector(0x08), SegmentSelector(0x10)),
        Err(InvalidStarSegmentSelectors::SysretOffset)
    );
    assert_eq!(
        Star::write(SegmentSelector(0x23), SegmentSelector(0x2b), SegmentSelector(0x08), SegmentSelector(0x10)),
        Err(InvalidStarSegmentSelectors::SysretOffset)
    );
}

#[test]
fn star_write_rejects_syscall_offset() {
    assert_eq!(
        Star::write(SegmentSelector(0x2b), SegmentSelector(0x23), SegmentSelector(0x08), SegmentSelector(0x18)),
        Err(InvalidStarSegmentSelectors::SyscallOffset)
    );
    assert_eq!(
        Star::write(SegmentSelector(0x2b), SegmentSelector(0x23), SegmentSelector(0x10), SegmentSelector(0x08)),
        Err(InvalidStarSegmentSelectors::SyscallOffset)
    );
}

#[test]
fn star_write_rejects_sysret_ring() {
    assert_eq!(
        Star::write(SegmentSelector(0x28), SegmentSelector(0x20), SegmentSelector(0x08), SegmentSelector(0x10)),
        Err(InvalidStarSegmentSelectors::SysretPrivilegeLevel)
    );
    assert_eq!(
        Star::write(SegmentSelector(0x2a), SegmentSelector(0x22), SegmentSelector(0x08), SegmentSelector(0x10)),
        Err(InvalidStarSegmentSelectors::SysretPrivilegeLevel)
    );
}

#[test]
fn star_write_rejects_syscall_ring() {
    assert_eq!(
        Star::write(SegmentSelector(0x2b), SegmentSelector(0x23), SegmentSelector(0x0b), SegmentSelector(0x13)),
        Err(InvalidStarSegmentSelectors::SyscallPrivilegeLevel)
    );
}

#[test]
fn star_write_reports_the_first_broken_rule() {
    assert_eq!(
        Star::write(SegmentSelector(0x30), SegmentSelector(0x20), SegmentSelector(0x0b), SegmentSelector(0x20)),
        Err(InvalidStarSegmentSelectors::SysretOffset)
    );
    assert_eq!(
        Star::write(SegmentSelector(0x28), SegmentSelector(0x20), SegmentSelector(0x0b), SegmentSelector(0x20)),
        Err(InvalidStarSegmentSelectors::SyscallOffset)
    );
}

#[test]
fn star_selectors_without_room_for_the_base() {
    assert!(!Star::writable(
        SegmentSelector(0x0b),
        SegmentSelector(0x03),
        SegmentSelector(0x08),
        SegmentSelector(0x10)
    ));
    assert!(Star::writable(
        SegmentSelector(0x0b),
        SegmentSelector(0x03),
        SegmentSelector(0x08),
        SegmentSelector(0x18)
    ));
}

#[test]
fn sfmask_holds_flags() {
    assert_eq!(SFMask::read(0x300).bits(), 0x300);
    assert_eq!(SFMask::write(RFlags::from_bits_truncate(0x4700)), 0x4700);
    let word = SFMask::update(0x200, |mut flags| {
        flags.insert(RFlags::from_bits_truncate(RFlags::TRAP_FLAG));
        flags
    });
    assert_eq!(word, 0x300);
}

#[test]
fn ucet_splits_flags_and_bitmap() {
    let (flags, page) = Ucet::read(0x0000_0000_0040_3c05);
    assert_eq!(flags.bits(), 0xc05);
    assert_eq!(page.start_address().as_u64(), 0x0040_3000);
    assert_eq!(CetFlags::ALL, 0xc3f);
}

#[test]
fn ucet_joins_flags_and_bitmap() {
    let page = Page::from_start_address(VirtualAddr::new(0x0040_3000)).unwrap();
    let flags = CetFlags::from_bits_truncate(CetFlags::SS_ENABLE | CetFlags::IBT_ENABLE);
    let word = Ucet::write(flags, page);
    assert_eq!(word, 0x0040_3005);
    assert_eq!(Ucet::read(word), (flags, page));
}

#[test]
fn ucet_update_reads_changes_and_writes() {
    let word = Ucet::update(0x0040_3005, |mut flags, _page| {
        flags.remove(CetFlags::from_bits_truncate(CetFlags::SS_ENABLE));
        (flags, Page::containing_address(VirtualAddr::new(0x0080_0123)))
    });
    assert_eq!(word, 0x0080_0004);
}

#[test]
fn apic_base_flags() {
    assert_eq!(ApicBaseFlags::BSP, 1 << 8);
    assert_eq!(ApicBaseFlags::X2APIC_ENABLE, 1 << 10);
    assert_eq!(ApicBaseFlags::LAPIC_ENABLE, 1 << 11);
    assert_eq!(ApicBaseFlags::from_bits_truncate(0xfee0_0900).bits(), 0x900);
}

#[test]
fn color_code_packs_background_over_foreground() {
    assert_eq!(ColorCode::new(Color::Green, Color::Black).0, 0x02);
    assert_eq!(ColorCode::new(Color::Yellow, Color::Blue).0, 0x1e);
    assert_eq!(ColorCode::new(Color::White, Color::White).0, 0xff);
    assert_eq!(Color::LightGray.number(), 7);
}

#[test]
fn exit_codes() {
    assert_eq!(QemuExitCode::Success.code(), 0x10);
    assert_eq!(QemuExitCode::Failed.code(), 0x11);
}
