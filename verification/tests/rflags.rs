use rustyos::rflags::{read, update, RFlags};

#[test]
fn rflags_read() {
    let rflags = read(0x0000_0000_0000_0202);
    println!("{:#?}", rflags);
    assert_eq!(rflags.bits(), 0x200);
    assert!(rflags.contains(RFlags::from_bits_truncate(RFlags::INTERRUPT_FLAG)));
}

#[test]
fn rflags_bit_positions() {
    assert_eq!(RFlags::CARRY_FLAG, 1 << 0);
    assert_eq!(RFlags::PARITY_FLAG, 1 << 2);
    assert_eq!(RFlags::AUXILARY_CARRY_FLAG, 1 << 4);
    assert_eq!(RFlags::ZERO_FLAG, 1 << 6);
    assert_eq!(RFlags::SIGN_FLAG, 1 << 7);
    assert_eq!(RFlags::TRAP_FLAG, 1 << 8);
    assert_eq!(RFlags::INTERRUPT_FLAG, 1 << 9);
    assert_eq!(RFlags::DIRECTION_FLAG, 1 << 10);
    assert_eq!(RFlags::OVERFLOW_FLAG, 1 << 11);
    assert_eq!(RFlags::IOPL_LOW, 1 << 12);
    assert_eq!(RFlags::IOPL_HIGH, 1 << 13);
    assert_eq!(RFlags::NESTED_TASK, 1 << 14);
    assert_eq!(RFlags::RESUME_FLAG, 1 << 16);
    assert_eq!(RFlags::VIRTUAL_8086_MODE, 1 << 17);
    assert_eq!(RFlags::ALIGNMENT_CHECK, 1 << 18);
    assert_eq!(RFlags::VIRTUAL_INTERRUPT, 1 << 19);
    assert_eq!(RFlags::VIRTUAL_INTERRUPT_PENDING, 1 << 20);
    assert_eq!(RFlags::ID, 1 << 21);
    assert_eq!(RFlags::ALL, 0x3f_7fd5);
    assert_eq!(RFlags::all().bits(), 0x3f_7fd5);
}

#[test]
fn rflags_read_drops_unnamed_bits() {
    assert_eq!(read(u64::MAX).bits(), 0x3f_7fd5);
    assert_eq!(read(0x2).bits(), 0);
    assert_eq!(read(0x246).bits(), 0x244);
}

#[test]
fn rflags_write_keeps_unnamed_bits() {
    let flags = RFlags::from_bits_truncate(RFlags::CARRY_FLAG | RFlags::ZERO_FLAG);
    assert_eq!(rustyos::rflags::write(0x0000_0000_0000_0202, flags), 0x43);
    assert_eq!(rustyos::rflags::write(0xffff_ffff_ffc0_802a, RFlags::empty()), 0xffff_ffff_ffc0_802a);
    assert_eq!(rustyos::rflags::write(u64::MAX, RFlags::empty()), !0x3f_7fd5u64);
}

#[test]
fn rflags_update_reads_changes_and_writes() {
    let word = update(0x0000_0000_0000_0202, |mut flags| {
        flags.remove(RFlags::from_bits_truncate(RFlags::INTERRUPT_FLAG));
        flags.insert(RFlags::from_bits_truncate(RFlags::DIRECTION_FLAG));
        flags
    });
    assert_eq!(word, 0x402);
}

#[test]
fn flag_set_operations() {
    assert_eq!(RFlags::empty().bits(), 0);
    assert!(RFlags::empty().is_empty());
    assert_eq!(RFlags::from_bits(0x201).unwrap().bits(), 0x201);
    assert_eq!(RFlags::from_bits(0x2), None);
    assert_eq!(RFlags::from_bits_truncate(0x203).bits(), 0x201);
    assert_eq!(RFlags::from_bits_retain(0x203).bits(), 0x203);
    let mut f = RFlags::from_bits_truncate(RFlags::CARRY_FLAG);
    assert!(f.contains(RFlags::from_bits_truncate(RFlags::CARRY_FLAG)));
    assert!(!f.contains(RFlags::from_bits_truncate(RFlags::CARRY_FLAG | RFlags::ZERO_FLAG)));
    assert!(f.contains(RFlags::empty()));
    f.insert(RFlags::from_bits_truncate(RFlags::ZERO_FLAG));
    assert_eq!(f.bits(), 0x41);
    f.remove(RFlags::from_bits_truncate(RFlags::CARRY_FLAG | RFlags::SIGN_FLAG));
    assert_eq!(f.bits(), 0x40);
}
