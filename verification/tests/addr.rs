use rustyos::addr::{align_down, align_up, power_of_two, PhyAddr, VirtAddrNotValid, VirtualAddr};

#[test]
fn try_new_accepts_lower_half() {
    let a = VirtualAddr::try_new(0x0000_7fff_ffff_ffff).unwrap();
    assert_eq!(a.as_u64(), 0x0000_7fff_ffff_ffff);
}

#[test]
fn try_new_accepts_upper_half() {
    let a = VirtualAddr::try_new(0xffff_8000_0000_0000).unwrap();
    assert_eq!(a.as_u64(), 0xffff_8000_0000_0000);
}

#[test]
fn try_new_rejects_non_canonical() {
    assert_eq!(
        VirtualAddr::try_new(0x0000_8000_0000_0000),
        Err(VirtAddrNotValid(0x0000_8000_0000_0000))
    );
    assert_eq!(
        VirtualAddr::try_new(0xffff_7fff_ffff_ffff),
        Err(VirtAddrNotValid(0xffff_7fff_ffff_ffff))
    );
    assert_eq!(VirtualAddr::try_new(0x1234_0000_0000_0000), Err(VirtAddrNotValid(0x1234_0000_0000_0000)));
}

#[test]
fn new_truncate_sign_extends_bit_47() {
    assert_eq!(VirtualAddr::new_truncate(0x0000_8000_0000_0000).as_u64(), 0xffff_8000_0000_0000);
    assert_eq!(VirtualAddr::new_truncate(0x0000_8000_0000_1234).as_u64(), 0xffff_8000_0000_1234);
    assert_eq!(VirtualAddr::new_truncate(0xffff_0000_0000_1234).as_u64(), 0x0000_0000_0000_1234);
    assert_eq!(VirtualAddr::new_truncate(0x1234_5678_9abc_def0).as_u64(), 0x0000_5678_9abc_def0);
    assert_eq!(VirtualAddr::new_truncate(0xabcd_f678_9abc_def0).as_u64(), 0xffff_f678_9abc_def0);
}

#[test]
fn new_truncate_is_always_canonical() {
    let samples: [u64; 8] = [
        0,
        1,
        0x0000_7fff_ffff_ffff,
        0x0000_8000_0000_0000,
        0x8000_0000_0000_0000,
        0xffff_7fff_ffff_ffff,
        0xffff_8000_0000_0000,
        u64::MAX,
    ];
    for v in samples {
        let t = VirtualAddr::new_truncate(v);
        assert_eq!(VirtualAddr::try_new(t.as_u64()), Ok(t));
        match VirtualAddr::try_new(v) {
            Ok(a) => {
                assert_eq!(a, t);
                assert_eq!(a.as_u64(), v);
            }
            Err(e) => {
                assert_eq!(e, VirtAddrNotValid(v));
                assert_ne!(t.as_u64(), v);
            }
        }
    }
}

#[test]
fn new_and_new_safe_wrap_the_value() {
    assert_eq!(VirtualAddr::new(0x1000).as_u64(), 0x1000);
    assert_eq!(VirtualAddr::new_safe(0xffff_ffff_ffff_f000).as_u64(), 0xffff_ffff_ffff_f000);
}

#[test]
fn zero_is_null() {
    assert!(VirtualAddr::zero().is_null());
    assert_eq!(VirtualAddr::zero().as_u64(), 0);
    assert!(!VirtualAddr::new(8).is_null());
}

#[test]
fn power_of_two_values() {
    assert!(power_of_two(1));
    assert!(power_of_two(4096));
    assert!(power_of_two(1 << 63));
    assert!(!power_of_two(0));
    assert!(!power_of_two(3));
    assert!(!power_of_two(4097));
}

#[test]
fn align_down_of_words() {
    assert_eq!(align_down(0x1234, 0x1000), 0x1000);
    assert_eq!(align_down(0x1000, 0x1000), 0x1000);
    assert_eq!(align_down(0xfff, 0x1000), 0);
    assert_eq!(align_down(0x1235, 1), 0x1235);
    assert_eq!(align_down(u64::MAX, 1 << 63), 1 << 63);
}

#[test]
fn align_up_of_words() {
    assert_eq!(align_up(0x1234, 0x1000), 0x2000);
    assert_eq!(align_up(0x1000, 0x1000), 0x1000);
    assert_eq!(align_up(1, 0x1000), 0x1000);
    assert_eq!(align_up(0, 0x1000), 0);
    assert_eq!(align_up(0x1235, 1), 0x1235);
    assert_eq!(align_up(0x1235, 2), 0x1236);
}

#[test]
fn address_align_down() {
    assert_eq!(VirtualAddr::new(0x1234).align_down(0x1000).as_u64(), 0x1000);
    assert_eq!(
        VirtualAddr::new(0xffff_8000_0000_1fff).align_down(0x1000).as_u64(),
        0xffff_8000_0000_1000
    );
    assert_eq!(VirtualAddr::new(0x7fff_ffff_ffff).align_down(1 << 47).as_u64(), 0);
}

#[test]
fn address_align_down_past_half_the_space_drops_upper_bits() {
    assert_eq!(VirtualAddr::new(0xffff_8000_0000_0000).align_down(1 << 48).as_u64(), 0);
}

#[test]
fn address_align_up() {
    assert_eq!(VirtualAddr::new(0x1234).align_up(0x1000).as_u64(), 0x2000);
    assert_eq!(VirtualAddr::new(0x2000).align_up(0x1000).as_u64(), 0x2000);
    assert_eq!(
        VirtualAddr::new(0x0000_7fff_ffff_f001).align_up(0x1000).as_u64(),
        0xffff_8000_0000_0000
    );
}

#[test]
fn address_is_aligned() {
    assert!(VirtualAddr::new(0x2000).is_aligned(0x1000));
    assert!(!VirtualAddr::new(0x2001).is_aligned(0x1000));
    assert!(VirtualAddr::new(0x2001).is_aligned(1));
    assert!(VirtualAddr::new(0xffff_8000_0000_0000).is_aligned(1 << 47));
    assert!(!VirtualAddr::new(0xffff_8000_0000_0000).is_aligned(1 << 48));
}

#[test]
fn align_down_brackets_the_address() {
    let addrs: [u64; 5] = [0, 1, 0x1234_5678, 0x0000_7fff_ffff_ffff, 0xffff_8000_0000_0123];
    let aligns: [u64; 5] = [1, 2, 8, 0x1000, 1 << 47];
    for a in addrs {
        for p in aligns {
            let addr = VirtualAddr::new(a);
            let down = addr.align_down(p);
            assert!(down.as_u64() <= a);
            assert!((a as u128) < down.as_u64() as u128 + p as u128);
            assert!(down.is_aligned(p));
            assert_eq!(down.align_up(p), down);
            if addr.is_aligned(p) {
                assert!(down.align_up(p).as_u64() >= a);
            }
        }
    }
}

#[test]
fn round_up_of_rounded_down_stays_below_an_unaligned_address() {
    let a = VirtualAddr::new(1);
    assert_eq!(a.align_down(2).align_up(2).as_u64(), 0);
}

#[test]
fn physical_address_wraps_the_value() {
    assert_eq!(PhyAddr::new(0x1234_5000).as_u64(), 0x1234_5000);
    assert_eq!(PhyAddr::new(0x000f_ffff_ffff_ffff).as_u64(), 0x000f_ffff_ffff_ffff);
}

#[test]
fn addresses_are_ordered_by_value() {
    assert!(VirtualAddr::new(0x1000) < VirtualAddr::new(0x2000));
    assert!(VirtualAddr::new(0xffff_8000_0000_0000) > VirtualAddr::new(0x0000_7fff_ffff_ffff));
    assert!(PhyAddr::new(0x1000) <= PhyAddr::new(0x1000));
    assert_eq!(VirtualAddr::new(0x1000).max(VirtualAddr::new(0x3000)).as_u64(), 0x3000);
}
