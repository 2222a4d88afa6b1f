use rs_utp::time::now_micro;
use rs_utp::utils::{wrapping_less, wrapping_less_u16, wrapping_min};

#[test]
fn test_wrapping_less_plain() {
    assert!(wrapping_less(1, 2));
    assert!(!wrapping_less(2, 1));
    assert!(!wrapping_less(5, 5));
}

#[test]
fn test_wrapping_less_across_wrap() {
    assert!(wrapping_less(u32::MAX, 0));
    assert!(!wrapping_less(0, u32::MAX));
    assert!(wrapping_less(u32::MAX - 10, 5));
}

#[test]
fn test_wrapping_less_half_ring() {
    assert!(wrapping_less(0, 0x7FFF_FFFF));
    assert!(!wrapping_less(0, 0x8000_0000));
    assert!(!wrapping_less(0x8000_0000, 0));
}

#[test]
fn test_wrapping_less_u16() {
    assert!(wrapping_less_u16(65535, 0));
    assert!(!wrapping_less_u16(0, 65535));
    assert!(wrapping_less_u16(10, 11));
    assert!(!wrapping_less_u16(7, 7));
    assert!(wrapping_less_u16(0, 0x7FFF));
    assert!(!wrapping_less_u16(0, 0x8000));
    assert!(!wrapping_less_u16(0x8000, 0));
}

#[test]
fn test_wrapping_less_shift_invariant() {
    for k in [0u32, 1, 0x7FFF_FFFF, 0xFFFF_FFF0] {
        for (a, b) in [(1u32, 2u32), (u32::MAX, 3), (10, 0x9000_0000)] {
            assert_eq!(wrapping_less(a.wrapping_add(k), b.wrapping_add(k)), wrapping_less(a, b));
        }
    }
}

#[test]
fn test_wrapping_min() {
    assert_eq!(wrapping_min(3, 9), 3);
    assert_eq!(wrapping_min(9, 3), 3);
    assert_eq!(wrapping_min(u32::MAX, 1), u32::MAX);
    assert_eq!(wrapping_min(1, u32::MAX), u32::MAX);
    assert_eq!(wrapping_min(4, 4), 4);
}

#[test]
fn test_now_micro_truncates() {
    assert_eq!(now_micro(0), 0);
    assert_eq!(now_micro(1_234_567), 1_234_567);
    assert_eq!(now_micro(0x1_0000_0000), 0);
    assert_eq!(now_micro(0x1_0000_0005), 5);
    assert_eq!(now_micro(u128::MAX), u32::MAX);
}
