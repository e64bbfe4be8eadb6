use bits::{BitsOps, IntoBits, __count_ones_u16, __count_ones_u8};

#[test]
fn single_bits_and_ranges() {
    assert_eq!(0u8.bits(0).set(), 0x01);
    assert_eq!(0u8.bits(1).set(), 0x02);
    assert_eq!(0u8.bits(4..=7).set(), 0xf0);
    assert_eq!(0xffu8.bits(4..=7).clr(), 0x0f);
    assert_eq!(0xffu8.bits(3).revert(), 0xf7);
    assert_eq!(0xffu8.bits(4..=7).revert(), 0x0f);
    assert_eq!(0u8.bits(4..=7).write(0x10), 0x0);
    assert_eq!(0u8.bits(4..=7).write(0x12), 0x20);
    assert_eq!(0x12u8.bits(4..=7).read(), 0x1);
    assert!(0xf0u8.bits(4..=7).is_set());
    assert!(!0x70u8.bits(4..=7).is_set());
    assert!(!0x70u8.bits(4..=7).is_clr());
    assert!(0x70u8.bits(0..=3).is_clr());
}

#[test]
fn literal_scenarios() {
    assert_eq!(0u8.bits(4..=7).write(0x1), 0x10);
    assert_eq!(0x12u8.bits(4..=7).read(), 0x1);
    assert_eq!(0xffu8.bits(4..=7).clr(), 0x0f);
}

#[test]
fn full_width_ranges() {
    assert_eq!(0u8.bits(..).set(), u8::MAX);
    assert_eq!(0u16.bits(0..=15).set(), u16::MAX);
    assert_eq!(0u32.bits(..).set(), u32::MAX);
    assert_eq!(0u64.bits(0..64).set(), u64::MAX);
    assert_eq!(0u128.bits(..).set(), u128::MAX);
    assert_eq!(0x1234_5678u32.bits(..).read(), 0x1234_5678);
    assert_eq!(u128::MAX.bits(127).clr(), u128::MAX >> 1);
    assert_eq!(0u128.bits(64..=127).write(u128::MAX), !0u128 << 64);
    assert_eq!(0xdead_beef_0000_0000u64.bits(32..).read(), 0xdead_beef);
}

#[test]
fn each_width_reads_and_writes() {
    assert_eq!(0xabcdu16.bits(4..8).read(), 0xc);
    assert_eq!(0xabcdu16.bits(4..8).write(0x3), 0xab3d);
    assert_eq!(0x8000_0001u32.bits(31).is_set(), true);
    assert_eq!(0x8000_0001u32.bits(1..=30).is_clr(), true);
    assert_eq!(0x0f0f_0f0f_0f0f_0f0fu64.bits(8..=15).revert(), 0x0f0f_0f0f_0f0f_f00f);
    assert_eq!(0x0f0f_0f0f_0f0f_0f0fu64.bits(..).count_ones(), 32);
    assert_eq!(0xffu128.bits(100..=101).set(), 0x30_0000_0000_0000_0000_0000_00ff);
    assert_eq!(0x30_0000_0000_0000_0000_0000_00ffu128.bits(100..=101).read(), 3);
}

#[test]
fn count_ones_in_a_range() {
    assert_eq!(0xf0u8.bits(4..=5).count_ones(), 2);
    assert_eq!(0xf0u8.bits(0..=3).count_ones(), 0);
    assert_eq!(0xffffu16.bits(3..=12).count_ones(), 10);
    assert_eq!(0x5555_5555u32.bits(..).count_ones(), 16);
    assert_eq!(u128::MAX.bits(..).count_ones(), 128);
    assert_eq!(0u128.bits(..).count_ones(), 0);
}

#[test]
fn count_ones_matches_native_exhaustively() {
    for x in 0..=u8::MAX {
        assert_eq!(x.bits(..).count_ones(), x.count_ones());
        assert_eq!(__count_ones_u8(x), x.count_ones());
    }
    for x in 0..=u16::MAX {
        assert_eq!(x.bits(..).count_ones(), x.count_ones());
        assert_eq!(__count_ones_u16(x), x.count_ones());
    }
}

#[test]
fn count_ones_matches_native_on_samples() {
    let mut x: u64 = 0x9e37_79b9_7f4a_7c15;
    for _ in 0..20000 {
        x ^= x << 13;
        x ^= x >> 7;
        x ^= x << 17;
        let y = x as u32;
        assert_eq!(y.bits(..).count_ones(), y.count_ones());
        assert_eq!(x.bits(..).count_ones(), x.count_ones());
        let z = ((x as u128) << 64) | (x.rotate_left(29) as u128);
        assert_eq!(z.bits(..).count_ones(), z.count_ones());
    }
}

#[test]
fn byte_counts() {
    assert_eq!(__count_ones_u8(0), 0);
    assert_eq!(__count_ones_u8(0xff), 8);
    assert_eq!(__count_ones_u8(0b1010_0110), 4);
    assert_eq!(__count_ones_u16(0xff00), 8);
    assert_eq!(__count_ones_u16(0x8001), 2);
    assert_eq!(__count_ones_u16(0xffff), 16);
}

#[test]
fn write_keeps_the_bits_outside() {
    for v in [0u8, 0x5a, 0xa5, 0xff] {
        for x in [0u8, 1, 0x3c, 0xff] {
            for lo in 0..8u32 {
                for hi in lo..8u32 {
                    let mask = (((1u16 << (hi + 1)) - (1u16 << lo)) & 0xff) as u8;
                    let w = v.bits(lo..=hi).write(x);
                    assert_eq!(w & !mask, v & !mask);
                    let len = hi - lo + 1;
                    let low = if len == 8 { 0xff } else { ((1u16 << len) - 1) as u8 };
                    assert_eq!(w.bits(lo..=hi).read(), x & low);
                }
            }
        }
    }
}

#[test]
fn set_clear_and_revert_laws() {
    for v in [0u16, 0x1234, 0xfedc, 0xffff] {
        for lo in 0..16u32 {
            for hi in lo..16u32 {
                let set = v.bits(lo..=hi).set();
                let clr = v.bits(lo..=hi).clr();
                assert_eq!(set.bits(lo..=hi).clr(), clr);
                assert!(set.bits(lo..=hi).is_set());
                assert!(clr.bits(lo..=hi).is_clr());
                assert_eq!(set.bits(lo..=hi).set(), set);
                let rev = v.bits(lo..=hi).revert();
                assert_eq!(rev.bits(lo..=hi).revert(), v);
            }
        }
    }
}

#[test]
fn iterator_matches_shift_and_test_on_u16() {
    for v in 0..=u16::MAX {
        let mut iter = v.bits(..).into_iter();
        let mut i = 0u32;
        while let Some(bit) = iter.next() {
            assert_eq!(bit.is_set(), v & (1u16 << i) != 0);
            assert_eq!(bit.is_clr(), v & (1u16 << i) == 0);
            i += 1;
        }
        assert_eq!(i, 16);
        assert!(iter.next().is_none());
    }
}

#[test]
fn iterator_over_a_part() {
    let mut iter = 0b1011_0100u8.bits(2..=5).into_iter();
    let mut seen = Vec::new();
    while let Some(bit) = iter.next() {
        seen.push(bit.is_set());
    }
    assert_eq!(seen, vec![true, false, true, true]);
    assert!(iter.next().is_none());
    assert!(iter.next().is_none());
}

#[test]
fn usize_ranges() {
    assert_eq!(0usize.bits(..).set(), usize::MAX);
    assert_eq!(0xf0usize.bits(4..=7).read(), 0xf);
    assert_eq!(0usize.bits(4..=7).write(0x1), 0x10);
    assert_eq!(usize::MAX.bits(1..).clr(), 1);
    assert_eq!(usize::MAX.bits(..).count_ones(), usize::BITS);
    assert_eq!(0x5a5ausize.bits(0..16).count_ones(), 8);
    assert_eq!(0x5ausize.bits(3).revert(), 0x52);
    let top = usize::BITS - 1;
    assert!(usize::MAX.bits(top).is_set());
    assert!(0usize.bits(top).is_clr());
}
