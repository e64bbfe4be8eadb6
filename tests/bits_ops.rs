use bits::{BitsOps, IntoBits};

#[test]
fn bits_ops_test() {
    assert_eq!(0xffu8.bits(..).clr(), 0);
    assert_eq!(0xffu8.bits(..1).clr(), 0xff - 0b1);
    assert_eq!(0xffu8.bits(1..).clr(), 1);
    assert_eq!(0xffu8.bits(1..2).clr(), 0xff - 0b10);
    assert_eq!(0xffu8.bits(1..=2).clr(), 0xff - 0b110);
}

fn bits_iterator(data: u64, out: &mut [u8; 64]) {
    let mut iter = data.bits(0..=63).into_iter();
    let mut idx = 0usize;
    while let Some(bit) = iter.next() {
        out[idx] = bit.is_set() as u8;
        idx += 1;
    }
}

fn plain_loop(data: u64, out: &mut [u8; 64]) {
    let mut mask = 0x1u64;
    let mut idx = 0usize;
    while idx < 64 {
        if data & mask != 0 {
            out[idx] = 1;
        } else {
            out[idx] = 0;
        }
        mask <<= 1;
        idx += 1;
    }
}

#[test]
fn bits_iterator_test() {
    let mut out_iterator = [0u8; 64];
    let mut out_loop = [0u8; 64];
    (0..=0xffff).for_each(|x| {
        bits_iterator(x, &mut out_iterator);
        plain_loop(x, &mut out_loop);
        assert_eq!(out_iterator, out_loop);
    })
}

#[test]
fn count_ones_test() {
    (0..=0x7f).for_each(|x: u8| assert_eq!(x.bits(..).count_ones(), x.count_ones()));
    (0x5a5a..=0xffff).for_each(|x: u16| assert_eq!(x.bits(..).count_ones(), x.count_ones()));
    (0x5a5a5a5a..=0x5a5aff5a)
        .for_each(|x: u32| assert_eq!(x.bits(..).count_ones(), x.count_ones()));
    (0x5a5a_5a5a_5a5a_5a5a..=0x5a5a_55aa_ffff_5a5a)
        .for_each(|x: u64| assert_eq!(x.bits(..).count_ones(), x.count_ones()));
}
