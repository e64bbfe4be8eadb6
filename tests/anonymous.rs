use bits::anonymous::{Bits, BitsMut};

#[test]
fn anonymous_masks_end_before_their_last_bit() {
    let b = Bits(0xffu8);
    assert_eq!(b.read(4..=7), 0x7);
    assert_eq!(b.read(4..7), 0x7);
    assert_eq!(b.read(3u32), 0x1);
    let c = Bits(0x1234u16);
    assert_eq!(c.read(4..8), 0x3);
}

#[test]
fn anonymous_changes_in_place() {
    let mut b = Bits(0u32);
    b.set(0..4);
    assert_eq!(b.0, 0xf);
    b.clear(1u32);
    assert_eq!(b.0, 0xd);
    b.write(0..4, 0x2);
    assert_eq!(b.0, 0x2);
    let mut c = Bits(0xff00u64);
    c.write(8..12, 0x30);
    assert_eq!(c.0, 0xf030);
    let mut d = Bits(0u128);
    d.set(100u32);
    assert_eq!(d.0, 1u128 << 100);
}

#[test]
fn anonymous_queries() {
    let b = Bits(0xf0u8);
    assert!(b.has_all(4..7));
    assert!(!b.has_all(3..7));
    assert!(b.has_any(0..4));
    assert!(!b.has_any(4..6));
    assert!(b.has_any_set(4..6));
    assert!(!b.has_any_set(0..4));
}

#[test]
fn anonymous_borrowed_write() {
    let mut x = 0xf0u8;
    {
        let mut m = BitsMut(&mut x);
        m.write(0..4, 0x5);
    }
    assert_eq!(x, 0xf5);
}
