use bits::field::{
    read_raw, write_raw, BufferReader, BufferWriter, Field, FieldReader, FieldWriter,
};
use bits::{BitsOps, IntoBits};

struct FoolData {
    data: u32,
    data1: u32,
}

impl BufferWriter for FoolData {}
impl BufferReader for FoolData {}

struct Flag1;
struct Flag2;
struct Flag3;
struct Flag4;
struct Flag5;
struct Flag6;

impl Field<FoolData> for Flag1 {
    type ValueType = u32;
}
impl FieldReader<FoolData> for Flag1 {
    fn spec_read(buffer: FoolData) -> u32 {
        read_raw(buffer.data, 0..=3)
    }
    fn read(buffer: &FoolData) -> u32 {
        read_raw(buffer.data, 0..=3)
    }
}
impl FieldWriter<FoolData> for Flag1 {
    fn spec_write(mut buffer: FoolData, value: u32) -> FoolData {
        write_raw(&mut buffer.data, 0..=3, value);
        buffer
    }
    fn write(buffer: &mut FoolData, value: u32) {
        write_raw(&mut buffer.data, 0..=3, value)
    }
}

impl Field<FoolData> for Flag2 {
    type ValueType = u32;
}
impl FieldReader<FoolData> for Flag2 {
    fn spec_read(buffer: FoolData) -> u32 {
        read_raw(buffer.data, 4..=5)
    }
    fn read(buffer: &FoolData) -> u32 {
        read_raw(buffer.data, 4..=5)
    }
}
impl FieldWriter<FoolData> for Flag2 {
    fn spec_write(mut buffer: FoolData, value: u32) -> FoolData {
        write_raw(&mut buffer.data, 4..=5, value);
        buffer
    }
    fn write(buffer: &mut FoolData, value: u32) {
        write_raw(&mut buffer.data, 4..=5, value)
    }
}

// Read only: no FieldWriter.
impl Field<FoolData> for Flag3 {
    type ValueType = bool;
}
impl FieldReader<FoolData> for Flag3 {
    fn spec_read(buffer: FoolData) -> bool {
        read_raw(buffer.data, 6) == 1
    }
    fn read(buffer: &FoolData) -> bool {
        read_raw(buffer.data, 6) == 1
    }
}

impl Field<FoolData> for Flag4 {
    type ValueType = bool;
}
impl FieldReader<FoolData> for Flag4 {
    fn spec_read(buffer: FoolData) -> bool {
        read_raw(buffer.data, 7) == 1
    }
    fn read(buffer: &FoolData) -> bool {
        read_raw(buffer.data, 7) == 1
    }
}
impl FieldWriter<FoolData> for Flag4 {
    fn spec_write(mut buffer: FoolData, value: bool) -> FoolData {
        write_raw(&mut buffer.data, 7, value as u32);
        buffer
    }
    fn write(buffer: &mut FoolData, value: bool) {
        write_raw(&mut buffer.data, 7, value as u32)
    }
}

impl Field<FoolData> for Flag5 {
    type ValueType = bool;
}
impl FieldReader<FoolData> for Flag5 {
    fn spec_read(buffer: FoolData) -> bool {
        match read_raw(buffer.data, 8..=9) {
            0x1 => true,
            _ => false,
        }
    }
    fn read(buffer: &FoolData) -> bool {
        match read_raw(buffer.data, 8..=9) {
            0x1 => true,
            _ => false,
        }
    }
}
impl FieldWriter<FoolData> for Flag5 {
    fn spec_write(mut buffer: FoolData, value: bool) -> FoolData {
        let raw = match value {
            true => 0x1,
            _ => 0x0,
        };
        write_raw(&mut buffer.data, 8..=9, raw);
        buffer
    }
    fn write(buffer: &mut FoolData, value: bool) {
        let raw = match value {
            true => 0x1,
            _ => 0x0,
        };
        write_raw(&mut buffer.data, 8..=9, raw)
    }
}

impl Field<FoolData> for Flag6 {
    type ValueType = u32;
}
impl FieldReader<FoolData> for Flag6 {
    fn spec_read(buffer: FoolData) -> u32 {
        read_raw(buffer.data1, 0..=3)
    }
    fn read(buffer: &FoolData) -> u32 {
        read_raw(buffer.data1, 0..=3)
    }
}
impl FieldWriter<FoolData> for Flag6 {
    fn spec_write(mut buffer: FoolData, value: u32) -> FoolData {
        write_raw(&mut buffer.data1, 0..=3, value);
        buffer
    }
    fn write(buffer: &mut FoolData, value: u32) {
        write_raw(&mut buffer.data1, 0..=3, value)
    }
}

#[test]
fn fields_of_a_buffer() {
    let mut fool = FoolData { data: 0x0, data1: 0x0 };
    fool.write::<Flag1>(0xf);
    assert_eq!(fool.data, 0xf);

    fool.write::<Flag2>(0x3);
    assert_eq!(fool.data, 0b0011_1111);

    fool.write::<Flag4>(true);
    assert_eq!(fool.data, 0b1011_1111);

    assert_eq!(fool.read::<Flag3>(), false);
    assert_eq!(fool.read::<Flag4>(), true);

    fool.data = fool.data.bits(8..=9).write(0x2);
    assert_eq!(false, fool.read::<Flag5>());

    fool.write::<Flag5>(true);
    assert_eq!(0b01, fool.data.bits(8..=9).read());

    fool.write::<Flag6>(0x9);
    assert_eq!(fool.data1, 0x9);
    assert_eq!(fool.data & 0xf, 0xf);
}

#[test]
fn chained_writes_and_output() {
    let mut fool = FoolData { data: 0xffff_0000, data1: 0 };
    fool.write::<Flag1>(0x5).write::<Flag2>(0x2).write::<Flag6>(0xa);
    assert_eq!(fool.data, 0xffff_0025);
    assert_eq!(fool.data1, 0xa);

    let mut a = 0u32;
    let mut b = 0u32;
    fool.output::<Flag1>(&mut a).output::<Flag2>(&mut b);
    assert_eq!((a, b), (0x5, 0x2));
}

#[test]
fn field_round_trip_keeps_other_fields() {
    let mut fool = FoolData { data: 0xa5a5_a5a5, data1: 0x1234_5678 };
    for x in 0..16u32 {
        fool.write::<Flag1>(x);
        assert_eq!(fool.read::<Flag1>(), x);
        assert_eq!(fool.data & !0xf, 0xa5a5_a5a0);
        fool.write::<Flag6>(x);
        assert_eq!(fool.read::<Flag6>(), x);
        assert_eq!(fool.data1 & !0xf, 0x1234_5670);
    }
    for x in 0..4u32 {
        fool.write::<Flag2>(x);
        assert_eq!(fool.read::<Flag2>(), x);
    }
}

#[test]
fn raw_field_helpers() {
    let mut raw = 0xf0f0u16;
    write_raw(&mut raw, 4..8, 0x3);
    assert_eq!(raw, 0xf030);
    assert_eq!(read_raw(raw, 4..8), 0x3);
    assert_eq!(read_raw(raw, 12..), 0xf);
    write_raw(&mut raw, .., 0x1234);
    assert_eq!(raw, 0x1234);
}
