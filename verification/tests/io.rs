use papa::io::{write_all_step, Error, WriteAttempt};
use papa::io::{inverse_popcnt, BitBuf, Cursor, Read, ReadInt, ReadLe, Write, WriteInt, WriteLe, U24};

#[test]
fn bit_buf_queue() {
    let mut buf = BitBuf::new();
    assert_eq!(buf.bits(), 0);
    assert_eq!(buf.len(), 0);
    buf.write_bits(3, 0b101).unwrap();
    assert_eq!(buf.bits(), 0b101);
    assert_eq!(buf.len(), 3);
    buf.write_bits(2, 0b10).unwrap();
    assert_eq!(buf.bits(), 0b10110);
    assert_eq!(buf.len(), 5);
    buf.write_bit(true).unwrap();
    assert_eq!(buf.bits(), 0b101101);
    assert_eq!(buf.len(), 6);
    buf.write_zero_bits(2).unwrap();
    assert_eq!(buf.bits(), 0b10110100);
    assert_eq!(buf.len(), 8);
    assert!(buf.write_bit(true).is_err());

    assert_eq!(buf.read_bits(3).unwrap(), 0b101);
    assert_eq!(buf.len(), 5);
    assert_eq!(buf.read_bit().unwrap(), true);
    assert_eq!(buf.len(), 4);
    assert_eq!(buf.read_bits(4).unwrap(), 0b0100);
    assert_eq!(buf.len(), 0);
    assert!(buf.read_bit().is_err());
}

#[test]
fn bit_bif_edge_cases() {
    let mut buf = BitBuf::from_bits(0x55);
    assert_eq!(buf.read_bits(0).unwrap(), 0);
    assert_eq!(buf.len(), 8);
    assert_eq!(buf.read_bits(8).unwrap(), 0x55);
    assert_eq!(buf.len(), 0);

    let mut buf = BitBuf::new();
    buf.write_bits(8, 0xaa).unwrap();
    assert_eq!(buf.bits(), 0xaa);
    assert_eq!(buf.len(), 8);
    buf.write_bits(0, 0x42).unwrap();
    assert_eq!(buf.bits(), 0xaa);
    assert_eq!(buf.len(), 8);
}

#[test]
fn read_bytes() {
    let mut bytes: &[u8] = b"Hello!";
    assert_eq!(bytes.read_bytes(3).unwrap(), b"Hel");
    assert_eq!(bytes.len(), 3);
    assert_eq!(bytes.read_le::<u16>().unwrap(), 0x6f6c);
    assert_eq!(bytes.len(), 1);
    assert!(bytes.read_le::<u32>().is_err());
}

#[test]
fn cursor() {
    let mut buf = [0; 8];
    let mut cursor = Cursor::new(&mut buf);

    cursor.write_le::<u32>(0xffaaffaa).unwrap();
    assert_eq!(cursor.consumed_len(), 4);
    assert_eq!(cursor.consumed_bytes(), &[0xaa, 0xff, 0xaa, 0xff]);
    let bytes = cursor.take_consumed_bytes();
    assert_eq!(bytes, &[0xaa, 0xff, 0xaa, 0xff]);
    assert_eq!(cursor.consumed_len(), 0);

    assert!(cursor.write_bytes(&[0x55; 7]).is_err());
}

#[test]
fn bit_buf_queue_order_law() {
    // What goes in first comes out first, bit for bit.
    let mut buf = BitBuf::new();
    buf.write_bits(4, 0b1001).unwrap();
    buf.write_bits(4, 0b0110).unwrap();
    assert_eq!(buf.read_bits(4).unwrap(), 0b1001);
    assert_eq!(buf.read_bits(4).unwrap(), 0b0110);
}

#[test]
fn bit_buf_errors() {
    let mut buf = BitBuf::new();
    assert!(buf.read_bits(1).is_err());
    buf.write_bits(7, 0).unwrap();
    assert!(buf.write_bits(2, 0).is_err());
    assert_eq!(buf.len(), 7);
    assert!(buf.write_zero_bits(2).is_err());
}

#[test]
fn inverse_popcnt_values() {
    assert_eq!(inverse_popcnt(0), 0);
    assert_eq!(inverse_popcnt(3), 0b111);
    assert_eq!(inverse_popcnt(8), 0xff);
}

#[test]
fn read_write_big_endian() {
    let mut out: Vec<u8> = Vec::new();
    out.write_be::<u32>(0x01020304).unwrap();
    out.write_be::<u16>(0x0506).unwrap();
    out.write_be::<U24>(U24::new(0x070809)).unwrap();
    assert_eq!(out, vec![1, 2, 3, 4, 5, 6, 7, 8, 9]);
    let mut r: &[u8] = &out;
    assert_eq!(r.read_be::<u32>().unwrap(), 0x01020304);
    assert_eq!(r.read_be::<u16>().unwrap(), 0x0506);
    assert_eq!(r.read_be::<U24>().unwrap().get(), 0x070809);
    assert_eq!(r.remaining_data(), 0);
    assert!(r.read_be::<u8>().is_err());
}

#[test]
fn little_endian_u64() {
    let mut out: Vec<u8> = Vec::new();
    out.write_le::<u64>(0x0102030405060708).unwrap();
    assert_eq!(out, vec![8, 7, 6, 5, 4, 3, 2, 1]);
    let mut r: &[u8] = &out;
    assert_eq!(r.read_le::<u64>().unwrap(), 0x0102030405060708);
}

#[test]
fn u24_bounds() {
    assert_eq!(U24::max_value(), 0xff_ffff);
    assert_eq!(U24::min_value(), 0);
    assert_eq!(U24::new(0xff_ffff).get(), 0xff_ffff);
}

#[test]
fn cursor_consume() {
    let mut buf = [1u8, 2, 3, 4, 5];
    let mut cursor = Cursor::new(&mut buf);
    assert_eq!(cursor.consume(2).unwrap(), &[1, 2]);
    assert!(cursor.consume(4).is_none());
    assert_eq!(cursor.consume(3).unwrap(), &[3, 4, 5]);
    assert_eq!(cursor.consumed_len(), 5);
}

#[test]
fn read_from_mutable_slice() {
    let mut buf = *b"World!";
    let mut bytes = &mut buf[..];
    assert_eq!(bytes.remaining_data(), 6);
    assert_eq!(bytes.read_le::<u32>().unwrap(), 0x6c726f57);
    assert_eq!(bytes.remaining_data(), 2);
    assert!(bytes.read_bytes(3).is_err());
    assert_eq!(bytes.read_bytes(2).unwrap(), b"d!");
    assert_eq!(bytes.remaining_data(), 0);
}

#[test]
fn cursor_write_then_take() {
    let mut buf = [0u8; 8];
    let mut cursor = Cursor::new(&mut buf);
    cursor.write_le::<u32>(0xffaaffaa).unwrap();
    assert_eq!(cursor.consumed_len(), 4);
    let taken = cursor.take_consumed_bytes();
    assert_eq!(taken, &[0xaa, 0xff, 0xaa, 0xff]);
    assert_eq!(cursor.consumed_len(), 0);
    assert!(cursor.write_bytes(&[0x55; 7]).is_err());
    assert_eq!(cursor.consumed_len(), 0);
    assert!(cursor.consume(4).is_some());
    assert!(cursor.consume(1).is_none());
}

#[test]
fn write_all_steps() {
    assert_eq!(write_all_step(4, WriteAttempt::Wrote(3)), Ok(1));
    assert_eq!(write_all_step(1, WriteAttempt::Interrupted), Ok(1));
    assert_eq!(write_all_step(1, WriteAttempt::Wrote(1)), Ok(0));
    assert_eq!(write_all_step(1, WriteAttempt::Failed), Err(Error::Internal));
}
