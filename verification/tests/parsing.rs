use icarus::parsing::{
    read_bytes, read_i16_be, read_str, read_tag, read_u16_be, read_u16_le, read_u32_be, read_u32_le,
    read_u64_be, read_u64_le, read_u8, Cursor, ReadError,
};

#[test]
fn reads_integers_in_both_byte_orders() {
    let data = [1u8, 2, 3, 4, 5, 6, 7, 8];
    let mut r = Cursor::new(&data);
    assert_eq!(read_u16_be(&mut r), Ok(0x0102));
    assert_eq!(r.position(), 2);
    assert_eq!(read_u16_le(&mut r), Ok(0x0403));
    assert_eq!(read_u32_be(&mut r), Ok(0x05060708));
    assert_eq!(r.position(), 8);
    assert_eq!(r.remaining_len(), 0);

    let mut r = Cursor::new(&data);
    assert_eq!(read_u32_le(&mut r), Ok(0x04030201));
    let mut r = Cursor::new(&data);
    assert_eq!(read_u64_be(&mut r), Ok(0x0102030405060708));
    let mut r = Cursor::new(&data);
    assert_eq!(read_u64_le(&mut r), Ok(0x0807060504030201));
    let mut r = Cursor::new(&data);
    assert_eq!(read_u8(&mut r), Ok(1));
    assert_eq!(r.remaining_len(), 7);
}

#[test]
fn reads_signed_big_endian() {
    let data = [0xffu8, 0xfe, 0x7f, 0xff];
    let mut r = Cursor::new(&data);
    assert_eq!(read_i16_be(&mut r), Ok(-2));
    assert_eq!(read_i16_be(&mut r), Ok(0x7fff));
}

#[test]
fn short_input_is_an_error_and_consumes_the_rest() {
    let data = [1u8, 2, 3];
    let mut r = Cursor::new(&data);
    assert_eq!(read_u32_le(&mut r), Err(ReadError::UnexpectedEof));
    assert_eq!(r.position(), 3);
    let mut r = Cursor::new(&data);
    r.set_position(10);
    assert_eq!(read_u8(&mut r), Err(ReadError::UnexpectedEof));
    let empty: [u8; 0] = [];
    let mut r = Cursor::new(&empty);
    assert_eq!(read_u64_be(&mut r), Err(ReadError::UnexpectedEof));
}

#[test]
fn read_bytes_takes_exactly_n() {
    let data = [9u8, 8, 7, 6];
    let mut r = Cursor::new(&data);
    assert_eq!(read_bytes(&mut r, 3), Ok(vec![9, 8, 7]));
    assert_eq!(read_bytes(&mut r, 2), Err(ReadError::UnexpectedEof));
}

#[test]
fn read_str_stops_after_the_zero_byte() {
    let data = b"abc\0de\0f";
    let mut r = Cursor::new(data);
    assert_eq!(read_str(&mut r), Ok(String::from("abc")));
    assert_eq!(r.position(), 4);
    assert_eq!(read_str(&mut r), Ok(String::from("de")));
    // Without a closing zero byte the last byte is dropped.
    assert_eq!(read_str(&mut r), Ok(String::from("")));
    assert_eq!(r.position(), 8);
    assert_eq!(read_str(&mut r), Ok(String::from("")));
}

#[test]
fn read_tag_trims_trailing_zeros() {
    let data = b"AB\0\0SDNA";
    let mut r = Cursor::new(data);
    assert_eq!(read_tag(&mut r), Ok(String::from("AB")));
    assert_eq!(read_tag(&mut r), Ok(String::from("SDNA")));
    assert_eq!(read_tag(&mut r).is_err(), true);
}
