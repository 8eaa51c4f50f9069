use std::fmt::Debug;

use nl80211_rs::{HardwareAddress, LittleUnpack, MultiValue, NativeParse, NativeRead, NativeWrite,
    unpack_vec};

fn read_write_test<T: NativeRead + NativeWrite + NativeParse + Debug + PartialEq>(
    bytes: &[u8],
    value: T,
) {
    let mut pos: usize = 0;
    assert_eq!(T::read(bytes, &mut pos).unwrap(), value);
    assert_eq!(pos, bytes.len());
    let mut out: Vec<u8> = Vec::new();
    value.write(&mut out);
    assert_eq!(out, Vec::from(bytes));
    assert_eq!(T::parse(bytes).unwrap(), value);
}

#[test]
fn read_write_u8() {
    read_write_test(&[0x5a], 0x5au8);
}

#[test]
fn read_write_i8() {
    read_write_test(&[0xa5], -91i8);
}

#[test]
fn read_write_u16() {
    read_write_test(&[0x22, 0xaa], 0xaa22u16.to_le());
}

#[test]
fn read_write_u32() {
    read_write_test(&[0x44, 0x33, 0x22, 0x11], 0x11223344u32.to_le());
}

#[test]
fn read_write_u64() {
    read_write_test(
        &[0x88, 0x77, 0x66, 0x55, 0x44, 0x33, 0x22, 0x11],
        0x1122334455667788u64.to_le(),
    );
}

#[test]
fn read_write_i16() {
    read_write_test(&[0x55, 0xaa], (-21931i16).to_le());
}

#[test]
fn read_write_i32() {
    read_write_test(&[0x11, 0x22, 0x33, 0xa4], (-1540152815i32).to_le());
}

#[test]
fn read_write_i64() {
    read_write_test(
        &[0x11, 0x77, 0x66, 0x55, 0x44, 0x33, 0x22, 0x88],
        (-8637284766759618799i64).to_le(),
    );
}

#[test]
fn read_write_hardware_address() {
    let bytes = vec![0xaa, 0xbb, 0xcc, 0xdd, 0xee, 0xff];
    let hwa = HardwareAddress::from_bytes([0xaa, 0xbb, 0xcc, 0xdd, 0xee, 0xff]);
    read_write_test(bytes.as_slice(), hwa);
}

#[test]
fn read_string() {
    let bytes = vec![0xf0, 0x9f, 0x9b, 0xa0];
    assert_eq!(String::read(&bytes, 4).unwrap(), String::from("\u{1F6E0}"));

    let bytes = vec![0xf0, 0x9f, 0x9b, 0xa0, 0x00];
    assert_eq!(String::read(&bytes, 5).unwrap(), String::from("\u{1F6E0}"));

    let bytes = vec![0x48, 0x65, 0x6c, 0x6c, 0x6f, 0x00];
    assert_eq!(String::read(&bytes, 6).unwrap(), String::from("Hello"));

    let bytes = vec![0x48, 0x65, 0x6c, 0x6c, 0x6f];
    assert_eq!(String::read(&bytes, 5).unwrap(), String::from("Hello"));

    // Trailing NUL padding is dropped, not carried into the text.
    let bytes = vec![0x48, 0x65, 0x6c, 0x6c, 0x6f, 0x00, 0x00, 0x00, 0x00, 0x00];
    assert_eq!(String::read(&bytes, 10).unwrap(), String::from("Hello"));
}

#[test]
fn write_string() {
    let string = String::from("\u{1F6E0}");
    let mut out: Vec<u8> = Vec::new();
    string.write(&mut out).unwrap();
    assert_eq!(out, vec![0xf0, 0x9f, 0x9b, 0xa0, 0x00]);

    let string = String::from("Hello");
    let mut out: Vec<u8> = Vec::new();
    string.write(&mut out).unwrap();
    assert_eq!(out, vec![0x48, 0x65, 0x6c, 0x6c, 0x6f, 0x00]);
    assert_eq!(string.size(), 6);
}

#[test]
fn write_string_with_interior_nul_fails() {
    let string = String::from("He\0llo");
    let mut out: Vec<u8> = Vec::new();
    assert!(string.write(&mut out).is_err());
    assert!(out.is_empty());
}

#[test]
fn unpack_u8() {
    let data = [0xff, 1, 2, 3];
    let v = u8::unpack(&data).unwrap();
    assert_eq!(v, 255u8);
    let (s, v) = u8::unpack_with_size(&data[1..]).unwrap();
    assert_eq!(s, 1usize);
    assert_eq!(v, 1u8);
}

#[test]
fn unpack_u16() {
    let v = u16::unpack(&[0xff, 1, 2, 3]).unwrap();
    assert_eq!(v, 0x01ffu16);
}

#[test]
fn unpack_u32() {
    let v = u32::unpack(&[0, 1, 2, 3, 0xff, 0xee, 0xdd, 0xcc]).unwrap();
    assert_eq!(v, 0x03020100u32);
}

#[test]
fn unpack_u64() {
    let v = u64::unpack(&[
        0, 1, 2, 3, 0xff, 0xee, 0xdd, 0xcc, 0x55, 0xaa, 0, 1, 2, 3, 4, 5,
    ])
    .unwrap();
    assert_eq!(v, 0xccddeeff03020100u64);
}

#[test]
fn unpack_vector() {
    let (s, v) = unpack_vec::<u16>(
        &[
            0, 1, 2, 3, 0xff, 0xee, 0xdd, 0xcc, 0x55, 0xaa, 0, 1, 2, 3, 4, 5,
        ],
        4,
    )
    .unwrap();
    assert_eq!(v.len(), 4);
    assert_eq!(v[0], 0x0100u16);
    assert_eq!(s, 8);
}

#[test]
fn unpack_vector_short_buffer_fails() {
    assert!(unpack_vec::<u32>(&[1, 2, 3, 4, 5], 2).is_err());
}

#[test]
fn unpack_short_buffers_fail() {
    assert!(u16::unpack(&[1]).is_err());
    assert!(u32::unpack(&[1, 2, 3]).is_err());
    assert!(u64::unpack(&[1, 2, 3, 4, 5, 6, 7]).is_err());
    assert!(HardwareAddress::unpack(&[1, 2, 3, 4, 5]).is_err());
}

#[test]
fn hardware_address_hex_text() {
    let hwa = HardwareAddress::from_bytes([0x01, 0x2a, 0x00, 0xab, 0xcd, 0xef]);
    assert_eq!(hwa.to_hex_string(), String::from("01:2a:00:ab:cd:ef"));
    assert_eq!(hwa.bytes(), [0x01, 0x2a, 0x00, 0xab, 0xcd, 0xef]);
}
