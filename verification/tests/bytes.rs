use cyw43::bytes::{
    append_bytes, append_zeros, bits_of_i32, copy_bytes, get_bytes, get_u16, get_u32,
    i32_from_bits, put_bytes, put_u16, put_u32, swap16, swap32,
};

#[test]
fn swap_reverses_the_bytes() {
    assert_eq!(swap16(0x1234), 0x3412);
    assert_eq!(swap16(0x00ff), 0xff00);
    assert_eq!(swap16(0), 0);
    assert_eq!(swap16(0xffff), 0xffff);
    assert_eq!(swap32(0x1234_5678), 0x7856_3412);
    assert_eq!(swap32(0x0000_00ff), 0xff00_0000);
    assert_eq!(swap32(0xffff_ffff), 0xffff_ffff);
    for x in [0u16, 1, 0x80, 0x100, 0x7fff, 0x8000, 0xfffe] {
        assert_eq!(swap16(x), x.swap_bytes());
        assert_eq!(swap16(swap16(x)), x);
    }
    for x in [0u32, 1, 0x8000, 0x0100_0000, 0x7fff_ffff, 0x8000_0000, 0xdead_beef] {
        assert_eq!(swap32(x), x.swap_bytes());
        assert_eq!(swap32(swap32(x)), x);
        assert_eq!(swap32(x), u32::from_be(x.to_le()));
    }
}

#[test]
fn signed_values_keep_their_bits() {
    assert_eq!(bits_of_i32(0), 0);
    assert_eq!(bits_of_i32(1), 1);
    assert_eq!(bits_of_i32(-1), 0xffff_ffff);
    assert_eq!(bits_of_i32(i32::MAX), 0x7fff_ffff);
    assert_eq!(bits_of_i32(i32::MIN), 0x8000_0000);
    assert_eq!(i32_from_bits(0xffff_ffff), -1);
    assert_eq!(i32_from_bits(0x8000_0000), i32::MIN);
    assert_eq!(i32_from_bits(0x7fff_ffff), i32::MAX);
    for x in [0, 1, -1, 2500, -2500, i32::MAX, i32::MIN] {
        assert_eq!(bits_of_i32(x), x as u32);
        assert_eq!(i32_from_bits(bits_of_i32(x)), x);
    }
}

#[test]
fn integers_are_written_and_read_little_endian() {
    let mut buf = [0xeeu8; 8];
    put_u16(&mut buf, 1, 0x1234);
    assert_eq!(buf, [0xee, 0x34, 0x12, 0xee, 0xee, 0xee, 0xee, 0xee]);
    put_u32(&mut buf, 4, 0x0102_0304);
    assert_eq!(buf, [0xee, 0x34, 0x12, 0xee, 4, 3, 2, 1]);
    assert_eq!(get_u16(&buf, 1), 0x1234);
    assert_eq!(get_u16(&buf, 6), 0x0102);
    assert_eq!(get_u32(&buf, 4), 0x0102_0304);
    assert_eq!(get_u32(&buf, 0), 0xee12_34ee);
    put_u32(&mut buf, 0, 0xffff_ffff);
    assert_eq!(get_u32(&buf, 0), u32::MAX);
    put_u16(&mut buf, 6, 0xffff);
    assert_eq!(get_u16(&buf, 6), u16::MAX);
}

#[test]
fn bytes_are_copied_in_place() {
    let mut buf = [0u8; 6];
    put_bytes(&mut buf, 2, &[1, 2, 3]);
    assert_eq!(buf, [0, 0, 1, 2, 3, 0]);
    put_bytes(&mut buf, 6, &[]);
    put_bytes(&mut buf, 0, &[9; 6]);
    assert_eq!(buf, [9; 6]);
    let mut out = [0u8; 3];
    get_bytes(&mut out, &[1, 2, 3, 4, 5], 1);
    assert_eq!(out, [2, 3, 4]);
    let mut none: [u8; 0] = [];
    get_bytes(&mut none, &[1], 1);
}

#[test]
fn bytes_are_appended() {
    let mut v = vec![1];
    append_bytes(&mut v, &[2, 3]);
    append_zeros(&mut v, 2);
    append_bytes(&mut v, &[]);
    append_zeros(&mut v, 0);
    assert_eq!(v, vec![1, 2, 3, 0, 0]);
    assert_eq!(copy_bytes(&v), v);
    assert_eq!(copy_bytes(&[]), Vec::<u8>::new());
}
