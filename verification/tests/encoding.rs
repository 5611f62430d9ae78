//! The element encodings: lossless widening to `u32` and the exact
//! little-endian byte images that a fill uploads.

use three_d_core::element_buffer::encode_elements;
use three_d_core::element_buffer::ElementBufferDataType;

#[test]
fn one_byte_encoding_widens_losslessly() {
    assert_eq!(0u8.as_u32(), 0u32);
    assert_eq!(1u8.as_u32(), 1u32);
    assert_eq!(127u8.as_u32(), 127u32);
    assert_eq!(255u8.as_u32(), 255u32);
}

#[test]
fn two_byte_encoding_widens_losslessly() {
    assert_eq!(0u16.as_u32(), 0u32);
    assert_eq!(255u16.as_u32(), 255u32);
    assert_eq!(256u16.as_u32(), 256u32);
    assert_eq!(0x8000u16.as_u32(), 0x8000u32);
    assert_eq!(65535u16.as_u32(), 65535u32);
}

#[test]
fn four_byte_encoding_widens_losslessly() {
    assert_eq!(0u32.as_u32(), 0u32);
    assert_eq!(65536u32.as_u32(), 65536u32);
    assert_eq!(0x8000_0000u32.as_u32(), 0x8000_0000u32);
    assert_eq!(u32::MAX.as_u32(), 4294967295u32);
}

#[test]
fn two_byte_encoding_ceiling_is_at_the_type_level() {
    // An index above 65535 cannot even be written as a u16: the widening
    // of the largest representable index is exactly 65535.
    assert_eq!(u16::MAX.as_u32(), 65535u32);
}

#[test]
fn one_byte_image_is_the_value_itself() {
    let data: Vec<u8> = vec![0, 1, 254, 255];
    assert_eq!(encode_elements(&data), vec![0u8, 1, 254, 255]);
}

#[test]
fn two_byte_image_is_little_endian() {
    let data: Vec<u16> = vec![0x0102, 0xff00];
    assert_eq!(encode_elements(&data), vec![0x02u8, 0x01, 0x00, 0xff]);
}

#[test]
fn four_byte_image_is_little_endian() {
    let data: Vec<u32> = vec![0xaabbccdd];
    assert_eq!(encode_elements(&data), vec![0xddu8, 0xcc, 0xbb, 0xaa]);
}

#[test]
fn byte_image_has_no_padding() {
    let bytes: Vec<u8> = vec![1, 2, 3];
    let shorts: Vec<u16> = vec![1, 2, 3];
    let words: Vec<u32> = vec![1, 2, 3];
    assert_eq!(encode_elements(&bytes).len(), 3);
    assert_eq!(encode_elements(&shorts).len(), 6);
    assert_eq!(encode_elements(&words).len(), 12);
}
