use rp2040_fred::le_bytes::{
    i32_from_le, i32_to_le, u16_from_le, u16_to_le, u32_from_le, u32_to_le,
};

#[test]
fn splitting_matches_the_standard_byte_order() {
    for x in [0u16, 1, 0x00FF, 0x0100, 0x1234, 0xFFFE, 0xFFFF] {
        assert_eq!(u16_to_le(x), x.to_le_bytes());
    }
    for x in [0u32, 1, 0xFF, 0x100, 0x0102_0304, 0x8000_0000, 0xDEAD_BEEF, u32::MAX] {
        assert_eq!(u32_to_le(x), x.to_le_bytes());
    }
    for x in [0i32, 1, -1, -100, 200, -12345, 54321, i32::MIN, i32::MAX, i32::MIN + 1] {
        assert_eq!(i32_to_le(x), x.to_le_bytes());
    }
}

#[test]
fn splitting_has_the_low_byte_first() {
    assert_eq!(u16_to_le(0x1234), [0x34, 0x12]);
    assert_eq!(u32_to_le(0x0102_0304), [0x04, 0x03, 0x02, 0x01]);
    assert_eq!(i32_to_le(-2), [0xFE, 0xFF, 0xFF, 0xFF]);
    assert_eq!(i32_to_le(i32::MIN), [0x00, 0x00, 0x00, 0x80]);
}

#[test]
fn joining_matches_the_standard_byte_order() {
    assert_eq!(u16_from_le(0x34, 0x12), 0x1234);
    assert_eq!(u16_from_le(0xFF, 0x00), 0x00FF);
    assert_eq!(u32_from_le(0x04, 0x03, 0x02, 0x01), 0x0102_0304);
    assert_eq!(u32_from_le(0xFF, 0xFF, 0xFF, 0xFF), u32::MAX);
    assert_eq!(i32_from_le(0xFF, 0xFF, 0xFF, 0xFF), -1);
    assert_eq!(i32_from_le(0x00, 0x00, 0x00, 0x80), i32::MIN);
    assert_eq!(i32_from_le(0xFF, 0xFF, 0xFF, 0x7F), i32::MAX);
    assert_eq!(i32_from_le(0x9C, 0xFF, 0xFF, 0xFF), -100);
    for bytes in [[1u8, 2, 3, 4], [0x80, 0, 0, 0x80], [0xC7, 0xCF, 0xFF, 0xFF]] {
        let [a, b, c, d] = bytes;
        assert_eq!(u32_from_le(a, b, c, d), u32::from_le_bytes(bytes));
        assert_eq!(i32_from_le(a, b, c, d), i32::from_le_bytes(bytes));
    }
}
