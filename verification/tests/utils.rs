use sim7020::utils::split_u16_to_u8;

#[test]
fn test_line_types() {}

#[test]
fn split_gives_high_then_low_byte() {
    assert_eq!(split_u16_to_u8(0x1234), [0x12, 0x34]);
    assert_eq!(split_u16_to_u8(0), [0, 0]);
    assert_eq!(split_u16_to_u8(0xffff), [0xff, 0xff]);
    assert_eq!(split_u16_to_u8(0x00ff), [0x00, 0xff]);
}
