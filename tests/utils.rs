use jadis::utils::{bitmask_matches, to_i32, to_i64, to_u16, to_u32};

#[test]
fn test_to_u16_valid_args() {
    to_u16(&[1, 1]);
}

#[test]
#[should_panic]
fn test_to_u16_invalid_args() {
    to_u16(&[1]);
    to_u16(&[1, 1, 1]);
}

#[test]
fn test_to_u32_valid_args() {
    to_u32(&[1, 1, 1, 1]);
}

#[test]
#[should_panic]
fn test_to_u32_invalid_args() {
    to_u32(&[1]);
    to_u32(&[1, 1]);
    to_u32(&[1, 1, 1]);
    to_u32(&[1, 1, 1, 1, 1]);
}

#[test]
fn test_to_i32_valid_args() {
    to_i32(&[1, 1, 1, 1]);
}

#[test]
#[should_panic]
fn test_to_i32_invalid_args() {
    to_i32(&[1]);
    to_i32(&[1, 1]);
    to_i32(&[1, 1, 1]);
    to_i32(&[1, 1, 1, 1, 1]);
}

#[test]
fn test_to_i64_valid_args() {
    to_i64(&[1, 1, 1, 1, 1, 1, 1, 1]);
}

#[test]
#[should_panic]
fn test_to_i64_invalid_args() {
    to_i64(&[1]);
    to_i64(&[1, 1]);
    to_i64(&[1, 1, 1]);
    to_i64(&[1, 1, 1, 1]);
    to_i64(&[1, 1, 1, 1, 1]);
    to_i64(&[1, 1, 1, 1, 1, 1]);
    to_i64(&[1, 1, 1, 1, 1, 1, 1]);
    to_i64(&[1, 1, 1, 1, 1, 1, 1, 1, 1]);
}

#[test]
fn test_bitmask_check() {
    assert_eq!(
        bitmask_matches(33315, 0b_0000_0000_0000_0001),
        true,
        "Bit 0 should be set"
    );
    assert_eq!(
        bitmask_matches(33315, 0b_0000_0000_0000_0010),
        true,
        "Bit 1 should be set"
    );
    assert_eq!(
        bitmask_matches(33315, 0b_0000_0000_0000_0100),
        false,
        "Bit 2 should not be set"
    );
    assert_eq!(
        bitmask_matches(33315, 0b_0000_0000_0000_1000),
        false,
        "Bit 3 should not be set"
    );
    assert_eq!(
        bitmask_matches(33315, 0b_0000_0000_0001_0000),
        false,
        "Bit 4 should not be set"
    );
    assert_eq!(
        bitmask_matches(33315, 0b_0000_0000_0010_0000),
        true,
        "Bit 5 should be set"
    );
    assert_eq!(
        bitmask_matches(33315, 0b_0000_0000_0100_0000),
        false,
        "Bit 6 should not be set"
    );
    assert_eq!(
        bitmask_matches(33315, 0b_0000_0000_1000_0000),
        false,
        "Bit 7 should not be set"
    );
    assert_eq!(
        bitmask_matches(33315, 0b_0000_0001_0000_0000),
        false,
        "Bit 8 should not be set"
    );
    assert_eq!(
        bitmask_matches(33315, 0b_0000_0010_0000_0000),
        true,
        "Bit 9 should be set"
    );
    assert_eq!(
        bitmask_matches(33315, 0b_0000_0100_0000_0000),
        false,
        "Bit 10 should not be set"
    );
    assert_eq!(
        bitmask_matches(33315, 0b_0000_1000_0000_0000),
        false,
        "Bit 11 should not be set"
    );
    assert_eq!(
        bitmask_matches(33315, 0b_0001_0000_0000_0000),
        false,
        "Bit 12 should not be set"
    );
    assert_eq!(
        bitmask_matches(33315, 0b_0010_0000_0000_0000),
        false,
        "Bit 13 should not be set"
    );
    assert_eq!(
        bitmask_matches(33315, 0b_0100_0000_0000_0000),
        false,
        "Bit 14 should not be set"
    );
    assert_eq!(
        bitmask_matches(33315, 0b_1000_0000_0000_0000),
        true,
        "Bit 15 should be set"
    );

    assert_eq!(
        bitmask_matches(33315, 0b_1000_0010_0010_0011),
        true,
        "Bits 0, 1, 5, 9, and 15 should be set"
    );
}


#[test]
fn big_endian_values() {
    assert_eq!(to_u16(&[0x12, 0x34]), 0x1234);
    assert_eq!(to_u32(&[0xCA, 0xFE, 0xBA, 0xBE]), 0xCAFEBABE);
    assert_eq!(to_i32(&[0xFF, 0xFF, 0xFF, 0xFE]), -2);
    assert_eq!(to_i32(&[0x80, 0x00, 0x00, 0x00]), i32::MIN);
    assert_eq!(to_i32(&[0x7F, 0xFF, 0xFF, 0xFF]), i32::MAX);
    assert_eq!(to_i64(&[0xFF, 0xFF, 0xFF, 0xFF, 0xFF, 0xFF, 0xFF, 0xFF]), -1);
    assert_eq!(to_i64(&[0x00, 0x00, 0x00, 0x01, 0x00, 0x00, 0x00, 0x02]), 0x1_0000_0002);
    assert_eq!(to_i64(&[0x80, 0, 0, 0, 0, 0, 0, 0]), i64::MIN);
}
