use stdf_reader::byte_order::{determine_endian, Endian};

#[test]
fn big_endian_field_resolves_to_big() {
    assert_eq!(determine_endian(&[0x00, 0x02], 2), Endian::Big);
}

#[test]
fn little_endian_field_resolves_to_little() {
    assert_eq!(determine_endian(&[0x02, 0x00], 2), Endian::Little);
}

#[test]
fn field_that_matches_neither_way_resolves_to_little() {
    assert_eq!(determine_endian(&[0x12, 0x34], 2), Endian::Little);
    assert_eq!(determine_endian(&[0x00, 0x00], 2), Endian::Little);
}

#[test]
fn field_that_matches_both_ways_resolves_to_big() {
    assert_eq!(determine_endian(&[0x00, 0x00], 0), Endian::Big);
    assert_eq!(determine_endian(&[0x01, 0x01], 0x0101), Endian::Big);
}

#[test]
fn expected_value_in_little_endian_only_resolves_to_little() {
    assert_eq!(determine_endian(&[0x34, 0x12], 0x1234), Endian::Little);
    assert_eq!(determine_endian(&[0x12, 0x34], 0x1234), Endian::Big);
}

#[test]
fn decode_big_endian() {
    assert_eq!(Endian::Big.decode(&[0x12, 0x34]), 0x1234);
    assert_eq!(Endian::Big.decode(&[0x00, 0x02]), 2);
    assert_eq!(Endian::Big.decode(&[0xff, 0xff]), 65535);
}

#[test]
fn decode_little_endian() {
    assert_eq!(Endian::Little.decode(&[0x12, 0x34]), 0x3412);
    assert_eq!(Endian::Little.decode(&[0x02, 0x00]), 2);
    assert_eq!(Endian::Little.decode(&[0xff, 0xff]), 65535);
}

#[test]
fn decode_agrees_with_std() {
    let fields: [[u8; 2]; 5] = [[0, 0], [0, 1], [1, 0], [0x80, 0x7f], [0xab, 0xcd]];
    for field in fields {
        assert_eq!(Endian::Big.decode(&field), u16::from_be_bytes(field));
        assert_eq!(Endian::Little.decode(&field), u16::from_le_bytes(field));
    }
}
