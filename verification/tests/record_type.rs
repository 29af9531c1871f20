use stdf_reader::record_type::{determine_type, RecordType};

#[test]
fn tag_zero_ten_is_named() {
    assert_eq!(determine_type(&vec![0, 10]), RecordType::ATR);
    assert_eq!(determine_type(&vec![0, 10, 4, 2]), RecordType::ATR);
}

#[test]
fn other_tags_are_unknown() {
    assert_eq!(determine_type(&vec![0, 20]), RecordType::Unknown);
    assert_eq!(determine_type(&vec![10, 0]), RecordType::Unknown);
    assert_eq!(determine_type(&vec![15, 20, 1, 2, 3]), RecordType::Unknown);
    assert_eq!(determine_type(&vec![1, 10]), RecordType::Unknown);
    assert_ne!(determine_type(&vec![0, 11]), RecordType::FTR);
}
