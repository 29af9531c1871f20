use stdf_reader::source::{MemorySource, RandomAccessSource, ShortRead};

#[test]
fn memory_source_length() {
    assert_eq!(MemorySource::new(Vec::new()).length(), 0);
    assert_eq!(MemorySource::new(vec![7, 8, 9]).length(), 3);
}

#[test]
fn memory_source_reads_inside() {
    let store = MemorySource::new(vec![10, 11, 12, 13, 14]);
    assert_eq!(store.read_at(0, 5), Ok(vec![10, 11, 12, 13, 14]));
    assert_eq!(store.read_at(1, 2), Ok(vec![11, 12]));
    assert_eq!(store.read_at(4, 1), Ok(vec![14]));
}

#[test]
fn memory_source_reads_nothing() {
    let store = MemorySource::new(vec![10, 11, 12]);
    assert_eq!(store.read_at(0, 0), Ok(Vec::new()));
    assert_eq!(store.read_at(3, 0), Ok(Vec::new()));
}

#[test]
fn memory_source_short_read() {
    let store = MemorySource::new(vec![10, 11, 12]);
    assert_eq!(store.read_at(0, 4), Err(ShortRead));
    assert_eq!(store.read_at(2, 2), Err(ShortRead));
    assert_eq!(store.read_at(3, 1), Err(ShortRead));
    assert_eq!(store.read_at(4, 0), Err(ShortRead));
    assert_eq!(store.read_at(u64::MAX, 1), Err(ShortRead));
    assert_eq!(store.read_at(1, usize::MAX), Err(ShortRead));
}

#[test]
fn memory_source_reads_leave_it_as_it_is() {
    let store = MemorySource::new(vec![1, 2, 3, 4]);
    assert_eq!(store.read_at(2, 2), Ok(vec![3, 4]));
    assert_eq!(store.read_at(0, 2), Ok(vec![1, 2]));
    assert_eq!(store.read_at(2, 2), Ok(vec![3, 4]));
    assert_eq!(store.length(), 4);
}
