//! Naming the kind of a record from the two tag bytes that follow its length
//! field.

use vstd::prelude::*;

verus! {

/// The kinds of record that are told apart by their tag.
#[derive(Debug, Clone, Copy, PartialEq, Eq, Structural)]
pub enum RecordType {
    ATR,
    FTR,
    Unknown,
}

/// The kind that a record with the given type and subtype bytes is of.
pub open spec fn kind_of_tag(record_type: u8, record_subtype: u8) -> RecordType {
    if record_type == 0 && record_subtype == 10 {
        RecordType::ATR
    } else {
        RecordType::Unknown
    }
}

/// Names the kind of a record from its first two bytes, the type and the
/// subtype.
pub fn determine_type(buf: &Vec<u8>) -> (kind: RecordType)
    requires
        buf.len() >= 2,
    ensures
        kind == kind_of_tag(buf[0], buf[1]),
{
    if buf[0] == 0 && buf[1] == 10 {
        RecordType::ATR
    } else {
        RecordType::Unknown
    }
}

} // verus!
