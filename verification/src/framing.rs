//! The layout of a record stream, and the rules by which a reader finds its
//! way through one.
//!
//! A stream is a run of records with nothing between them. Each record is a
//! header of four bytes and a tail. The first two bytes of the header give
//! the length of the tail as an unsigned number in the byte order of the
//! stream; the other two are the type and the subtype of the record. What is
//! handed out for a record is everything but the length field: type, subtype
//! and tail.

use vstd::prelude::*;
use crate::byte_order::Endian;
use crate::source::ShortRead;

verus! {

/// The size of the length field that opens every record.
pub const LENGTH_FIELD_SIZE: u64 = 2;

/// The size of a record header: the length field, the type and the subtype.
pub const HEADER_SIZE: u64 = 4;

/// The size of the record that every stream begins with.
pub const LEADING_RECORD_SIZE: u64 = 6;

/// The tail length that the record at the start of every stream declares.
pub const LEADING_TAIL_LENGTH: u16 = 2;

/// Why a reader could not be made, or could not go on.
#[derive(Debug, Clone, Copy, PartialEq, Eq, Structural)]
pub enum ReaderError {
    /// The store is too short to hold the leading record.
    InsufficientData,
    /// A read that the length of the store allowed for did not bring the
    /// bytes asked for.
    ReadFailure,
    /// The store has become shorter than what was already read from it.
    Truncation,
}

/// Whether a record that is handed out can have the given size: type and
/// subtype, and a tail of a length that the length field can declare.
pub open spec fn is_record_size(size: int) -> bool {
    HEADER_SIZE - LENGTH_FIELD_SIZE <= size <= HEADER_SIZE - LENGTH_FIELD_SIZE + u16::MAX
}

/// The tail length declared by the length field at `cursor`.
pub open spec fn tail_length_at(bytes: Seq<u8>, cursor: int, order: Endian) -> int
    recommends
        0 <= cursor,
        cursor + LENGTH_FIELD_SIZE <= bytes.len(),
{
    order.value_of(bytes[cursor], bytes[cursor + 1])
}

/// Whether a complete record lies at `cursor`: its length field is there, and
/// so are the header and the tail that the field declares.
pub open spec fn record_available(bytes: Seq<u8>, cursor: int, order: Endian) -> bool {
    &&& 0 <= cursor
    &&& bytes.len() - cursor >= LENGTH_FIELD_SIZE
    &&& bytes.len() - cursor >= tail_length_at(bytes, cursor, order) + HEADER_SIZE
}

/// Where the length field at `cursor` is in the stream, the record there is
/// available from exactly header plus declared tail on: with that many bytes
/// left it is, with one byte fewer it is not.
pub proof fn lemma_record_available_boundary(bytes: Seq<u8>, cursor: int, order: Endian)
    requires
        0 <= cursor,
        cursor + LENGTH_FIELD_SIZE <= bytes.len(),
    ensures
        record_available(bytes, cursor, order) <==> bytes.len() - cursor >= HEADER_SIZE
            + tail_length_at(bytes, cursor, order),
        bytes.len() - cursor == HEADER_SIZE + tail_length_at(bytes, cursor, order)
            ==> record_available(bytes, cursor, order),
        bytes.len() - cursor == HEADER_SIZE + tail_length_at(bytes, cursor, order) - 1
            ==> !record_available(bytes, cursor, order),
{
}

/// The offset just behind the record at `cursor`.
pub open spec fn record_end(bytes: Seq<u8>, cursor: int, order: Endian) -> int {
    cursor + HEADER_SIZE + tail_length_at(bytes, cursor, order)
}

/// The record at `cursor` as it is handed out: without its length field.
pub open spec fn record_at(bytes: Seq<u8>, cursor: int, order: Endian) -> Seq<u8> {
    bytes.subrange(cursor + LENGTH_FIELD_SIZE, record_end(bytes, cursor, order))
}

/// What a reader at `cursor` hands out next: the record there if it is
/// complete, nothing otherwise.
pub open spec fn pending_record(bytes: Seq<u8>, cursor: int, order: Endian) -> Seq<u8> {
    if record_available(bytes, cursor, order) {
        record_at(bytes, cursor, order)
    } else {
        Seq::empty()
    }
}

/// Where a reader at `cursor` stands after it has handed out what is pending.
pub open spec fn cursor_after(bytes: Seq<u8>, cursor: int, order: Endian) -> int {
    if record_available(bytes, cursor, order) {
        record_end(bytes, cursor, order)
    } else {
        cursor
    }
}

/// Checks that a store of the given length can hold the leading record.
pub fn require_leading_record(length: u64) -> (r: Result<(), ReaderError>)
    ensures
        length < LEADING_RECORD_SIZE ==> r == Err::<(), ReaderError>(ReaderError::InsufficientData),
        length >= LEADING_RECORD_SIZE ==> r == Ok::<(), ReaderError>(()),
{
    if length < LEADING_RECORD_SIZE {
        Err(ReaderError::InsufficientData)
    } else {
        Ok(())
    }
}

/// The number of bytes between `cursor` and the end of a store of the given
/// length. A store that ends before `cursor` has been cut short.
pub fn remaining(length: u64, cursor: u64) -> (r: Result<u64, ReaderError>)
    ensures
        length < cursor ==> r == Err::<u64, ReaderError>(ReaderError::Truncation),
        length >= cursor ==> r == Ok::<u64, ReaderError>((length - cursor) as u64),
{
    if length < cursor {
        Err(ReaderError::Truncation)
    } else {
        Ok(length - cursor)
    }
}

/// Accepts the outcome of a read of `count` bytes that the length of the
/// store allowed for: the bytes, if the read brought exactly that many.
pub fn expect_bytes(read: Result<Vec<u8>, ShortRead>, count: usize) -> (r: Result<
    Vec<u8>,
    ReaderError,
>)
    ensures
        r is Ok <==> (read matches Ok(bytes) && bytes.len() == count),
        r matches Ok(bytes) ==> read == Ok::<Vec<u8>, ShortRead>(bytes),
        r matches Err(e) ==> e == ReaderError::ReadFailure,
{
    match read {
        Ok(bytes) => {
            if bytes.len() == count {
                Ok(bytes)
            } else {
                Err(ReaderError::ReadFailure)
            }
        },
        Err(_) => Err(ReaderError::ReadFailure),
    }
}

/// Whether `available` bytes hold the whole of a record whose length field
/// declares `tail_length`.
pub fn record_complete(available: u64, tail_length: u16) -> (complete: bool)
    ensures
        complete <==> available >= tail_length + HEADER_SIZE,
{
    available >= tail_length as u64 + HEADER_SIZE
}

} // verus!
