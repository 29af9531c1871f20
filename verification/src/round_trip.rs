//! What a reader hands out in a row, and how the stream is put together again
//! from it.

use vstd::prelude::*;
use crate::byte_order::{lemma_bytes_of_value_of, Endian};
use crate::framing::{
    cursor_after, pending_record, record_at, record_available, record_end, LENGTH_FIELD_SIZE,
};

verus! {

/// The records that a reader at `cursor` hands out one after the other, up to
/// the first time that nothing is pending.
pub open spec fn records_from(bytes: Seq<u8>, cursor: int, order: Endian) -> Seq<Seq<u8>>
    decreases bytes.len() - cursor,
{
    if record_available(bytes, cursor, order) {
        seq![pending_record(bytes, cursor, order)] + records_from(
            bytes,
            cursor_after(bytes, cursor, order),
            order,
        )
    } else {
        Seq::empty()
    }
}

/// Where the cursor of a reader that started at `cursor` stands once nothing
/// is pending.
pub open spec fn final_cursor(bytes: Seq<u8>, cursor: int, order: Endian) -> int
    decreases bytes.len() - cursor,
{
    if record_available(bytes, cursor, order) {
        final_cursor(bytes, cursor_after(bytes, cursor, order), order)
    } else {
        cursor
    }
}

/// Whether a stream is made of complete records and nothing else.
pub open spec fn well_framed(bytes: Seq<u8>, order: Endian) -> bool {
    final_cursor(bytes, 0, order) == bytes.len()
}

/// A record as it was handed out, with its length field put back in front.
pub open spec fn with_length_field(record: Seq<u8>, order: Endian) -> Seq<u8> {
    order.bytes_of(record.len() - LENGTH_FIELD_SIZE) + record
}

/// The stream made of the given records, each with its length field.
pub open spec fn reassembled(records: Seq<Seq<u8>>, order: Endian) -> Seq<u8>
    decreases records.len(),
{
    if records.len() == 0 {
        Seq::empty()
    } else {
        with_length_field(records.first(), order) + reassembled(records.drop_first(), order)
    }
}

/// A complete record, with its length field put back, is the stretch of the
/// stream that it was taken from.
pub proof fn lemma_record_with_length_field(bytes: Seq<u8>, cursor: int, order: Endian)
    requires
        record_available(bytes, cursor, order),
    ensures
        cursor < record_end(bytes, cursor, order) <= bytes.len(),
        with_length_field(record_at(bytes, cursor, order), order) == bytes.subrange(
            cursor,
            record_end(bytes, cursor, order),
        ),
{
    lemma_bytes_of_value_of(order, bytes[cursor], bytes[cursor + 1]);
}

/// The records handed out from `cursor` on, each with its length field put
/// back and all of them joined, are the stretch of the stream between
/// `cursor` and the place where the reader comes to rest.
pub proof fn lemma_records_reassemble(bytes: Seq<u8>, cursor: int, order: Endian)
    requires
        0 <= cursor <= bytes.len(),
    ensures
        cursor <= final_cursor(bytes, cursor, order) <= bytes.len(),
        reassembled(records_from(bytes, cursor, order), order) == bytes.subrange(
            cursor,
            final_cursor(bytes, cursor, order),
        ),
    decreases bytes.len() - cursor,
{
    if record_available(bytes, cursor, order) {
        let next = cursor_after(bytes, cursor, order);
        lemma_record_with_length_field(bytes, cursor, order);
        lemma_records_reassemble(bytes, next, order);
        let records = records_from(bytes, cursor, order);
        assert(records.drop_first() =~= records_from(bytes, next, order));
    }
}

/// Round trip of the framing: reading a well-framed stream from its start to
/// its end, and joining the records that come out, each with its length
/// field put back, gives the stream again, byte for byte.
pub proof fn lemma_round_trip(bytes: Seq<u8>, order: Endian)
    requires
        well_framed(bytes, order),
    ensures
        reassembled(records_from(bytes, 0, order), order) == bytes,
{
    lemma_records_reassemble(bytes, 0, order);
}

} // verus!
