//! The reader: it owns a byte store and a position in it, and hands out the
//! records of the store one after the other.

use vstd::prelude::*;
use crate::byte_order::{determine_endian, resolved_order, Endian};
use crate::framing::{
    cursor_after, expect_bytes, is_record_size, pending_record, record_at, record_available,
    record_complete, remaining, require_leading_record, tail_length_at, ReaderError, HEADER_SIZE,
    LEADING_RECORD_SIZE, LEADING_TAIL_LENGTH, LENGTH_FIELD_SIZE,
};
use crate::source::RandomAccessSource;

verus! {

/// A sequential reader of the records in a byte store.
///
/// The reader keeps the byte order that it found when it was made, and a
/// cursor: the offset up to which the store has been handed out as complete
/// records. The cursor starts at 0 and moves only when a record is handed
/// out, to the end of that record.
///
/// A reader is used from one place at a time. After an error from any of its
/// methods the store can no longer be relied on, and the reader is to be
/// dropped.
pub struct STDReader<S: RandomAccessSource> {
    source: S,
    file_endian: Endian,
    file_pointer: u64,
}

impl<S: RandomAccessSource> STDReader<S> {
    /// The cursor never lies behind the end of a store whose content is fixed.
    #[verifier::type_invariant]
    spec fn cursor_within_content(self) -> bool {
        self.source.content() matches Some(bytes) ==> self.file_pointer <= bytes.len()
    }

    /// The store that the reader reads from.
    pub closed spec fn source(&self) -> S {
        self.source
    }

    /// The offset of the first byte that has not been handed out.
    pub closed spec fn cursor(&self) -> u64 {
        self.file_pointer
    }

    /// The byte order of the length fields.
    pub closed spec fn order(&self) -> Endian {
        self.file_endian
    }

    /// The content of the store, where it is fixed and known.
    pub open spec fn content(&self) -> Option<Seq<u8>> {
        self.source().content()
    }

    /// Makes a reader for `source`, with the cursor at the start.
    ///
    /// The byte order is told from the length field of the leading record,
    /// which is known to declare a tail of `LEADING_TAIL_LENGTH` bytes. The
    /// leading record is not consumed: it is the first record handed out.
    ///
    /// Fails with `InsufficientData` when the store is shorter than the
    /// leading record, and with `ReadFailure` when the store is long enough
    /// and its first bytes can still not be read.
    pub fn new(source: S) -> (r: Result<STDReader<S>, ReaderError>)
        ensures
            r matches Ok(reader) ==> reader.source() == source && reader.cursor() == 0,
            r matches Err(e) ==> e == ReaderError::InsufficientData || e
                == ReaderError::ReadFailure,
            source.content() matches Some(bytes) ==> (r is Ok <==> bytes.len()
                >= LEADING_RECORD_SIZE),
            source.content() is Some ==> (r matches Err(e) ==> e == ReaderError::InsufficientData),
            source.content() matches Some(bytes) ==> (r matches Ok(reader) ==> reader.order()
                == resolved_order(bytes[0], bytes[1], LEADING_TAIL_LENGTH)),
    {
        let length: u64 = source.length();
        match require_leading_record(length) {
            Err(e) => { return Err(e); },
            Ok(_) => {},
        }
        let count: usize = LEADING_RECORD_SIZE as usize;
        let leading = match expect_bytes(source.read_at(0, count), count) {
            Err(e) => { return Err(e); },
            Ok(bytes) => bytes,
        };
        let field: [u8; 2] = [leading[0], leading[1]];
        let file_endian = determine_endian(&field, LEADING_TAIL_LENGTH);
        Ok(STDReader { source, file_endian, file_pointer: 0 })
    }

    /// The offset of the first byte that has not been handed out.
    pub fn position(&self) -> (cursor: u64)
        ensures
            cursor == self.cursor(),
            self.content() matches Some(bytes) ==> cursor <= bytes.len(),
    {
        proof {
            use_type_invariant(self);
        }
        self.file_pointer
    }

    /// The byte order that was found when the reader was made.
    pub fn byte_order(&self) -> (order: Endian)
        ensures
            order == self.order(),
    {
        self.file_endian
    }

    /// The number of bytes in the store from the cursor on.
    ///
    /// The length of the store is asked for anew. Fails with `Truncation`
    /// when the store now ends before the cursor.
    pub fn bytes_available(&mut self) -> (r: Result<u64, ReaderError>)
        ensures
            *final(self) == *old(self),
            r matches Ok(available) ==> old(self).cursor() + available <= u64::MAX,
            r matches Err(e) ==> e == ReaderError::Truncation,
            old(self).content() matches Some(bytes) ==> r == Ok::<u64, ReaderError>(
                (bytes.len() - old(self).cursor()) as u64,
            ),
    {
        proof {
            use_type_invariant(&*self);
        }
        remaining(self.source.length(), self.file_pointer)
    }

    /// The tail length of the record at the cursor, if that record is
    /// complete.
    fn complete_tail_length(&self) -> (r: Result<Option<u16>, ReaderError>)
        ensures
            r matches Err(e) ==> e == ReaderError::Truncation || e == ReaderError::ReadFailure,
            r matches Ok(Some(tail_length)) ==> self.cursor() + HEADER_SIZE + tail_length
                <= u64::MAX,
            self.source.content() matches Some(bytes) ==> r matches Ok(found)
                && (found is Some <==> record_available(bytes, self.cursor() as int, self.order()))
                && (found matches Some(tail_length) ==> tail_length
                    == tail_length_at(bytes, self.cursor() as int, self.order())),
    {
        proof {
            use_type_invariant(self);
        }
        let available: u64 = match remaining(self.source.length(), self.file_pointer) {
            Err(e) => { return Err(e); },
            Ok(available) => available,
        };
        if available < LENGTH_FIELD_SIZE {
            return Ok(None);
        }
        let count: usize = LENGTH_FIELD_SIZE as usize;
        let read = match expect_bytes(self.source.read_at(self.file_pointer, count), count) {
            Err(e) => { return Err(e); },
            Ok(bytes) => bytes,
        };
        let field: [u8; 2] = [read[0], read[1]];
        let tail_length: u16 = self.file_endian.decode(&field);
        if record_complete(available, tail_length) {
            Ok(Some(tail_length))
        } else {
            Ok(None)
        }
    }

    /// The record at the cursor, if it is complete. Moves nothing.
    fn pending(&self) -> (r: Result<Option<Vec<u8>>, ReaderError>)
        ensures
            r matches Err(e) ==> e == ReaderError::Truncation || e == ReaderError::ReadFailure,
            r matches Ok(Some(record)) ==> is_record_size(record.len() as int)
                && self.cursor() + LENGTH_FIELD_SIZE + record.len() <= u64::MAX,
            self.source.content() matches Some(bytes) ==> r matches Ok(found)
                && (found is Some <==> record_available(bytes, self.cursor() as int, self.order()))
                && (found matches Some(record) ==> record@
                    == record_at(bytes, self.cursor() as int, self.order())),
    {
        let tail_length: u16 = match self.complete_tail_length() {
            Err(e) => { return Err(e); },
            Ok(None) => { return Ok(None); },
            Ok(Some(tail_length)) => tail_length,
        };
        let count: usize = tail_length as usize + (HEADER_SIZE - LENGTH_FIELD_SIZE) as usize;
        let offset: u64 = self.file_pointer + LENGTH_FIELD_SIZE;
        match expect_bytes(self.source.read_at(offset, count), count) {
            Err(e) => Err(e),
            Ok(record) => Ok(Some(record)),
        }
    }

    /// Whether a complete record lies at the cursor.
    ///
    /// `Ok(false)` says that the store does not, or not yet, hold the whole of
    /// another record. Fails with `Truncation` as `bytes_available` does, and
    /// with `ReadFailure` when the length field is in the store and can
    /// still not be read.
    pub fn has_next_record(&mut self) -> (r: Result<bool, ReaderError>)
        ensures
            *final(self) == *old(self),
            r matches Err(e) ==> e == ReaderError::Truncation || e == ReaderError::ReadFailure,
            old(self).content() matches Some(bytes) ==> r == Ok::<bool, ReaderError>(
                record_available(bytes, old(self).cursor() as int, old(self).order()),
            ),
    {
        match self.complete_tail_length() {
            Err(e) => Err(e),
            Ok(found) => Ok(found.is_some()),
        }
    }

    /// Hands out the record at the cursor and moves the cursor behind it.
    ///
    /// The result is the record without its length field: the type, the
    /// subtype and the tail. Where no complete record lies at the cursor the
    /// result is empty and the cursor stays. On an error the cursor stays
    /// too: it moves only once the whole record has been read.
    pub fn next_record(&mut self) -> (r: Result<Vec<u8>, ReaderError>)
        ensures
            final(self).source() == old(self).source(),
            final(self).order() == old(self).order(),
            old(self).cursor() <= final(self).cursor(),
            r matches Ok(record) ==> record.len() == 0 || is_record_size(record.len() as int),
            r matches Ok(record) ==> (record.len() == 0 ==> final(self).cursor()
                == old(self).cursor()),
            r matches Ok(record) ==> (record.len() > 0 ==> final(self).cursor()
                == old(self).cursor() + LENGTH_FIELD_SIZE + record.len()),
            r matches Err(e) ==> e == ReaderError::Truncation || e == ReaderError::ReadFailure,
            r is Err ==> final(self).cursor() == old(self).cursor(),
            old(self).content() matches Some(bytes) ==> r matches Ok(record)
                && record@ == pending_record(bytes, old(self).cursor() as int, old(self).order())
                && final(self).cursor()
                    == cursor_after(bytes, old(self).cursor() as int, old(self).order())
                && final(self).cursor() <= bytes.len(),
    {
        proof {
            use_type_invariant(&*self);
        }
        match self.pending() {
            Err(e) => Err(e),
            Ok(None) => Ok(Vec::new()),
            Ok(Some(record)) => {
                self.file_pointer = self.file_pointer + LENGTH_FIELD_SIZE + record.len() as u64;
                Ok(record)
            },
        }
    }

    /// The record that `next_record` would hand out, with the cursor left
    /// where it is.
    pub fn peek_next_record(&mut self) -> (r: Result<Vec<u8>, ReaderError>)
        ensures
            *final(self) == *old(self),
            r matches Ok(record) ==> record.len() == 0 || is_record_size(record.len() as int),
            r matches Err(e) ==> e == ReaderError::Truncation || e == ReaderError::ReadFailure,
            old(self).content() matches Some(bytes) ==> r matches Ok(record)
                && record@ == pending_record(bytes, old(self).cursor() as int, old(self).order()),
    {
        match self.pending() {
            Err(e) => Err(e),
            Ok(None) => Ok(Vec::new()),
            Ok(Some(record)) => Ok(record),
        }
    }
}

} // verus!
