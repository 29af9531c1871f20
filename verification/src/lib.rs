//! Sequential reading of a stream of self-describing, length-prefixed binary
//! records, with the byte order of the stream told from its first record.
//!
//! - [`byte_order`]: the two byte orders, and how one is told from a field of
//!   known value.
//! - [`source`]: byte stores that are read at absolute offsets, and one that
//!   is held in memory.
//! - [`framing`]: the layout of a stream, and the rules by which the next
//!   record is found in it.
//! - [`reader`]: the reader, which owns a store and hands out its records one
//!   by one.
//! - [`round_trip`]: the records of a stream, joined again, are the stream.
//! - [`record_type`]: names for the kinds of record.
//! - [`naming`]: the rule for the names of record files.

pub mod byte_order;
pub mod framing;
pub mod naming;
pub mod reader;
pub mod record_type;
pub mod round_trip;
pub mod source;
