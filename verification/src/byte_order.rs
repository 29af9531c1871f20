//! Byte order of a stream, and how it is told from a field whose value is
//! known beforehand.

use vstd::prelude::*;

verus! {

/// The order in which the bytes of a multi-byte field are stored.
#[derive(Debug, Clone, Copy, PartialEq, Eq, Structural)]
pub enum Endian {
    /// Most significant byte first.
    Big,
    /// Least significant byte first.
    Little,
}

/// The number that two bytes stand for when the first is the more significant.
pub open spec fn big_endian_value(first: u8, second: u8) -> int {
    first * 256 + second
}

/// The number that two bytes stand for when the second is the more significant.
pub open spec fn little_endian_value(first: u8, second: u8) -> int {
    second * 256 + first
}

/// The byte order chosen for a stream whose first two bytes are `first` and
/// `second` and are known to encode `expected_value`: big-endian when the
/// big-endian reading gives that value, little-endian in every other case.
///
/// The choice is a heuristic. A field that reads as `expected_value` both
/// ways, or neither way, still yields an answer: `Big` in the first case,
/// `Little` in the second.
pub open spec fn resolved_order(first: u8, second: u8, expected_value: u16) -> Endian {
    if big_endian_value(first, second) == expected_value {
        Endian::Big
    } else {
        Endian::Little
    }
}

impl Endian {
    /// The number that the two bytes of a field stand for in this byte order.
    pub open spec fn value_of(self, first: u8, second: u8) -> int {
        match self {
            Endian::Big => big_endian_value(first, second),
            Endian::Little => little_endian_value(first, second),
        }
    }

    /// The two bytes that stand for `value` in this byte order.
    pub open spec fn bytes_of(self, value: int) -> Seq<u8>
        recommends
            0 <= value < 65536,
    {
        match self {
            Endian::Big => seq![(value / 256) as u8, (value % 256) as u8],
            Endian::Little => seq![(value % 256) as u8, (value / 256) as u8],
        }
    }

    /// Decodes a two-byte unsigned field stored in this byte order.
    pub fn decode(self, field: &[u8; 2]) -> (value: u16)
        ensures
            value == self.value_of(field[0], field[1]),
    {
        let first: u16 = field[0] as u16;
        let second: u16 = field[1] as u16;
        match self {
            Endian::Big => first * 256 + second,
            Endian::Little => second * 256 + first,
        }
    }
}

/// Writing down the number that two bytes stand for gives those two bytes
/// back, in either byte order.
pub proof fn lemma_bytes_of_value_of(order: Endian, first: u8, second: u8)
    ensures
        0 <= order.value_of(first, second) < 65536,
        order.bytes_of(order.value_of(first, second)) == seq![first, second],
{
}

/// Tells the byte order of a stream from a two-byte field of it and the value
/// that the field is known to hold.
pub fn determine_endian(buf: &[u8; 2], expected_value: u16) -> (order: Endian)
    ensures
        order == resolved_order(buf[0], buf[1], expected_value),
{
    if Endian::Big.decode(buf) == expected_value {
        Endian::Big
    } else {
        Endian::Little
    }
}

} // verus!
