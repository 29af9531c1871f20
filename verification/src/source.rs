//! Byte stores that can be read at any offset.

use vstd::prelude::*;

verus! {

/// The failure of a read that the store could not serve in full.
#[derive(Debug, Clone, Copy, PartialEq, Eq, Structural)]
pub struct ShortRead;

/// A readable byte store with a total length, addressed by absolute offsets.
///
/// Reading never changes the store and keeps no position of its own: every
/// read names the offset it starts at.
///
/// The contracts below bind a store only as far as it declares its content.
/// A store that other parties may write to, or whose medium may fail, leaves
/// `content` at its default and promises nothing: whatever it returns is then
/// checked where it is used.
pub trait RandomAccessSource {
    /// The content of the store, where it is fixed and known.
    open spec fn content(&self) -> Option<Seq<u8>> {
        None
    }

    /// The number of bytes now in the store.
    fn length(&self) -> (n: u64)
        ensures
            self.content() matches Some(c) ==> n == c.len(),
    ;

    /// Reads exactly `count` bytes starting at `offset`.
    ///
    /// Fails when fewer than `count` bytes lie between `offset` and the end
    /// of the store, and so whenever `offset` lies behind that end.
    fn read_at(&self, offset: u64, count: usize) -> (r: Result<Vec<u8>, ShortRead>)
        ensures
            self.content() matches Some(c) ==> (r is Ok <==> offset + count <= c.len()),
            self.content() matches Some(c) ==> (r matches Ok(v) ==> v@ == c.subrange(
                offset as int,
                offset + count,
            )),
    ;
}

/// A byte store held in memory. Its content is fixed.
pub struct MemorySource {
    content: Vec<u8>,
}

impl View for MemorySource {
    type V = Seq<u8>;

    closed spec fn view(&self) -> Seq<u8> {
        self.content@
    }
}

impl MemorySource {
    /// A store that holds `content`.
    pub fn new(content: Vec<u8>) -> (store: MemorySource)
        ensures
            store@ == content@,
    {
        MemorySource { content }
    }
}

impl RandomAccessSource for MemorySource {
    open spec fn content(&self) -> Option<Seq<u8>> {
        Some(self@)
    }

    fn length(&self) -> (n: u64) {
        self.content.len() as u64
    }

    fn read_at(&self, offset: u64, count: usize) -> (r: Result<Vec<u8>, ShortRead>) {
        let total: u64 = self.content.len() as u64;
        if offset > total || count as u64 > total - offset {
            return Err(ShortRead);
        }
        let start: usize = offset as usize;
        let mut out: Vec<u8> = Vec::with_capacity(count);
        let mut i: usize = 0;
        while i < count
            invariant
                i <= count,
                start + count <= self.content.len(),
                out@ == self.content@.subrange(start as int, start + i),
            decreases count - i,
        {
            out.push(self.content[start + i]);
            i += 1;
        }
        Ok(out)
    }
}

} // verus!
