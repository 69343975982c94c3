use vstd::prelude::*;

use crate::traits::{ByteReader, ChunkSource};

verus! {

/// A blocking-reader view over a borrowed byte slice: each read hands out
/// the next bytes, as many as were asked for and are left.
pub struct SliceReader<'a> {
    data: &'a [u8],
    cursor: usize,
}

impl<'a> SliceReader<'a> {
    /// Wrap a byte slice.
    pub fn new(data: &'a [u8]) -> (r: SliceReader<'a>)
        ensures
            r.rdr_inv(),
            r.pending() == data@,
    {
        let s = SliceReader { data, cursor: 0 };
        proof {
            assert(s.pending() =~= data@);
        }
        s
    }
}

impl<'a> ByteReader for SliceReader<'a> {
    closed spec fn rdr_inv(&self) -> bool {
        self.cursor <= self.data@.len()
    }

    closed spec fn pending(&self) -> Seq<u8> {
        if self.cursor <= self.data@.len() {
            self.data@.skip(self.cursor as int)
        } else {
            Seq::empty()
        }
    }

    fn read_up_to(&mut self, max: usize) -> (r: Result<Vec<u8>, String>)
        ensures
            (r matches Ok(c) && c@.len() == if max <= old(self).pending().len() {
                max as int
            } else {
                old(self).pending().len() as int
            }),
    {
        proof {
            assert(self.data.len() == self.data@.len());
        }
        let left = self.data.len() - self.cursor;
        let count = if max < left {
            max
        } else {
            left
        };
        let chunk = vstd::slice::slice_to_vec(
            vstd::slice::slice_subrange(self.data, self.cursor, self.cursor + count),
        );
        let ghost pend0 = self.pending();
        self.cursor = self.cursor + count;
        proof {
            assert(chunk@ =~= pend0.take(count as int));
            assert(self.pending() =~= pend0.skip(count as int));
        }
        Ok(chunk)
    }
}

/// A chunked view over a borrowed byte slice: hands the data out in chunks
/// of `chunk_size` bytes (the last chunk may be shorter).
#[derive(Clone)]
pub struct Source<'a> {
    data: &'a [u8],
    cursor: usize,
    chunk_size: usize,
}

impl<'a> Source<'a> {
    /// The length of the whole inner data, read or not.
    pub closed spec fn total_len(&self) -> nat {
        self.data@.len()
    }

    /// The chunk size this source hands data out in.
    pub closed spec fn chunk_len(&self) -> usize {
        self.chunk_size
    }

    /// Get the length of the inner data.
    pub fn get_len(&self) -> (r: usize)
        ensures
            r == self.total_len(),
    {
        self.data.len()
    }

    /// Wrap a byte slice, with a default chunk size of four bytes.
    pub fn new(data: &'a [u8]) -> (r: Source<'a>)
        ensures
            r.src_inv(),
            r.pending() == data@,
            r.total_len() == data@.len(),
            r.chunk_len() == 4,
    {
        let s = Source { data, cursor: 0, chunk_size: 4 };
        proof {
            assert(s.pending() =~= data@);
        }
        s
    }

    /// Choose the chunk size. A chunk holds at least one byte, else the
    /// source could never make progress.
    pub fn with_chunk_size(self, chunk_size: usize) -> (r: Source<'a>)
        requires
            chunk_size >= 1,
        ensures
            self.src_inv() ==> r.src_inv(),
            r.pending() == self.pending(),
            r.total_len() == self.total_len(),
            r.chunk_len() == chunk_size,
    {
        Source { data: self.data, chunk_size, cursor: self.cursor }
    }
}

impl<'a> ChunkSource for Source<'a> {
    closed spec fn src_inv(&self) -> bool {
        &&& self.cursor <= self.data@.len()
        &&& self.chunk_size >= 1
    }

    closed spec fn pending(&self) -> Seq<u8> {
        if self.cursor <= self.data@.len() {
            self.data@.skip(self.cursor as int)
        } else {
            Seq::empty()
        }
    }

    fn next_chunk(&mut self) -> (r: Option<Vec<u8>>)
        ensures
            old(self).pending().len() == 0 ==> r is None,
            (r matches Some(c) && c@.len() == if old(self).chunk_len() <= old(
                self,
            ).pending().len() {
                old(self).chunk_len() as int
            } else {
                old(self).pending().len() as int
            }) || (r is None && old(self).pending().len() == 0),
    {
        proof {
            assert(self.data.len() == self.data@.len());
        }
        if self.cursor >= self.data.len() {
            return None;
        }
        let end = if self.chunk_size > self.data.len() - self.cursor {
            self.data.len()
        } else {
            self.cursor + self.chunk_size
        };
        let chunk = vstd::slice::slice_to_vec(
            vstd::slice::slice_subrange(self.data, self.cursor, end),
        );
        let ghost pend0 = self.pending();
        let ghost k = (end - self.cursor) as int;
        self.cursor = end;
        proof {
            assert(chunk@ =~= pend0.take(k));
            assert(self.pending() =~= pend0.skip(k));
        }
        Some(chunk)
    }
}

} // verus!
