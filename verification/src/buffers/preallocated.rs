use vstd::prelude::*;

use crate::errors::StreamParserError;
use crate::traits::Buffer;

verus! {

/// A scratch buffer of preallocated heap data: its physical size is chosen
/// once and never grows. `cursor` counts the bytes written so far, so the
/// readable window is `buffer[..cursor]`.
pub struct BufferPreallocated<'a> {
    cursor: usize,
    buffer: Vec<u8>,
    name: &'a str,
}

impl<'a> BufferPreallocated<'a> {
    /// Create a buffer of fixed size.
    pub fn new(buffer_size: usize) -> (r: BufferPreallocated<'a>)
        ensures
            r.inv(),
            r.contents() == Seq::<u8>::empty(),
            r.is_fixed(),
            r.capacity() == buffer_size,
    {
        let buffer = vec![0u8; buffer_size];
        let b = BufferPreallocated { cursor: 0, buffer, name: "" };
        assert(b.contents() =~= Seq::<u8>::empty());
        b
    }

    /// Give the buffer a name, mostly for debugging purposes.
    pub fn with_name(self, name: &'a str) -> (r: BufferPreallocated<'a>)
        ensures
            r.contents() == self.contents(),
            r.is_fixed() == self.is_fixed(),
            r.capacity() == self.capacity(),
            r.inv() == self.inv(),
    {
        BufferPreallocated { cursor: self.cursor, buffer: self.buffer, name }
    }

    /// Shift the bytes at `offset..cursor` down to the front and shrink the
    /// readable window accordingly.
    fn shift_down(&mut self, offset: usize)
        requires
            old(self).inv(),
            offset <= old(self).cursor,
        ensures
            final(self).inv(),
            final(self).buffer@.len() == old(self).buffer@.len(),
            final(self).cursor == old(self).cursor - offset,
            final(self).contents() == old(self).contents().skip(offset as int),
    {
        let count = self.cursor - offset;
        let mut i: usize = 0;
        while i < count
            invariant
                self.inv(),
                offset + count == self.cursor,
                self.cursor <= self.buffer@.len(),
                i <= count,
                self.buffer@.len() == old(self).buffer@.len(),
                self.cursor == old(self).cursor,
                forall|j: int| 0 <= j < i ==> self.buffer@[j] == old(self).buffer@[offset + j],
                forall|j: int|
                    i <= j < self.buffer@.len() ==> self.buffer@[j] == old(self).buffer@[j],
            decreases count - i,
        {
            let b = self.buffer[offset + i];
            self.buffer[i] = b;
            i += 1;
        }
        self.cursor = count;
        assert(self.contents() =~= old(self).contents().skip(offset as int));
    }
}

impl<'a> Buffer for BufferPreallocated<'a> {
    closed spec fn contents(&self) -> Seq<u8> {
        self.buffer@.subrange(0, self.cursor as int)
    }

    closed spec fn is_fixed(&self) -> bool {
        true
    }

    closed spec fn capacity(&self) -> usize {
        self.buffer.len()
    }

    closed spec fn inv(&self) -> bool {
        self.cursor <= self.buffer@.len()
    }

    proof fn lemma_inv(&self) {
    }

    fn data_len(&self) -> (r: usize) {
        self.cursor
    }

    fn readable(&self) -> (r: &[u8]) {
        vstd::slice::slice_subrange(self.buffer.as_slice(), 0, self.cursor)
    }

    fn append(&mut self, other: &[u8], evinceable: Option<usize>) -> (r: Result<
        bool,
        StreamParserError,
    >) {
        let free_space = self.buffer.len() - self.cursor;
        let mut eviction = false;
        if other.len() > free_space {
            match evinceable {
                None => {
                    return Err(
                        StreamParserError::ExceededBuffer {
                            buffer_size: self.buffer.len(),
                            data_size: other.len(),
                        },
                    );
                },
                Some(evince_number) => {
                    if evince_number == 0 || other.len() > self.buffer.len() - (self.cursor
                        - evince_number) {
                        return Err(
                            StreamParserError::ExceededBuffer {
                                buffer_size: self.buffer.len(),
                                data_size: other.len(),
                            },
                        );
                    }
                    self.shift_down(evince_number);
                    eviction = true;
                },
            }
        }
        let ghost mid = self.contents();
        let ghost cur0 = self.cursor as int;
        let ghost len0 = self.buffer@.len();
        proof {
            assert(self.buffer.len() == self.buffer@.len());
        }
        let mut j: usize = 0;
        while j < other.len()
            invariant
                self.inv(),
                len0 <= usize::MAX,
                j <= other@.len(),
                self.cursor == cur0,
                self.buffer@.len() == len0,
                cur0 + other@.len() <= len0,
                mid.len() == cur0,
                forall|t: int| 0 <= t < cur0 ==> self.buffer@[t] == mid[t],
                forall|t: int| 0 <= t < j ==> self.buffer@[cur0 + t] == other@[t],
            decreases other@.len() - j,
        {
            let b = other[j];
            self.buffer[self.cursor + j] = b;
            j += 1;
        }
        self.cursor = self.cursor + other.len();
        assert(self.contents() =~= mid + other@);
        Ok(eviction)
    }

    fn clear(&mut self) {
        self.cursor = 0;
        assert(self.contents() =~= Seq::<u8>::empty());
    }

    fn compact(&mut self, offset: usize) {
        self.shift_down(offset);
    }

    fn free_space(&self) -> (r: usize) {
        self.buffer.len() - self.cursor
    }
}

} // verus!
