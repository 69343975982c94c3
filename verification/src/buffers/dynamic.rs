use vstd::prelude::*;

use crate::errors::StreamParserError;
use crate::traits::Buffer;

verus! {

/// A growable scratch buffer: it never evicts and never overflows, its
/// backing storage simply grows to fit.
pub struct BufferDynamic {
    buffer: Vec<u8>,
}

impl BufferDynamic {
    /// Create an empty growable buffer.
    pub fn new() -> (r: BufferDynamic)
        ensures
            r.inv(),
            r.contents() == Seq::<u8>::empty(),
            !r.is_fixed(),
    {
        BufferDynamic { buffer: Vec::new() }
    }
}

impl Default for BufferDynamic {
    fn default() -> (r: BufferDynamic)
        ensures
            r.inv(),
            r.contents() == Seq::<u8>::empty(),
            !r.is_fixed(),
    {
        BufferDynamic { buffer: Vec::new() }
    }
}

impl Buffer for BufferDynamic {
    closed spec fn contents(&self) -> Seq<u8> {
        self.buffer@
    }

    closed spec fn is_fixed(&self) -> bool {
        false
    }

    closed spec fn capacity(&self) -> usize {
        0
    }

    closed spec fn inv(&self) -> bool {
        true
    }

    proof fn lemma_inv(&self) {
        assert(self.buffer.len() == self.buffer@.len());
    }

    fn data_len(&self) -> (r: usize) {
        self.buffer.len()
    }

    fn readable(&self) -> (r: &[u8]) {
        self.buffer.as_slice()
    }

    fn append(&mut self, other: &[u8], _evinceable: Option<usize>) -> (r: Result<
        bool,
        StreamParserError,
    >) {
        self.buffer.extend_from_slice(other);
        Ok(false)
    }

    fn clear(&mut self) {
        self.buffer.clear();
    }

    fn compact(&mut self, offset: usize) {
        let rest = vstd::slice::slice_to_vec(
            vstd::slice::slice_subrange(self.buffer.as_slice(), offset, self.buffer.len()),
        );
        self.buffer = rest;
        assert(self.contents() =~= old(self).contents().skip(offset as int));
    }

    fn free_space(&self) -> (r: usize) {
        4096
    }
}

} // verus!
