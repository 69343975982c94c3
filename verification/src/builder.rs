use vstd::prelude::*;

use crate::heuristic::{Heuristic, Increment};
use crate::stream_parsers;
use crate::traits::{parser_wf, Buffer, ByteReader, ChunkSource, ParseVerdict};

verus! {

/// Step-by-step assembly of a stream parser: choose a heuristic, then hand
/// over a work buffer and a grammar parser, then pick exactly one byte
/// source — a chunk iterator or a blocking reader.
pub struct StreamParserBuilder<B, O, P, H> {
    work_buffer: Option<B>,
    parser: Option<P>,
    heuristic: H,
    record: core::marker::PhantomData<O>,
}

impl<B, O, P, H> StreamParserBuilder<B, O, P, H> where
    B: Buffer,
    P: Fn(&[u8]) -> ParseVerdict<O> + Copy,
    H: Heuristic,
 {
    /// Every part handed over so far is well-formed.
    pub closed spec fn wf(&self) -> bool {
        &&& self.heuristic.wf()
        &&& (self.work_buffer matches Some(b) ==> b.inv())
        &&& (self.parser matches Some(p) ==> parser_wf(p))
    }

    /// Both the work buffer and the parser were handed over.
    pub closed spec fn complete(&self) -> bool {
        self.work_buffer is Some && self.parser is Some
    }

    /// The work buffer was handed over.
    pub closed spec fn has_buffer(&self) -> bool {
        self.work_buffer is Some
    }

    /// The parser was handed over.
    pub closed spec fn has_parser(&self) -> bool {
        self.parser is Some
    }

    /// The heuristic this builder was started with.
    pub closed spec fn heuristic_part(&self) -> H {
        self.heuristic
    }

    /// The buffer handed over so far, if any.
    pub closed spec fn buffer_part(&self) -> Option<B> {
        self.work_buffer
    }

    /// The parser handed over so far, if any.
    pub closed spec fn parser_part(&self) -> Option<P> {
        self.parser
    }

    /// Start assembling a stream parser around the given heuristic.
    pub fn with_heuristic(heuristic: H) -> (r: StreamParserBuilder<B, O, P, H>)
        requires
            heuristic.wf(),
        ensures
            r.wf(),
            r.heuristic_part() == heuristic,
            r.buffer_part() is None,
            r.parser_part() is None,
    {
        StreamParserBuilder {
            work_buffer: None,
            parser: None,
            heuristic,
            record: core::marker::PhantomData,
        }
    }

    /// Hand over the scratch buffer the engine will own.
    pub fn work_buffer(self, work_buffer: B) -> (r: StreamParserBuilder<B, O, P, H>)
        requires
            self.wf(),
            work_buffer.inv(),
        ensures
            r.wf(),
            r.complete() == self.has_parser(),
            r.buffer_part() == Some(work_buffer),
            r.parser_part() == self.parser_part(),
            r.heuristic_part() == self.heuristic_part(),
    {
        StreamParserBuilder {
            work_buffer: Some(work_buffer),
            parser: self.parser,
            heuristic: self.heuristic,
            record: core::marker::PhantomData,
        }
    }

    /// Hand over the grammar parser.
    pub fn parser(self, parser: P) -> (r: StreamParserBuilder<B, O, P, H>)
        requires
            self.wf(),
            parser_wf(parser),
        ensures
            r.wf(),
            r.complete() == self.has_buffer(),
            r.parser_part() == Some(parser),
            r.buffer_part() == self.buffer_part(),
            r.heuristic_part() == self.heuristic_part(),
    {
        StreamParserBuilder {
            work_buffer: self.work_buffer,
            parser: Some(parser),
            heuristic: self.heuristic,
            record: core::marker::PhantomData,
        }
    }

    /// Pick a chunk iterator as the byte source.
    pub fn iterator<I: ChunkSource>(self, iterator: I) -> (r: StreamParserIteratorBuilder<
        I,
        B,
        O,
        P,
        H,
    >)
        requires
            self.wf(),
            iterator.src_inv(),
        ensures
            r.wf(),
            r.complete() == self.complete(),
            r.source_part() == Some(iterator),
            r.buffer_part() == self.buffer_part(),
            r.parser_part() == self.parser_part(),
            r.heuristic_part() == self.heuristic_part(),
    {
        StreamParserIteratorBuilder {
            iterator: Some(iterator),
            work_buffer: self.work_buffer,
            parser: self.parser,
            heuristic: self.heuristic,
            record: core::marker::PhantomData,
        }
    }

    /// Pick a blocking reader as the byte source.
    pub fn reader<R: ByteReader>(self, reader: R) -> (r: StreamParserReaderBuilder<
        R,
        B,
        O,
        P,
        H,
    >)
        requires
            self.wf(),
            reader.rdr_inv(),
        ensures
            r.wf(),
            r.complete() == self.complete(),
            r.source_part() == Some(reader),
            r.buffer_part() == self.buffer_part(),
            r.parser_part() == self.parser_part(),
            r.heuristic_part() == self.heuristic_part(),
    {
        StreamParserReaderBuilder {
            reader: Some(reader),
            work_buffer: self.work_buffer,
            parser: self.parser,
            heuristic: self.heuristic,
            record: core::marker::PhantomData,
        }
    }
}

impl<B, O, P> Default for StreamParserBuilder<B, O, P, Increment> where
    B: Buffer,
    P: Fn(&[u8]) -> ParseVerdict<O> + Copy,
 {
    /// Start assembling a stream parser around the trivial heuristic.
    fn default() -> (r: StreamParserBuilder<B, O, P, Increment>)
        ensures
            r.wf(),
    {
        StreamParserBuilder::with_heuristic(Increment)
    }
}

/// A builder that chose a chunk iterator as its byte source.
pub struct StreamParserIteratorBuilder<I, B, O, P, H> {
    iterator: Option<I>,
    work_buffer: Option<B>,
    parser: Option<P>,
    heuristic: H,
    record: core::marker::PhantomData<O>,
}

impl<I, B, O, P, H> StreamParserIteratorBuilder<I, B, O, P, H> where
    I: ChunkSource,
    B: Buffer,
    P: Fn(&[u8]) -> ParseVerdict<O> + Copy,
    H: Heuristic,
 {
    /// Every part handed over so far is well-formed.
    pub closed spec fn wf(&self) -> bool {
        &&& self.heuristic.wf()
        &&& (self.work_buffer matches Some(b) ==> b.inv())
        &&& (self.parser matches Some(p) ==> parser_wf(p))
        &&& (self.iterator matches Some(i) ==> i.src_inv())
    }

    /// Every part was handed over.
    pub closed spec fn complete(&self) -> bool {
        self.iterator is Some && self.work_buffer is Some && self.parser is Some
    }

    /// The heuristic this builder was started with.
    pub closed spec fn heuristic_part(&self) -> H {
        self.heuristic
    }

    /// The buffer handed over so far, if any.
    pub closed spec fn buffer_part(&self) -> Option<B> {
        self.work_buffer
    }

    /// The parser handed over so far, if any.
    pub closed spec fn parser_part(&self) -> Option<P> {
        self.parser
    }

    /// The source handed over so far, if any.
    pub closed spec fn source_part(&self) -> Option<I> {
        self.iterator
    }

    /// Check that nothing is missing and assemble exactly the handed parts.
    pub fn build(self) -> (r: Option<StreamParserIterator<I, B, O, P, H>>)
        requires
            self.wf(),
        ensures
            r is Some <==> self.complete(),
            r matches Some(p) ==> {
                &&& p.wf()
                &&& Some(p.work_buffer) == self.buffer_part()
                &&& Some(p.parser) == self.parser_part()
                &&& Some(p.iterator) == self.source_part()
                &&& p.heuristic == self.heuristic_part()
            },
    {
        match (self.iterator, self.work_buffer, self.parser) {
            (Some(iterator), Some(work_buffer), Some(parser)) => Some(
                StreamParserIterator { iterator, work_buffer, parser, heuristic: self.heuristic, record: core::marker::PhantomData },
            ),
            _ => None,
        }
    }
}

/// A builder that chose a blocking reader as its byte source.
pub struct StreamParserReaderBuilder<R, B, O, P, H> {
    reader: Option<R>,
    work_buffer: Option<B>,
    parser: Option<P>,
    heuristic: H,
    record: core::marker::PhantomData<O>,
}

impl<R, B, O, P, H> StreamParserReaderBuilder<R, B, O, P, H> where
    R: ByteReader,
    B: Buffer,
    P: Fn(&[u8]) -> ParseVerdict<O> + Copy,
    H: Heuristic,
 {
    /// Every part handed over so far is well-formed.
    pub closed spec fn wf(&self) -> bool {
        &&& self.heuristic.wf()
        &&& (self.work_buffer matches Some(b) ==> b.inv())
        &&& (self.parser matches Some(p) ==> parser_wf(p))
        &&& (self.reader matches Some(i) ==> i.rdr_inv())
    }

    /// Every part was handed over.
    pub closed spec fn complete(&self) -> bool {
        self.reader is Some && self.work_buffer is Some && self.parser is Some
    }

    /// The heuristic this builder was started with.
    pub closed spec fn heuristic_part(&self) -> H {
        self.heuristic
    }

    /// The buffer handed over so far, if any.
    pub closed spec fn buffer_part(&self) -> Option<B> {
        self.work_buffer
    }

    /// The parser handed over so far, if any.
    pub closed spec fn parser_part(&self) -> Option<P> {
        self.parser
    }

    /// The source handed over so far, if any.
    pub closed spec fn source_part(&self) -> Option<R> {
        self.reader
    }

    /// Check that nothing is missing and assemble exactly the handed parts.
    pub fn build(self) -> (r: Option<StreamParserReader<R, B, O, P, H>>)
        requires
            self.wf(),
        ensures
            r is Some <==> self.complete(),
            r matches Some(p) ==> {
                &&& p.wf()
                &&& Some(p.work_buffer) == self.buffer_part()
                &&& Some(p.parser) == self.parser_part()
                &&& Some(p.reader) == self.source_part()
                &&& p.heuristic == self.heuristic_part()
            },
    {
        match (self.reader, self.work_buffer, self.parser) {
            (Some(reader), Some(work_buffer), Some(parser)) => Some(
                StreamParserReader { reader, work_buffer, parser, heuristic: self.heuristic, record: core::marker::PhantomData },
            ),
            _ => None,
        }
    }
}

/// The assembled parts of an iterator-driven stream parser.
pub struct StreamParserIterator<I, B, O, P, H> {
    /// The chunked byte source
    pub iterator: I,
    /// The scratch buffer the engine will own
    pub work_buffer: B,
    /// The grammar parser
    pub parser: P,
    /// The boundary heuristic
    pub heuristic: H,
    /// The record type the parser produces
    pub record: core::marker::PhantomData<O>,
}

impl<I, B, O, P, H> StreamParserIterator<I, B, O, P, H> where
    I: ChunkSource,
    B: Buffer,
    P: Fn(&[u8]) -> ParseVerdict<O> + Copy,
    H: Heuristic,
 {
    /// Every part is well-formed.
    pub open spec fn wf(&self) -> bool {
        &&& self.heuristic.wf()
        &&& self.work_buffer.inv()
        &&& parser_wf(self.parser)
        &&& self.iterator.src_inv()
    }

    /// Hand the parts to the iterator-driven engine.
    pub fn stream(self) -> (r: stream_parsers::sync_iterator::StreamParser<I, B, O, P, H>)
        requires
            self.wf(),
        ensures
            r.inv(),
            r.parser() == self.parser,
            r.source_pending() == self.iterator.pending(),
            r.unread() == self.work_buffer.contents(),
            r.buffer_is_fixed() == self.work_buffer.is_fixed(),
            r.buffer_capacity() == self.work_buffer.capacity(),
    {
        stream_parsers::sync_iterator::StreamParser::new(
            self.iterator,
            self.work_buffer,
            self.parser,
            self.heuristic,
        )
    }
}

/// The assembled parts of a reader-driven stream parser.
pub struct StreamParserReader<R, B, O, P, H> {
    /// The blocking byte source
    pub reader: R,
    /// The scratch buffer the engine will own
    pub work_buffer: B,
    /// The grammar parser
    pub parser: P,
    /// The boundary heuristic
    pub heuristic: H,
    /// The record type the parser produces
    pub record: core::marker::PhantomData<O>,
}

impl<R, B, O, P, H> StreamParserReader<R, B, O, P, H> where
    R: ByteReader,
    B: Buffer,
    P: Fn(&[u8]) -> ParseVerdict<O> + Copy,
    H: Heuristic,
 {
    /// Every part is well-formed.
    pub open spec fn wf(&self) -> bool {
        &&& self.heuristic.wf()
        &&& self.work_buffer.inv()
        &&& parser_wf(self.parser)
        &&& self.reader.rdr_inv()
    }

    /// Hand the parts to the reader-driven engine.
    pub fn stream(self) -> (r: stream_parsers::sync_reader::StreamParser<R, B, O, P, H>)
        requires
            self.wf(),
        ensures
            r.inv(),
            r.parser() == self.parser,
            r.source_pending() == self.reader.pending(),
            r.unread() == self.work_buffer.contents(),
            r.buffer_is_fixed() == self.work_buffer.is_fixed(),
            r.buffer_capacity() == self.work_buffer.capacity(),
    {
        stream_parsers::sync_reader::StreamParser::new(
            self.reader,
            self.work_buffer,
            self.parser,
            self.heuristic,
        )
    }
}

} // verus!
