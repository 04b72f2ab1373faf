//! The body of an upload, drawn from a byte range of a file chunk by chunk.

use crate::fs::DEFAULT_BUF_SIZE;
use crate::ranges::div_ceil;
use crate::ranges::joined_tiles;
use crate::ranges::lemma_joined_tiles;
use crate::ranges::lemma_tile_shape;
use crate::ranges::lemma_tiles_are_consecutive;
use crate::ranges::tile_count;
use crate::ranges::tile_end;
use crate::ranges::tile_start;
use crate::ranges::ByteRange;
use vstd::prelude::*;

verus! {

/// What to read from the file for the next chunk of a body.
#[derive(Clone, Copy, Debug, PartialEq, Eq, Structural)]
pub struct ChunkRead {
    /// Where to move the file's cursor before reading. Only the first chunk
    /// of a body asks for that; the others go on where the last one ended.
    pub seek_to: Option<u64>,
    /// The bytes of the file that make up the chunk.
    pub range: ByteRange,
    /// Number of bytes in the chunk: the size of the buffer to fill.
    pub len: usize,
}

/// Produces the body of one upload: the bytes `[start, end)` of a file, in
/// chunks of at most `DEFAULT_BUF_SIZE` bytes. Making one reads nothing. A
/// streamer runs once; to send the same bytes again, make a new one.
#[derive(Debug)]
pub struct RangeStreamer {
    range: ByteRange,
    num_chunks: u64,
    chunk: u64,
}

/// Number of chunks in the body for `range`.
pub open spec fn chunk_count(range: ByteRange) -> nat {
    tile_count(range.spec_len(), DEFAULT_BUF_SIZE as nat)
}

/// The bytes of chunk `i` of the body for `range`.
pub open spec fn chunk_range(range: ByteRange, i: int) -> ByteRange {
    ByteRange {
        start: tile_start(range.start as int, DEFAULT_BUF_SIZE as int, i) as u64,
        end: tile_end(range.start as int, range.end as int, DEFAULT_BUF_SIZE as int, i) as u64,
    }
}

/// The read that produces chunk `i` of the body for `range`.
pub open spec fn chunk_read(range: ByteRange, i: int) -> ChunkRead {
    ChunkRead {
        seek_to: if i == 0 {
            Some(range.start)
        } else {
            None
        },
        range: chunk_range(range, i),
        len: chunk_range(range, i).spec_len() as usize,
    }
}

/// The bytes that a whole body for `range` carries when the file holds
/// `data`: its chunks, one after the other.
pub open spec fn streamed_bytes(data: Seq<u8>, range: ByteRange) -> Seq<u8> {
    joined_tiles(
        data,
        range.start as int,
        range.end as int,
        DEFAULT_BUF_SIZE as int,
        chunk_count(range),
    )
}

impl RangeStreamer {
    #[verifier::type_invariant]
    spec fn inv(&self) -> bool {
        self.wf()
    }

    /// The range does not run backwards, and the streamer has produced no
    /// more chunks than the body has.
    pub closed spec fn wf(&self) -> bool {
        &&& self.range.wf()
        &&& self.num_chunks == chunk_count(self.range)
        &&& self.chunk <= self.num_chunks
    }

    /// The bytes of the file that the body is made of.
    pub closed spec fn spec_range(&self) -> ByteRange {
        self.range
    }

    /// Number of chunks produced so far.
    pub closed spec fn spec_produced(&self) -> nat {
        self.chunk as nat
    }

    /// A streamer for the bytes `[start, end)`, before its first chunk.
    pub fn new(start: u64, end: u64) -> (streamer: Self)
        requires
            start <= end,
        ensures
            streamer.wf(),
            streamer.spec_range() == (ByteRange { start, end }),
            streamer.spec_produced() == 0,
    {
        RangeStreamer {
            range: ByteRange { start, end },
            num_chunks: div_ceil(end - start, DEFAULT_BUF_SIZE as u64),
            chunk: 0,
        }
    }

    /// Number of chunks in the whole body.
    pub fn num_chunks(&self) -> (n: u64)
        ensures
            n == chunk_count(self.spec_range()),
    {
        proof {
            use_type_invariant(self);
        }
        self.num_chunks
    }

    /// Whether every chunk has been produced.
    pub fn is_finished(&self) -> (done: bool)
        ensures
            done == (self.spec_produced() >= chunk_count(self.spec_range())),
    {
        proof {
            use_type_invariant(self);
        }
        self.chunk >= self.num_chunks
    }

    /// The read for the next chunk, or `None` when the body is complete.
    pub fn next_read(&self) -> (read: Option<ChunkRead>)
        ensures
            match read {
                Some(r) => {
                    &&& self.spec_produced() < chunk_count(self.spec_range())
                    &&& r == chunk_read(self.spec_range(), self.spec_produced() as int)
                    &&& 0 < r.len <= DEFAULT_BUF_SIZE
                    &&& r.len == r.range.end - r.range.start
                },
                None => self.spec_produced() >= chunk_count(self.spec_range()),
            },
    {
        proof {
            use_type_invariant(self);
        }
        if self.chunk >= self.num_chunks {
            return None;
        }
        let step: u64 = DEFAULT_BUF_SIZE as u64;
        proof {
            lemma_tile_shape(
                self.range.start as int,
                self.range.end as int,
                step as int,
                self.chunk as int,
            );
            assert((self.chunk + 1) * step == self.chunk * step + step) by (nonlinear_arith);
        }
        let chunk_start: u64 = self.range.start + self.chunk * step;
        let chunk_end: u64 = if self.range.end - chunk_start <= step {
            self.range.end
        } else {
            chunk_start + step
        };
        let seek_to: Option<u64> = if self.chunk == 0 {
            Some(self.range.start)
        } else {
            None
        };
        Some(
            ChunkRead {
                seek_to,
                range: ByteRange { start: chunk_start, end: chunk_end },
                len: (chunk_end - chunk_start) as usize,
            },
        )
    }

    /// Records that the chunk of the last `next_read` was read in full and
    /// handed on. After a failed read the streamer is left as it is: the body
    /// ends with that error.
    pub fn chunk_done(&mut self)
        ensures
            final(self).wf(),
            final(self).spec_range() == old(self).spec_range(),
            final(self).spec_produced() == if old(self).spec_produced() < chunk_count(
                old(self).spec_range(),
            ) {
                old(self).spec_produced() + 1
            } else {
                old(self).spec_produced()
            },
    {
        proof {
            use_type_invariant(&*self);
        }
        if self.chunk < self.num_chunks {
            self.chunk = self.chunk + 1;
        }
    }
}

/// The chunks of a body cover its range exactly. Each chunk holds at least
/// one and at most `DEFAULT_BUF_SIZE` bytes of the range; the first starts
/// where the range starts, each next one where the one before ended, and the
/// last ends where the range ends. Only the first asks for a seek.
pub proof fn lemma_chunks_tile_the_range(range: ByteRange)
    requires
        range.wf(),
    ensures
        forall|i: int|
            0 <= i < chunk_count(range) ==> {
                let c = #[trigger] chunk_range(range, i);
                &&& range.start <= c.start < c.end <= range.end
                &&& c.end - c.start <= DEFAULT_BUF_SIZE
                &&& c.start == range.start + i * DEFAULT_BUF_SIZE
            },
        chunk_count(range) > 0 ==> chunk_range(range, 0).start == range.start,
        forall|i: int|
            0 <= i && i + 1 < chunk_count(range) ==> (#[trigger] chunk_range(range, i)).end
                == chunk_range(range, i + 1).start,
        chunk_count(range) > 0 ==> chunk_range(range, chunk_count(range) - 1).end == range.end,
        forall|i: int|
            0 <= i < chunk_count(range) ==> ((#[trigger] chunk_read(range, i)).seek_to is Some
                <==> i == 0),
{
    let origin = range.start as int;
    let limit = range.end as int;
    let step = DEFAULT_BUF_SIZE as int;
    lemma_tiles_are_consecutive(origin, limit, step);
    assert forall|i: int| 0 <= i < chunk_count(range) implies {
        let c = #[trigger] chunk_range(range, i);
        &&& range.start <= c.start < c.end <= range.end
        &&& c.end - c.start <= DEFAULT_BUF_SIZE
        &&& c.start == range.start + i * DEFAULT_BUF_SIZE
    } by {
        lemma_tile_shape(origin, limit, step, i);
    }
    assert forall|i: int| 0 <= i && i + 1 < chunk_count(range) implies (#[trigger] chunk_range(
        range,
        i,
    )).end == chunk_range(range, i + 1).start by {
        lemma_tile_shape(origin, limit, step, i);
        lemma_tile_shape(origin, limit, step, i + 1);
        assert(tile_end(origin, limit, step, i) == tile_start(origin, step, i + 1));
    }
    if chunk_count(range) > 0 {
        lemma_tile_shape(origin, limit, step, 0);
        lemma_tile_shape(origin, limit, step, chunk_count(range) - 1);
    }
}

/// A body carries exactly the bytes of its range, `end - start` of them, in
/// the order in which they lie in the file.
pub proof fn lemma_streamed_bytes_are_the_range(data: Seq<u8>, range: ByteRange)
    requires
        range.wf(),
        range.end <= data.len(),
    ensures
        streamed_bytes(data, range) == data.subrange(range.start as int, range.end as int),
        streamed_bytes(data, range).len() == range.end - range.start,
{
    lemma_joined_tiles(
        data,
        range.start as int,
        range.end as int,
        DEFAULT_BUF_SIZE as int,
        chunk_count(range),
    );
}

} // verus!
