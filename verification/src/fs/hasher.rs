//! The content digest of a byte range of a file, computed while the range is
//! read in bounded increments.

use crate::digest::hex_encode;
use crate::digest::lemma_hex_lower_shape;
use crate::digest::sha1_finalize;
use crate::digest::sha1_hex;
use crate::digest::sha1_input;
use crate::digest::sha1_new;
use crate::digest::sha1_update;
use crate::digest::Sha1State;
use crate::digest::SHA1_INPUT_LIMIT;
use crate::digest::SHA1_LEN;
use crate::fs::streamer::chunk_count;
use crate::fs::streamer::lemma_streamed_bytes_are_the_range;
use crate::fs::streamer::streamed_bytes;
use crate::fs::DEFAULT_BUF_SIZE;
use crate::header::is_header_value;
use crate::header::lemma_hex_is_header_value;
use crate::ranges::joined_tiles;
use crate::ranges::lemma_tile_shape;
use crate::ranges::ByteRange;
use vstd::prelude::*;
use vstd::slice::slice_subrange;

verus! {

/// Computes the SHA-1 digest of the bytes `[start, end)` of a file. The
/// caller seeks to `seek_position()` once, then reads `next_read_len()` bytes
/// at a time and hands each increment to `absorb`, until nothing remains.
pub struct RangeHasher {
    state: Sha1State,
    range: ByteRange,
    read: u64,
}

impl RangeHasher {
    /// The range does not run backwards and is short enough to hash, and what
    /// was taken in is no longer than the range.
    pub closed spec fn wf(&self) -> bool {
        &&& self.range.wf()
        &&& self.range.spec_len() < SHA1_INPUT_LIMIT
        &&& self.read <= self.range.spec_len()
        &&& sha1_input(self.state).len() == self.read
    }

    /// The bytes of the file that are hashed.
    pub closed spec fn spec_range(&self) -> ByteRange {
        self.range
    }

    /// The bytes taken in so far.
    pub closed spec fn spec_absorbed(&self) -> Seq<u8> {
        sha1_input(self.state)
    }

    /// Number of bytes of the range that are still to come.
    pub open spec fn spec_remaining(&self) -> nat {
        (self.spec_range().spec_len() - self.spec_absorbed().len()) as nat
    }

    /// Length of the next increment: what remains, but no more than
    /// `DEFAULT_BUF_SIZE`.
    pub open spec fn spec_next_read_len(&self) -> nat {
        if self.spec_remaining() <= DEFAULT_BUF_SIZE {
            self.spec_remaining()
        } else {
            DEFAULT_BUF_SIZE as nat
        }
    }

    /// A hasher for the bytes `[start, end)` that has taken in nothing.
    pub fn new(start: u64, end: u64) -> (hasher: Self)
        requires
            start <= end,
            end - start < SHA1_INPUT_LIMIT,
        ensures
            hasher.wf(),
            hasher.spec_range() == (ByteRange { start, end }),
            hasher.spec_absorbed() == Seq::<u8>::empty(),
    {
        RangeHasher { state: sha1_new(), range: ByteRange { start, end }, read: 0 }
    }

    /// Where to move the file's cursor before the first read.
    pub fn seek_position(&self) -> (position: u64)
        ensures
            position == self.spec_range().start,
    {
        self.range.start
    }

    /// Number of bytes to read next; 0 when the whole range was taken in.
    pub fn next_read_len(&self) -> (n: usize)
        requires
            self.wf(),
        ensures
            n == self.spec_next_read_len(),
            self.spec_absorbed().len() <= self.spec_range().spec_len(),
    {
        let remaining: u64 = self.range.end - self.range.start - self.read;
        if remaining <= DEFAULT_BUF_SIZE as u64 {
            remaining as usize
        } else {
            DEFAULT_BUF_SIZE
        }
    }

    /// Whether the whole range was taken in.
    pub fn is_complete(&self) -> (done: bool)
        requires
            self.wf(),
        ensures
            done == (self.spec_remaining() == 0),
    {
        self.read >= self.range.end - self.range.start
    }

    /// Takes in the next bytes of the range, as they were read from the file.
    pub fn absorb(&mut self, data: &[u8])
        requires
            old(self).wf(),
            data@.len() <= old(self).spec_remaining(),
        ensures
            final(self).wf(),
            final(self).spec_range() == old(self).spec_range(),
            final(self).spec_absorbed() == old(self).spec_absorbed() + data@,
    {
        sha1_update(&mut self.state, data);
        self.read = self.read + data.len() as u64;
    }

    /// The digest of what was taken in: 40 lower-case hex digits, fit to
    /// stand in a header.
    pub fn finish(self) -> (digest: String)
        requires
            self.wf(),
        ensures
            digest@ == sha1_hex(self.spec_absorbed()),
            digest@.len() == 2 * SHA1_LEN,
            is_header_value(digest@),
    {
        let bytes = sha1_finalize(self.state);
        proof {
            lemma_hex_lower_shape(bytes@);
            lemma_hex_is_header_value(bytes@);
        }
        hex_encode(bytes.as_slice())
    }
}

/// The digest of the bytes `[start, end)` of content that is in memory
/// already, taken in by the same increments as from a file.
pub fn hash_chunk(data: &[u8], start: u64, end: u64) -> (digest: String)
    requires
        start <= end <= data@.len(),
        end - start < SHA1_INPUT_LIMIT,
    ensures
        digest@ == sha1_hex(data@.subrange(start as int, end as int)),
        is_header_value(digest@),
{
    let total: usize = data.len();
    let mut hasher = RangeHasher::new(start, end);
    let mut position: usize = hasher.seek_position() as usize;
    assert(hasher.spec_absorbed() =~= data@.subrange(start as int, position as int));
    loop
        invariant
            hasher.wf(),
            hasher.spec_range() == (ByteRange { start, end }),
            start <= position <= end <= data@.len() <= usize::MAX,
            hasher.spec_absorbed() == data@.subrange(start as int, position as int),
        ensures
            position == end,
        decreases end - position,
    {
        let n: usize = hasher.next_read_len();
        if n == 0 {
            break ;
        }
        let piece = slice_subrange(data, position, position + n);
        hasher.absorb(piece);
        assert(data@.subrange(start as int, position as int) + piece@ =~= data@.subrange(
            start as int,
            position + n,
        ));
        position = position + n;
    }
    hasher.finish()
}

/// The bytes `[start, end)` of content that is in memory already, drawn chunk
/// by chunk as a body draws them from a file.
pub fn stream_chunk(data: &[u8], start: u64, end: u64) -> (body: Vec<u8>)
    requires
        start <= end <= data@.len(),
    ensures
        body@ == streamed_bytes(data@, ByteRange { start, end }),
        body@ == data@.subrange(start as int, end as int),
{
    let total: usize = data.len();
    let ghost range = ByteRange { start, end };
    let mut streamer = crate::fs::streamer::RangeStreamer::new(start, end);
    let mut body: Vec<u8> = Vec::new();
    loop
        invariant
            streamer.wf(),
            streamer.spec_range() == range,
            range == (ByteRange { start, end }),
            start <= end <= data@.len() <= usize::MAX,
            streamer.spec_produced() <= chunk_count(range),
            body@ == joined_tiles(
                data@,
                start as int,
                end as int,
                DEFAULT_BUF_SIZE as int,
                streamer.spec_produced(),
            ),
        ensures
            body@ == streamed_bytes(data@, range),
        decreases chunk_count(range) - streamer.spec_produced(),
    {
        match streamer.next_read() {
            None => {
                break ;
            },
            Some(read) => {
                proof {
                    lemma_tile_shape(
                        start as int,
                        end as int,
                        DEFAULT_BUF_SIZE as int,
                        streamer.spec_produced() as int,
                    );
                }
                let piece = slice_subrange(
                    data,
                    read.range.start as usize,
                    read.range.end as usize,
                );
                let mut k: usize = 0;
                let ghost before = body@;
                while k < piece.len()
                    invariant
                        k <= piece.len(),
                        body@ == before + piece@.subrange(0, k as int),
                    decreases piece.len() - k,
                {
                    body.push(piece[k]);
                    assert(before + piece@.subrange(0, k as int).push(piece@[k as int]) =~= before
                        + piece@.subrange(0, k + 1));
                    k = k + 1;
                }
                assert(piece@.subrange(0, piece@.len() as int) =~= piece@);
                streamer.chunk_done();
            },
        }
    }
    proof {
        lemma_streamed_bytes_are_the_range(data@, range);
    }
    body
}

/// Streaming a range does not change its digest: the body of an upload
/// carries the bytes that were hashed, so the digest sent with it is the
/// digest of the body, however often the body is made anew.
pub proof fn lemma_digest_survives_streaming(data: Seq<u8>, range: ByteRange)
    requires
        range.wf(),
        range.end <= data.len(),
    ensures
        sha1_hex(streamed_bytes(data, range)) == sha1_hex(
            data.subrange(range.start as int, range.end as int),
        ),
{
    lemma_streamed_bytes_are_the_range(data, range);
}

} // verus!
