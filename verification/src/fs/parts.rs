//! How a large file is cut into parts, and how part numbers are handed out.

use crate::ranges::lemma_offset_in_one_tile;
use crate::ranges::lemma_tile_count_is_ceiling;
use crate::ranges::lemma_tile_shape;
use crate::ranges::lemma_tiles_are_consecutive;
use crate::ranges::div_ceil;
use crate::ranges::tile_count;
use crate::ranges::tile_end;
use crate::ranges::tile_start;
use crate::ranges::ByteRange;
use std::sync::atomic::AtomicU32;
use vstd::prelude::*;

verus! {

/// Number of parts of a file of `length` bytes in parts of `part_size` bytes:
/// `ceil(length / part_size)`.
pub open spec fn part_count(length: u64, part_size: u64) -> nat {
    tile_count(length as nat, part_size as nat)
}

/// `part_number` is the number of a part of such a file: parts are numbered
/// from 1.
pub open spec fn is_part(length: u64, part_size: u64, part_number: int) -> bool {
    1 <= part_number <= part_count(length, part_size)
}

/// The bytes of part `part_number` of such a file: they start at
/// `(part_number - 1) * part_size` and end a part size later, or at the end
/// of the file if that comes first.
pub open spec fn part_range(length: u64, part_size: u64, part_number: int) -> ByteRange {
    ByteRange {
        start: tile_start(0, part_size as int, part_number - 1) as u64,
        end: tile_end(0, length as int, part_size as int, part_number - 1) as u64,
    }
}

/// The part that the `ticket`-th claim gets, counting claims from 0: part
/// `ticket + 1`, as long as the file has that many parts and the number fits
/// its type.
pub open spec fn assignment(length: u64, part_size: u64, ticket: u32) -> Option<PartAssignment> {
    if ticket < part_count(length, part_size) && ticket < u32::MAX {
        Some(
            PartAssignment {
                part_number: (ticket + 1) as u32,
                range: part_range(length, part_size, ticket + 1),
            },
        )
    } else {
        None
    }
}

/// The parts of a file of `length` bytes, each of `part_size` bytes but for
/// the last, which holds what is left. Parts are numbered from 1.
#[derive(Debug)]
pub struct PartLayout {
    length: u64,
    part_size: u64,
    count: u64,
}

/// One part of a large file, as a worker claims it.
#[derive(Clone, Copy, Debug, PartialEq, Eq, Structural)]
pub struct PartAssignment {
    /// The part's number, from 1.
    pub part_number: u32,
    /// The bytes of the file that make up the part.
    pub range: ByteRange,
}

impl PartLayout {
    #[verifier::type_invariant]
    spec fn inv(&self) -> bool {
        self.wf()
    }

    /// The part size is positive and the count is that of the parts needed.
    pub closed spec fn wf(&self) -> bool {
        &&& self.part_size > 0
        &&& self.count == tile_count(self.length as nat, self.part_size as nat)
    }

    /// Length of the file in bytes.
    pub closed spec fn spec_length(&self) -> u64 {
        self.length
    }

    /// Size of every part but the last.
    pub closed spec fn spec_part_size(&self) -> u64 {
        self.part_size
    }

    /// Number of parts.
    pub open spec fn spec_part_count(&self) -> nat {
        part_count(self.spec_length(), self.spec_part_size())
    }

    /// `part_number` is the number of a part of this file.
    pub open spec fn is_part(&self, part_number: int) -> bool {
        is_part(self.spec_length(), self.spec_part_size(), part_number)
    }

    /// The bytes of part `part_number`.
    pub open spec fn spec_part_range(&self, part_number: int) -> ByteRange {
        part_range(self.spec_length(), self.spec_part_size(), part_number)
    }

    /// The part that the `ticket`-th claim gets.
    pub open spec fn spec_assignment(&self, ticket: u32) -> Option<PartAssignment> {
        assignment(self.spec_length(), self.spec_part_size(), ticket)
    }

    /// Lays out a file of `length` bytes in parts of `part_size` bytes.
    pub fn new(length: u64, part_size: u64) -> (layout: Self)
        requires
            part_size > 0,
        ensures
            layout.wf(),
            layout.spec_length() == length,
            layout.spec_part_size() == part_size,
    {
        PartLayout { length, part_size, count: div_ceil(length, part_size) }
    }

    /// Length of the file in bytes.
    pub fn length(&self) -> (n: u64)
        ensures
            n == self.spec_length(),
    {
        self.length
    }

    /// Size of every part but the last.
    pub fn part_size(&self) -> (n: u64)
        ensures
            n == self.spec_part_size(),
            n > 0,
    {
        proof {
            use_type_invariant(self);
        }
        self.part_size
    }

    /// Number of parts.
    pub fn part_count(&self) -> (n: u64)
        ensures
            n == self.spec_part_count(),
    {
        proof {
            use_type_invariant(self);
        }
        self.count
    }

    /// The bytes of part `part_number`, if the file has such a part.
    pub fn part_range(&self, part_number: u64) -> (range: Option<ByteRange>)
        ensures
            match range {
                Some(r) => self.is_part(part_number as int) && r == self.spec_part_range(
                    part_number as int,
                ),
                None => !self.is_part(part_number as int),
            },
    {
        proof {
            use_type_invariant(self);
        }
        if part_number == 0 || part_number > self.count {
            return None;
        }
        let index: u64 = part_number - 1;
        proof {
            lemma_tile_shape(0, self.length as int, self.part_size as int, index as int);
            assert((index + 1) * self.part_size == index * self.part_size + self.part_size)
                by (nonlinear_arith);
        }
        let start: u64 = index * self.part_size;
        let end: u64 = if self.length - start <= self.part_size {
            self.length
        } else {
            start + self.part_size
        };
        Some(ByteRange { start, end })
    }

    /// The part that the `ticket`-th claim gets, counting claims from 0.
    pub fn assignment(&self, ticket: u32) -> (assigned: Option<PartAssignment>)
        ensures
            assigned == self.spec_assignment(ticket),
    {
        proof {
            use_type_invariant(self);
        }
        if ticket == u32::MAX {
            return None;
        }
        let part_number: u32 = ticket + 1;
        match self.part_range(part_number as u64) {
            Some(range) => Some(PartAssignment { part_number, range }),
            None => None,
        }
    }
}

/// The parts of a file cover it exactly. Their number is the ceiling of
/// `length / part_size`. Each part is a run of at least one and at most
/// `part_size` bytes inside the file; the first starts at offset 0, each next
/// one starts where the one before ended, and the last ends at the end of the
/// file.
pub proof fn lemma_parts_tile_the_file(length: u64, part_size: u64)
    requires
        part_size > 0,
    ensures
        part_count(length, part_size) * part_size >= length,
        length > 0 ==> (part_count(length, part_size) - 1) * part_size < length,
        length == 0 ==> part_count(length, part_size) == 0,
        forall|p: int|
            is_part(length, part_size, p) ==> {
                let r = #[trigger] part_range(length, part_size, p);
                &&& r.start < r.end <= length
                &&& r.end - r.start <= part_size
                &&& p < part_count(length, part_size) ==> r.end - r.start == part_size
                &&& r.start == (p - 1) * part_size
            },
        is_part(length, part_size, 1) ==> part_range(length, part_size, 1).start == 0,
        forall|p: int|
            is_part(length, part_size, p) && is_part(length, part_size, p + 1) ==> (
            #[trigger] part_range(length, part_size, p)).end == part_range(
                length,
                part_size,
                p + 1,
            ).start,
        part_count(length, part_size) > 0 ==> part_range(
            length,
            part_size,
            part_count(length, part_size) as int,
        ).end == length,
{
    let limit = length as int;
    let step = part_size as int;
    lemma_tile_count_is_ceiling(length as nat, part_size as nat);
    lemma_tiles_are_consecutive(0, limit, step);
    assert forall|p: int| is_part(length, part_size, p) implies {
        let r = #[trigger] part_range(length, part_size, p);
        &&& r.start < r.end <= length
        &&& r.end - r.start <= part_size
        &&& p < part_count(length, part_size) ==> r.end - r.start == part_size
        &&& r.start == (p - 1) * part_size
    } by {
        lemma_tile_shape(0, limit, step, p - 1);
    }
    assert forall|p: int|
        is_part(length, part_size, p) && is_part(length, part_size, p + 1) implies (
    #[trigger] part_range(length, part_size, p)).end == part_range(length, part_size, p + 1).start by {
        lemma_tile_shape(0, limit, step, p - 1);
        lemma_tile_shape(0, limit, step, p);
        assert(tile_end(0, limit, step, p - 1) == tile_start(0, step, p));
    }
    if part_count(length, part_size) > 0 {
        lemma_tile_shape(0, limit, step, part_count(length, part_size) - 1);
    }
    if is_part(length, part_size, 1) {
        lemma_tile_shape(0, limit, step, 0);
    }
}

/// Every byte of the file is in exactly one part: offset `x` is in part
/// `x / part_size + 1` and in no other.
pub proof fn lemma_each_byte_in_one_part(length: u64, part_size: u64, x: int)
    requires
        part_size > 0,
        0 <= x < length,
    ensures
        is_part(length, part_size, x / (part_size as int) + 1),
        part_range(length, part_size, x / (part_size as int) + 1).contains(x),
        forall|p: int|
            is_part(length, part_size, p) && (#[trigger] part_range(length, part_size, p)).contains(
                x,
            ) ==> p == x / (part_size as int) + 1,
{
    let limit = length as int;
    let step = part_size as int;
    lemma_offset_in_one_tile(0, limit, step, x);
    let k = x / step;
    lemma_tile_shape(0, limit, step, k);
    assert forall|p: int|
        is_part(length, part_size, p) && (#[trigger] part_range(length, part_size, p)).contains(
            x,
        ) implies p == k + 1 by {
        lemma_tile_shape(0, limit, step, p - 1);
        assert(tile_start(0, step, p - 1) <= x < tile_end(0, limit, step, p - 1));
    }
}

/// The number of bytes in the first `n` parts, added up.
pub open spec fn parts_length(length: u64, part_size: u64, n: nat) -> nat
    decreases n,
{
    if n == 0 {
        0
    } else {
        parts_length(length, part_size, (n - 1) as nat) + part_range(
            length,
            part_size,
            n as int,
        ).spec_len()
    }
}

/// The lengths of the first `n` parts add up to the offset at which part `n`
/// ends, and the lengths of all parts add up to the length of the file: what
/// goes up in parts is as long as what goes up in one piece.
pub proof fn lemma_part_lengths_add_up(length: u64, part_size: u64, n: nat)
    requires
        part_size > 0,
        n <= part_count(length, part_size),
    ensures
        n > 0 ==> parts_length(length, part_size, n) == part_range(length, part_size, n as int).end,
        n == part_count(length, part_size) ==> parts_length(length, part_size, n) == length,
    decreases n,
{
    lemma_parts_tile_the_file(length, part_size);
    if n > 0 {
        lemma_part_lengths_add_up(length, part_size, (n - 1) as nat);
        let r = part_range(length, part_size, n as int);
        assert(is_part(length, part_size, n as int));
        assert(r.start < r.end <= length);
        if n > 1 {
            let q = part_range(length, part_size, n - 1);
            assert(is_part(length, part_size, n - 1));
            assert(q.end == r.start);
            assert(parts_length(length, part_size, (n - 1) as nat) == q.end);
        } else {
            assert(r.start == 0);
            assert(parts_length(length, part_size, 0) == 0);
        }
        assert(parts_length(length, part_size, n) == parts_length(
            length,
            part_size,
            (n - 1) as nat,
        ) + r.spec_len());
    }
}

/// The bytes of a file under its parts, one part after the other, are the
/// bytes of the file.
pub proof fn lemma_parts_carry_the_file(data: Seq<u8>, part_size: u64)
    requires
        part_size > 0,
        data.len() <= u64::MAX,
    ensures
        crate::ranges::joined_tiles(
            data,
            0,
            data.len() as int,
            part_size as int,
            part_count(data.len() as u64, part_size),
        ) == data,
{
    crate::ranges::lemma_joined_tiles(
        data,
        0,
        data.len() as int,
        part_size as int,
        part_count(data.len() as u64, part_size),
    );
    assert(data.subrange(0, data.len() as int) =~= data);
}

/// Claims hand out every part exactly once: claim number `p - 1` gets part
/// `p`, for each part `p` whose number fits the counter, and no other claim
/// gets it. A claim past the last part gets nothing.
pub proof fn lemma_each_part_claimed_once(length: u64, part_size: u64)
    requires
        part_size > 0,
    ensures
        forall|p: int|
            is_part(length, part_size, p) && p <= u32::MAX ==> (#[trigger] assignment(
                length,
                part_size,
                (p - 1) as u32,
            )) == Some(
                PartAssignment { part_number: p as u32, range: part_range(length, part_size, p) },
            ),
        forall|t: u32|
            (#[trigger] assignment(length, part_size, t)) matches Some(a) ==> a.part_number == t
                + 1 && is_part(length, part_size, a.part_number as int),
        forall|t: u32, u: u32|
            assignment(length, part_size, t) is Some && assignment(length, part_size, t)
                == assignment(length, part_size, u) ==> t == u,
        forall|t: u32|
            t >= part_count(length, part_size) ==> assignment(length, part_size, t) is None,
{
}

/// Hands out the parts of one file to the workers that upload it, each part
/// to the first worker that asks.
#[derive(Debug)]
pub struct PartAllocator {
    next: AtomicU32,
    layout: PartLayout,
}

impl PartAllocator {
    /// The layout whose parts are handed out.
    pub closed spec fn spec_layout(&self) -> PartLayout {
        self.layout
    }

    /// An allocator that has handed out no part of `layout` yet.
    pub fn new(layout: PartLayout) -> (allocator: Self)
        ensures
            allocator.spec_layout() == layout,
    {
        PartAllocator { next: AtomicU32::new(0), layout }
    }

    /// The layout whose parts are handed out.
    pub fn layout(&self) -> (layout: &PartLayout)
        ensures
            *layout == self.spec_layout(),
    {
        &self.layout
    }

    /// Claims the next part that no worker has claimed, or `None` when all
    /// parts are taken. Which part comes back depends on the claims that
    /// other workers made; whatever it is, it is a part of the file with its
    /// own bytes.
    pub fn claim(&self) -> (assigned: Option<PartAssignment>)
        ensures
            assigned matches Some(a) ==> {
                &&& self.spec_layout().is_part(a.part_number as int)
                &&& a.range == self.spec_layout().spec_part_range(a.part_number as int)
            },
    {
        let ticket: u32 = crate::fs::tickets::take_ticket(&self.next);
        self.layout.assignment(ticket)
    }
}

} // verus!
