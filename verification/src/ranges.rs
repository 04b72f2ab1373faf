//! Half-open byte ranges and the arithmetic of cutting an interval into
//! consecutive tiles of a fixed step.
//!
//! Both the parts of a large file and the chunks of a streamed body are tiles:
//! tile `i` of the interval `[origin, limit)` with step `step` is
//! `[origin + i * step, min(origin + (i + 1) * step, limit))`.

use vstd::prelude::*;

verus! {

/// A half-open range of byte offsets, `[start, end)`.
#[derive(Clone, Copy, Debug, PartialEq, Eq, Structural)]
pub struct ByteRange {
    pub start: u64,
    pub end: u64,
}

impl ByteRange {
    /// The range does not run backwards.
    pub open spec fn wf(&self) -> bool {
        self.start <= self.end
    }

    /// Number of bytes in the range.
    pub open spec fn spec_len(&self) -> nat {
        (self.end - self.start) as nat
    }

    /// Offset `x` lies inside the range.
    pub open spec fn contains(&self, x: int) -> bool {
        self.start <= x < self.end
    }

    /// Number of bytes in the range.
    pub fn len(&self) -> (n: u64)
        requires
            self.wf(),
        ensures
            n == self.spec_len(),
    {
        self.end - self.start
    }

    /// Whether the range holds no byte.
    pub fn is_empty(&self) -> (b: bool)
        ensures
            b == (self.start >= self.end),
    {
        self.start >= self.end
    }
}

/// The smallest number of tiles of `step` bytes that cover `len` bytes:
/// `ceil(len / step)`.
pub open spec fn tile_count(len: nat, step: nat) -> nat
    recommends
        step > 0,
{
    if len == 0 {
        0
    } else {
        ((len - 1) / (step as int) + 1) as nat
    }
}

/// First offset of tile `i`.
pub open spec fn tile_start(origin: int, step: int, i: int) -> int {
    origin + i * step
}

/// One past the last offset of tile `i`: a full step, cut off at `limit`.
pub open spec fn tile_end(origin: int, limit: int, step: int, i: int) -> int {
    if origin + (i + 1) * step <= limit {
        origin + (i + 1) * step
    } else {
        limit
    }
}

/// `tile_count` is the ceiling of the quotient: `(n - 1) * step < len <= n * step`
/// holds of `n = tile_count(len, step)`.
pub proof fn lemma_tile_count_is_ceiling(len: nat, step: nat)
    requires
        step > 0,
    ensures
        tile_count(len, step) * step >= len,
        len > 0 ==> (tile_count(len, step) - 1) * step < len,
        len == 0 ==> tile_count(len, step) == 0,
{
    let c = tile_count(len, step);
    if len > 0 {
        let q = (len - 1) / (step as int);
        assert(q * step <= len - 1 < q * step + step) by (nonlinear_arith)
            requires
                q == (len - 1) / (step as int),
                step > 0,
                len > 0,
        ;
        assert(c * step == q * step + step) by (nonlinear_arith)
            requires
                c == q + 1,
        ;
        assert((c - 1) * step == q * step) by (nonlinear_arith)
            requires
                c == q + 1,
        ;
    }
}

/// No other number satisfies the ceiling's inequalities: a positive length has
/// exactly one `n` with `(n - 1) * step < len <= n * step`.
pub proof fn lemma_tile_count_is_unique(len: nat, step: nat, n: nat)
    requires
        step > 0,
        len > 0,
        n * step >= len,
        (n - 1) * step < len,
    ensures
        n == tile_count(len, step),
{
    lemma_tile_count_is_ceiling(len, step);
    lemma_ceiling_is_unique(len as int, step as int, n as int, tile_count(len, step) as int);
}

/// Two numbers that both satisfy the ceiling's inequalities are equal.
proof fn lemma_ceiling_is_unique(len: int, step: int, a: int, b: int)
    by (nonlinear_arith)
    requires
        step > 0,
        a * step >= len,
        (a - 1) * step < len,
        b * step >= len,
        (b - 1) * step < len,
    ensures
        a == b,
{
}

/// Tile `i` starts below `limit` exactly when `i` is below the tile count.
pub proof fn lemma_tile_start_in_bounds(origin: int, limit: int, step: int, i: int)
    requires
        origin <= limit,
        step > 0,
        0 <= i,
    ensures
        i < tile_count((limit - origin) as nat, step as nat) <==> tile_start(origin, step, i)
            < limit,
{
    let len = (limit - origin) as nat;
    let c = tile_count(len, step as nat);
    lemma_tile_count_is_ceiling(len, step as nat);
    if len > 0 {
        if i < c {
            assert(i * step <= (c - 1) * step) by (nonlinear_arith)
                requires
                    i <= c - 1,
                    step > 0,
            ;
        } else {
            assert(i * step >= c * step) by (nonlinear_arith)
                requires
                    i >= c,
                    step > 0,
            ;
        }
    } else {
        assert(i * step >= 0) by (nonlinear_arith)
            requires
                i >= 0,
                step > 0,
        ;
    }
}

/// The shape of one tile: it is not empty, no longer than a step, and lies
/// inside the interval.
pub proof fn lemma_tile_shape(origin: int, limit: int, step: int, i: int)
    requires
        origin <= limit,
        step > 0,
        0 <= i < tile_count((limit - origin) as nat, step as nat),
    ensures
        origin <= tile_start(origin, step, i) < tile_end(origin, limit, step, i) <= limit,
        tile_end(origin, limit, step, i) - tile_start(origin, step, i) <= step,
        i + 1 < tile_count((limit - origin) as nat, step as nat) ==> tile_end(
            origin,
            limit,
            step,
            i,
        ) - tile_start(origin, step, i) == step,
{
    lemma_tile_start_in_bounds(origin, limit, step, i);
    lemma_tile_start_in_bounds(origin, limit, step, i + 1);
    assert((i + 1) * step == i * step + step) by (nonlinear_arith);
    assert(i * step >= 0) by (nonlinear_arith)
        requires
            i >= 0,
            step > 0,
    ;
}

/// The tiles cover the interval with no gap and no overlap: the first starts
/// at `origin`, each next one starts where the one before ended, and the last
/// ends at `limit`.
pub proof fn lemma_tiles_are_consecutive(origin: int, limit: int, step: int)
    requires
        origin <= limit,
        step > 0,
    ensures
        tile_start(origin, step, 0) == origin,
        forall|i: int|
            0 <= i && i + 1 < tile_count((limit - origin) as nat, step as nat) ==> #[trigger] tile_end(
                origin,
                limit,
                step,
                i,
            ) == tile_start(origin, step, i + 1),
        tile_count((limit - origin) as nat, step as nat) > 0 ==> tile_end(
            origin,
            limit,
            step,
            tile_count((limit - origin) as nat, step as nat) - 1,
        ) == limit,
{
    let c = tile_count((limit - origin) as nat, step as nat);
    assert(0 * step == 0) by (nonlinear_arith);
    assert forall|i: int| 0 <= i && i + 1 < c implies #[trigger] tile_end(origin, limit, step, i)
        == tile_start(origin, step, i + 1) by {
        lemma_tile_start_in_bounds(origin, limit, step, i + 1);
    }
    if c > 0 {
        lemma_tile_start_in_bounds(origin, limit, step, c as int);
    }
}

/// Every offset of the interval lies in exactly one tile, the one with index
/// `(x - origin) / step`.
pub proof fn lemma_offset_in_one_tile(origin: int, limit: int, step: int, x: int)
    requires
        origin <= x < limit,
        step > 0,
    ensures
        0 <= (x - origin) / step < tile_count((limit - origin) as nat, step as nat),
        tile_start(origin, step, (x - origin) / step) <= x < tile_end(
            origin,
            limit,
            step,
            (x - origin) / step,
        ),
        forall|i: int|
            0 <= i < tile_count((limit - origin) as nat, step as nat) && tile_start(
                origin,
                step,
                i,
            ) <= x < #[trigger] tile_end(origin, limit, step, i) ==> i == (x - origin) / step,
{
    let d = x - origin;
    let k = d / step;
    assert(0 <= k && k * step <= d < k * step + step) by (nonlinear_arith)
        requires
            k == d / step,
            d >= 0,
            step > 0,
    ;
    assert((k + 1) * step == k * step + step) by (nonlinear_arith);
    lemma_tile_start_in_bounds(origin, limit, step, k);
    assert forall|i: int|
        0 <= i < tile_count((limit - origin) as nat, step as nat) && tile_start(origin, step, i)
            <= x < #[trigger] tile_end(origin, limit, step, i) implies i == k by {
        assert((i + 1) * step == i * step + step) by (nonlinear_arith);
        assert(i * step <= d < i * step + step);
        lemma_quotient_is_unique(d, step, i, k);
    }
}

/// A number lies in one window `[q * step, q * step + step)` only.
proof fn lemma_quotient_is_unique(d: int, step: int, a: int, b: int)
    by (nonlinear_arith)
    requires
        step > 0,
        a * step <= d < a * step + step,
        b * step <= d < b * step + step,
    ensures
        a == b,
{
}

/// The bytes of `data` under the first `n` tiles, one tile after the other.
pub open spec fn joined_tiles(data: Seq<u8>, origin: int, limit: int, step: int, n: nat) -> Seq<u8>
    decreases n,
{
    if n == 0 {
        Seq::empty()
    } else {
        joined_tiles(data, origin, limit, step, (n - 1) as nat) + data.subrange(
            tile_start(origin, step, n - 1),
            tile_end(origin, limit, step, n - 1),
        )
    }
}

/// Read tile by tile, the bytes of an interval come out as they lie in
/// `data`: the first `n` tiles give the bytes from `origin` up to the end of
/// tile `n - 1`, and all tiles together give the whole interval.
pub proof fn lemma_joined_tiles(data: Seq<u8>, origin: int, limit: int, step: int, n: nat)
    requires
        0 <= origin <= limit <= data.len(),
        step > 0,
        n <= tile_count((limit - origin) as nat, step as nat),
    ensures
        n > 0 ==> joined_tiles(data, origin, limit, step, n) == data.subrange(
            origin,
            tile_end(origin, limit, step, n - 1),
        ),
        n == tile_count((limit - origin) as nat, step as nat) ==> joined_tiles(
            data,
            origin,
            limit,
            step,
            n,
        ) == data.subrange(origin, limit),
    decreases n,
{
    let count = tile_count((limit - origin) as nat, step as nat);
    lemma_tiles_are_consecutive(origin, limit, step);
    if n == 0 {
        if count == 0 {
            assert(limit == origin);
            assert(data.subrange(origin, limit) =~= Seq::<u8>::empty());
        }
    } else {
        lemma_joined_tiles(data, origin, limit, step, (n - 1) as nat);
        lemma_tile_shape(origin, limit, step, n - 1);
        if n == 1 {
            assert(joined_tiles(data, origin, limit, step, 0) =~= Seq::<u8>::empty());
            assert(joined_tiles(data, origin, limit, step, n) =~= data.subrange(
                origin,
                tile_end(origin, limit, step, 0),
            ));
        } else {
            lemma_tile_shape(origin, limit, step, n - 2);
            assert(tile_end(origin, limit, step, n - 2) == tile_start(origin, step, n - 1));
            assert(joined_tiles(data, origin, limit, step, n) =~= data.subrange(
                origin,
                tile_end(origin, limit, step, n - 1),
            ));
        }
    }
}

/// `ceil(len / step)` for machine integers.
pub fn div_ceil(len: u64, step: u64) -> (n: u64)
    requires
        step > 0,
    ensures
        n == tile_count(len as nat, step as nat),
{
    if len == 0 {
        0
    } else {
        (len - 1) / step + 1
    }
}

} // verus!
