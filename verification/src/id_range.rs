//! The transaction identifiers that the workers use towards the upstream
//! resolver.
//!
//! Every worker has a half-open range of identifiers for itself and walks
//! through it in a circle. The ranges of two workers have no identifier in
//! common, so two workers never write the same key of the shared table.

use std::ops::Range;
use vstd::prelude::*;
use vstd::arithmetic::div_mod::{
    lemma_fundamental_div_mod,
    lemma_fundamental_div_mod_converse,
    lemma_mod_bound,
    lemma_mod_equivalence,
    lemma_small_mod,
};

verus! {

/// Whether `id` is one of the identifiers of `range`.
pub open spec fn in_range(range: Range<u16>, id: int) -> bool {
    range.start <= id < range.end
}

/// The identifier that a worker with the range `range` allocates after
/// `cursor`: the next one, or the start of the range where the next one
/// would leave the range.
pub open spec fn successor(range: Range<u16>, cursor: u16) -> u16 {
    if cursor + 1 >= range.end {
        range.start
    } else {
        (cursor + 1) as u16
    }
}

/// Whether `cursor` is where the cursor of a worker with the range `range`
/// can be: at the start of the range, where it begins, or inside the range.
pub open spec fn at_home(range: Range<u16>, cursor: u16) -> bool {
    cursor == range.start || in_range(range, cursor as int)
}

/// The `n`-th identifier that a worker with the range `range` allocates when
/// it starts after `cursor`; for `n == 0`, `cursor` itself.
pub open spec fn nth_id(range: Range<u16>, cursor: u16, n: nat) -> u16
    decreases n,
{
    if n == 0 {
        cursor
    } else {
        successor(range, nth_id(range, cursor, (n - 1) as nat))
    }
}

/// The width of the part of the identifier space that each of `thread_count`
/// workers gets.
pub open spec fn bucket_size(thread_count: u16) -> int {
    65535int / (thread_count as int)
}

/// The identifiers of worker `i` of `thread_count`: the half-open range from
/// `i` buckets up to one below the end of its bucket.
pub open spec fn id_range_of(thread_count: u16, i: u16) -> Range<u16> {
    Range {
        start: (i * bucket_size(thread_count)) as u16,
        end: ((i + 1) * bucket_size(thread_count) - 1) as u16,
    }
}

/// From inside a range that is not empty, the next identifier is inside the
/// range again.
pub proof fn lemma_successor_in_range(range: Range<u16>, cursor: u16)
    requires
        in_range(range, cursor as int),
    ensures
        in_range(range, successor(range, cursor) as int),
{
}

/// A cursor that is at the start of its range or inside it stays there with
/// every allocation.
pub proof fn lemma_successor_stays_home(range: Range<u16>, cursor: u16)
    requires
        at_home(range, cursor),
    ensures
        at_home(range, successor(range, cursor)),
{
}

/// Counting up by one moves a remainder up by one, and from the last
/// remainder back to zero.
proof fn lemma_mod_step(m: int, len: int)
    requires
        0 <= m,
        0 < len,
    ensures
        (m + 1) % len == (if m % len == len - 1 {
            0
        } else {
            m % len + 1
        }),
{
    let q = m / len;
    let r = m % len;
    lemma_fundamental_div_mod(m, len);
    lemma_mod_bound(m, len);
    if r == len - 1 {
        assert(m + 1 == (q + 1) * len + 0) by (nonlinear_arith)
            requires
                m == len * q + r,
                r == len - 1,
        ;
        lemma_fundamental_div_mod_converse(m + 1, len, q + 1, 0);
    } else {
        assert(m + 1 == q * len + (r + 1)) by (nonlinear_arith)
            requires
                m == len * q + r,
        ;
        lemma_fundamental_div_mod_converse(m + 1, len, q, r + 1);
    }
}

/// A worker walks through its range in a circle: the `n`-th identifier after
/// `cursor` lies `n` places behind `cursor`, counted round the range.
pub proof fn lemma_ids_cycle(range: Range<u16>, cursor: u16, n: nat)
    requires
        in_range(range, cursor as int),
    ensures
        nth_id(range, cursor, n) == range.start + (cursor - range.start + n) % (range.end
            - range.start),
        in_range(range, nth_id(range, cursor, n) as int),
    decreases n,
{
    let len = range.end - range.start;
    let offset = cursor - range.start;
    if n == 0 {
        lemma_small_mod(offset as nat, len as nat);
    } else {
        lemma_ids_cycle(range, cursor, (n - 1) as nat);
        lemma_mod_step(offset + n - 1, len);
        lemma_mod_bound(offset + n - 1, len);
    }
}

/// As many allocations in a row as the range has identifiers give as many
/// different identifiers: an identifier comes again only after all others of
/// the range were used.
pub proof fn lemma_ids_distinct_in_cycle(range: Range<u16>, cursor: u16, i: nat, j: nat)
    requires
        in_range(range, cursor as int),
        i < j < i + (range.end - range.start),
    ensures
        nth_id(range, cursor, i) != nth_id(range, cursor, j),
{
    let len = range.end - range.start;
    let offset = cursor - range.start;
    lemma_ids_cycle(range, cursor, i);
    lemma_ids_cycle(range, cursor, j);
    lemma_mod_equivalence(offset + j, offset + i, len);
    lemma_small_mod((j - i) as nat, len as nat);
}

/// After as many allocations as the range has identifiers the worker is
/// where it started.
pub proof fn lemma_ids_come_round(range: Range<u16>, cursor: u16)
    requires
        in_range(range, cursor as int),
    ensures
        nth_id(range, cursor, (range.end - range.start) as nat) == cursor,
{
    let len = range.end - range.start;
    let offset = cursor - range.start;
    lemma_ids_cycle(range, cursor, len as nat);
    lemma_mod_equivalence(offset + len, offset, len);
    assert((offset + len - offset) % len == 0) by {
        lemma_fundamental_div_mod_converse(len, len, 1, 0);
    }
    lemma_small_mod(offset as nat, len as nat);
}

/// The buckets of the workers lie side by side below the top of the
/// identifier space.
pub proof fn lemma_bucket_bounds(thread_count: u16, i: u16)
    requires
        thread_count >= 1,
        i < thread_count,
    ensures
        1 <= bucket_size(thread_count) <= 65535,
        0 <= i * bucket_size(thread_count),
        (i + 1) * bucket_size(thread_count) <= thread_count * bucket_size(thread_count) <= 65535,
        id_range_of(thread_count, i).start == i * bucket_size(thread_count),
        id_range_of(thread_count, i).end == (i + 1) * bucket_size(thread_count) - 1,
        id_range_of(thread_count, i).start <= id_range_of(thread_count, i).end,
{
    let n = thread_count as int;
    let w = bucket_size(thread_count);
    assert(1 <= w <= 65535 && n * w <= 65535) by (nonlinear_arith)
        requires
            1 <= n <= 65535,
            w == 65535int / n,
    ;
    assert(0 <= i * w < (i + 1) * w <= n * w) by (nonlinear_arith)
        requires
            0 <= i < n,
            1 <= w,
    ;
}

/// The range of a worker ends below the start of the range of every later
/// worker.
pub proof fn lemma_ranges_in_order(thread_count: u16, i: u16, j: u16)
    requires
        thread_count >= 1,
        i < j < thread_count,
    ensures
        id_range_of(thread_count, i).end < id_range_of(thread_count, j).start,
{
    let w = bucket_size(thread_count);
    lemma_bucket_bounds(thread_count, i);
    lemma_bucket_bounds(thread_count, j);
    assert((i + 1) * w <= j * w) by (nonlinear_arith)
        requires
            i + 1 <= j,
            1 <= w,
    ;
}

/// The ranges of two different workers have no identifier in common.
pub proof fn lemma_ranges_disjoint(thread_count: u16, i: u16, j: u16, id: int)
    requires
        thread_count >= 1,
        i < thread_count,
        j < thread_count,
        i != j,
    ensures
        !(in_range(id_range_of(thread_count, i), id) && in_range(id_range_of(thread_count, j), id)),
{
    if i < j {
        lemma_ranges_in_order(thread_count, i, j);
    } else {
        lemma_ranges_in_order(thread_count, j, i);
    }
}

/// Two different workers never allocate the same identifier, wherever in
/// their ranges they are.
pub proof fn lemma_workers_never_collide(
    thread_count: u16,
    i: u16,
    j: u16,
    cursor_i: u16,
    cursor_j: u16,
)
    requires
        thread_count >= 1,
        i < thread_count,
        j < thread_count,
        i != j,
        at_home(id_range_of(thread_count, i), cursor_i),
        at_home(id_range_of(thread_count, j), cursor_j),
    ensures
        successor(id_range_of(thread_count, i), cursor_i) != successor(
            id_range_of(thread_count, j),
            cursor_j,
        ),
{
    lemma_bucket_bounds(thread_count, i);
    lemma_bucket_bounds(thread_count, j);
    if i < j {
        lemma_ranges_in_order(thread_count, i, j);
    } else {
        lemma_ranges_in_order(thread_count, j, i);
    }
}

/// Every identifier of a worker's range lies below `thread_count` buckets.
pub proof fn lemma_ranges_below_top(thread_count: u16, i: u16, id: int)
    requires
        thread_count >= 1,
        i < thread_count,
        in_range(id_range_of(thread_count, i), id),
    ensures
        0 <= id < thread_count * bucket_size(thread_count),
{
    lemma_bucket_bounds(thread_count, i);
}

/// The ranges cover everything below `thread_count` buckets but the last
/// identifier of each bucket: such an identifier is the end of its worker's
/// range, which a half-open range leaves out.
pub proof fn lemma_ranges_cover(thread_count: u16, id: int)
    requires
        thread_count >= 1,
        0 <= id < thread_count * bucket_size(thread_count),
    ensures
        ({
            let i = (id / bucket_size(thread_count)) as u16;
            &&& i < thread_count
            &&& in_range(id_range_of(thread_count, i), id) || id == id_range_of(
                thread_count,
                i,
            ).end
        }),
{
    let n = thread_count as int;
    let w = bucket_size(thread_count);
    lemma_bucket_bounds(thread_count, 0);
    let q = id / w;
    lemma_fundamental_div_mod(id, w);
    lemma_mod_bound(id, w);
    assert(0 <= q < n) by (nonlinear_arith)
        requires
            id == w * q + id % w,
            0 <= id % w < w,
            0 <= id < n * w,
            1 <= w,
    ;
    lemma_bucket_bounds(thread_count, q as u16);
    assert(q * w <= id < (q + 1) * w) by (nonlinear_arith)
        requires
            id == w * q + id % w,
            0 <= id % w < w,
    ;
}

} // verus!
