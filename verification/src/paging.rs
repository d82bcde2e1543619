//! Pages: offsets, the probe for a next page, and the law that pages read in turn are the whole.

use vstd::prelude::*;

verus! {

/// A page number as it is used: anything below one counts as page one.
pub open spec fn clamp_page(page: int) -> int {
    if page < 1 {
        1
    } else {
        page
    }
}

/// The index of the first row of a page.
pub open spec fn page_offset(page: int, size: int) -> int {
    (clamp_page(page) - 1) * size
}

/// The index of the first row of the page after `page`.
pub open spec fn probe_offset(page: int, size: int) -> int {
    clamp_page(page) * size
}

/// `at` brought into `0..=len`.
pub open spec fn bound(at: int, len: int) -> int {
    if at < 0 {
        0
    } else if at > len {
        len
    } else {
        at
    }
}

/// Where a window of `limit` rows from `offset` starts in a table of `len` rows.
pub open spec fn window_start(len: int, offset: int) -> int {
    bound(offset, len)
}

/// Where that window ends (exclusive).
pub open spec fn window_end(len: int, offset: int, limit: int) -> int {
    bound(window_start(len, offset) + bound(limit, len), len)
}

/// The rows that a query with `offset` and `limit` returns from `rows`.
pub open spec fn window<T>(rows: Seq<T>, offset: int, limit: int) -> Seq<T> {
    rows.subrange(
        window_start(rows.len() as int, offset),
        window_end(rows.len() as int, offset, limit),
    )
}

/// The content of page `page` when pages hold `size` rows.
pub open spec fn page_rows<T>(rows: Seq<T>, page: int, size: int) -> Seq<T> {
    window(rows, page_offset(page, size), size)
}

/// The single row, if any, that the existence probe of page `page` finds.
pub open spec fn probe_rows<T>(rows: Seq<T>, page: int, size: int) -> Seq<T> {
    window(rows, probe_offset(page, size), 1)
}

/// The number reported as the next page, given how many rows the probe found:
/// the following page if it found one, zero ("no further page") otherwise.
pub open spec fn next_page_of(page: int, found: int) -> int {
    if found > 0 {
        clamp_page(page) + 1
    } else {
        0
    }
}

/// The next page number of page `page` over the full result `rows`.
pub open spec fn next_page_number<T>(rows: Seq<T>, page: int, size: int) -> int {
    next_page_of(page, probe_rows(rows, page, size).len() as int)
}

/// Pages one to `n`, one after the other.
pub open spec fn pages_upto<T>(rows: Seq<T>, size: int, n: nat) -> Seq<T>
    decreases n,
{
    if n == 0 {
        Seq::empty()
    } else {
        pages_upto(rows, size, (n - 1) as nat) + page_rows(rows, n as int, size)
    }
}

/// Computes, for a page and a page size, the offset of the page's first row
/// and the offset at which a row proves that a further page exists.
pub fn probe(page: i32, page_size: i32) -> (offsets: (i64, i64))
    ensures
        offsets.0 == page_offset(page as int, page_size as int),
        offsets.1 == probe_offset(page as int, page_size as int),
{
    let p: i64 = if page < 1 { 1 } else { page as i64 };
    let size: i64 = page_size as i64;
    assert(-0x1_0000_0000_0000_0000 < (p - 1) * size < 0x1_0000_0000_0000_0000
        && -0x4000_0000_0000_0000 < (p - 1) * size < 0x4000_0000_0000_0000
        && -0x4000_0000_0000_0000 < p * size < 0x4000_0000_0000_0000) by (nonlinear_arith)
        requires
            1 <= p <= 0x7fff_ffff,
            -0x8000_0000 <= size <= 0x7fff_ffff,
    ;
    ((p - 1) * size, p * size)
}

/// Computes the bounds of the window that `offset` and `limit` cut out of a
/// table of `len` rows. A negative offset or limit counts as zero.
pub fn window_bounds(len: usize, offset: i64, limit: i64) -> (bounds: (usize, usize))
    ensures
        bounds.0 == window_start(len as int, offset as int),
        bounds.1 == window_end(len as int, offset as int, limit as int),
        bounds.0 <= bounds.1 <= len,
{
    let start: usize = if offset < 0 {
        0
    } else if offset as u64 > len as u64 {
        len
    } else {
        offset as usize
    };
    let room: usize = len - start;
    let take: usize = if limit < 0 {
        0
    } else if limit as u64 > room as u64 {
        room
    } else {
        limit as usize
    };
    (start, start + take)
}

/// Decides the next page number from the number of rows the probe returned.
pub fn next_page(page: i32, found: usize) -> (next: i32)
    requires
        page < i32::MAX,
    ensures
        next == next_page_of(page as int, found as int),
{
    if found > 0 {
        if page < 1 {
            2
        } else {
            page + 1
        }
    } else {
        0
    }
}

/// Pages one to `n` of `size` rows each are exactly the first `n * size` rows.
pub proof fn lemma_pages_are_prefix<T>(rows: Seq<T>, size: int, n: nat)
    requires
        size >= 1,
    ensures
        pages_upto(rows, size, n) == rows.subrange(0, bound(n * size, rows.len() as int)),
    decreases n,
{
    let len = rows.len() as int;
    if n == 0 {
        assert(pages_upto(rows, size, n) =~= rows.subrange(0, 0));
    } else {
        let m = (n - 1) as nat;
        lemma_pages_are_prefix(rows, size, m);
        assert(m * size + size == n * size) by (nonlinear_arith)
            requires
                m + 1 == n,
        ;
        assert(m * size >= 0) by (nonlinear_arith)
            requires
                m >= 0,
                size >= 1,
        ;
        assert(page_offset(n as int, size) == m * size);
        let a = bound(m * size, len);
        let b = bound(n * size, len);
        assert(window_start(len, m * size) == a);
        assert(window_end(len, m * size, size) == b);
        assert(rows.subrange(0, a) + rows.subrange(a, b) =~= rows.subrange(0, b));
    }
}

/// Pagination is complete: when page `n` reports that no further page
/// exists, pages one to `n`, read in turn, are the whole result, every row
/// once and in the result's order.
pub proof fn law_pagination_complete<T>(rows: Seq<T>, size: int, n: nat)
    requires
        size >= 1,
        n >= 1,
        next_page_number(rows, n as int, size) == 0,
    ensures
        pages_upto(rows, size, n) == rows,
{
    let len = rows.len() as int;
    lemma_pages_are_prefix(rows, size, n);
    assert(n * size >= 0) by (nonlinear_arith)
        requires
            n >= 1,
            size >= 1,
    ;
    assert(probe_offset(n as int, size) == n * size);
    if n * size < len {
        assert(window_start(len, n * size) == n * size);
        assert(window_end(len, n * size, 1) == n * size + 1);
        assert(probe_rows(rows, n as int, size).len() == 1);
    }
    assert(rows.subrange(0, len) =~= rows);
}

/// While a page reports a further page, that page is full and rows remain
/// beyond it.
pub proof fn law_next_page_means_more<T>(rows: Seq<T>, size: int, page: int)
    requires
        size >= 1,
        page >= 1,
    ensures
        next_page_number(rows, page, size) == page + 1 <==> rows.len() > page * size,
        next_page_number(rows, page, size) == 0 <==> rows.len() <= page * size,
        rows.len() > page * size ==> page_rows(rows, page, size).len() == size,
{
    let len = rows.len() as int;
    assert(page * size >= size && (page - 1) * size >= 0 && (page - 1) * size + size == page
        * size) by (nonlinear_arith)
        requires
            page >= 1,
            size >= 1,
    ;
}

/// The probe is exact at the boundary: with exactly `k * size` rows page `k`
/// reports no further page, and with one row more it reports page `k + 1`.
pub proof fn law_probe_exact<T>(rows: Seq<T>, size: int, k: int)
    requires
        size >= 1,
        k >= 1,
    ensures
        rows.len() == k * size ==> next_page_number(rows, k, size) == 0,
        rows.len() == k * size + 1 ==> next_page_number(rows, k, size) == k + 1,
{
    law_next_page_means_more(rows, size, k);
}

} // verus!
