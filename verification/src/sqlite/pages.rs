//! Page arithmetic: how many pages a total fills, and which rows a page
//! holds.

use vstd::prelude::*;

verus! {

/// The number of pages that `total` rows fill at `page_size` rows a page: the
/// quotient rounded up.
pub open spec fn pages_needed(total: nat, page_size: nat) -> nat
    recommends
        page_size > 0,
{
    ((total + page_size - 1) / (page_size as int)) as nat
}

/// The number of rows that come before page `page_no`.
pub open spec fn rows_before(page_no: nat, page_size: nat) -> nat
    recommends
        page_no >= 1,
{
    ((page_no - 1) * page_size) as nat
}

/// The number of rows on page `page_no` of `total` rows: what a store that
/// honours limit and offset hands back.
pub open spec fn rows_on_page(total: nat, page_no: nat, page_size: nat) -> nat
    recommends
        page_no >= 1,
{
    let offset = rows_before(page_no, page_size);
    if offset >= total {
        0
    } else if total - offset < page_size {
        (total - offset) as nat
    } else {
        page_size
    }
}

/// The rounded-up quotient is the least number of pages that hold all rows.
pub proof fn lemma_pages_needed_is_ceiling(total: nat, page_size: nat)
    requires
        page_size > 0,
    ensures
        pages_needed(total, page_size) * page_size >= total,
        total > 0 ==> (pages_needed(total, page_size) - 1) * page_size < total,
        pages_needed(total, page_size) == 0 <==> total == 0,
        pages_needed(total, page_size) == if total % page_size == 0 {
            total / page_size
        } else {
            total / page_size + 1
        },
{
    let s = page_size as int;
    let t = total as int;
    let q = t / s;
    let r = t % s;
    assert(t == q * s + r && 0 <= r < s) by (nonlinear_arith)
        requires
            s > 0,
            t >= 0,
            q == t / s,
            r == t % s,
    ;
    if r == 0 {
        assert((q * s + s - 1) / s == q) by (nonlinear_arith)
            requires
                s > 0,
        ;
    } else {
        assert((q * s + r + s - 1) / s == q + 1) by (nonlinear_arith)
            requires
                s > 0,
                0 < r < s,
        ;
    }
    let p = pages_needed(total, page_size) as int;
    assert(p == if r == 0 { q } else { q + 1 });
    assert(q >= 0) by (nonlinear_arith)
        requires
            s > 0,
            t >= 0,
            q == t / s,
    ;
    assert(p * s >= t && (t > 0 ==> (p - 1) * s < t) && (p == 0 <==> t == 0)) by (nonlinear_arith)
        requires
            s > 0,
            t == q * s + r,
            0 <= r < s,
            q >= 0,
            p == if r == 0 { q } else { q + 1 },
    ;
}

/// Every page but the last is full, the last holds at least one row and no
/// page holds more than its size.
pub proof fn lemma_rows_on_page(total: nat, page_no: nat, page_size: nat)
    requires
        page_size > 0,
        1 <= page_no <= pages_needed(total, page_size),
    ensures
        rows_before(page_no, page_size) < total,
        1 <= rows_on_page(total, page_no, page_size) <= page_size,
        page_no < pages_needed(total, page_size) ==> rows_on_page(total, page_no, page_size)
            == page_size,
        page_no == pages_needed(total, page_size) ==> rows_on_page(total, page_no, page_size)
            == total - rows_before(page_no, page_size),
{
    lemma_pages_needed_is_ceiling(total, page_size);
    let s = page_size as int;
    let t = total as int;
    let n = page_no as int;
    let p = pages_needed(total, page_size) as int;
    assert((n - 1) * s <= (p - 1) * s) by (nonlinear_arith)
        requires
            s > 0,
            1 <= n <= p,
    ;
    if n < p {
        assert(n * s <= (p - 1) * s) by (nonlinear_arith)
            requires
                s > 0,
                n < p,
        ;
        assert(n * s == (n - 1) * s + s) by (nonlinear_arith);
    } else {
        assert(p * s == (p - 1) * s + s) by (nonlinear_arith);
    }
}

/// Computes the number of pages without overflow.
pub fn total_pages(total: u64, page_size: u64) -> (pages: u64)
    requires
        page_size > 0,
    ensures
        pages == pages_needed(total as nat, page_size as nat),
{
    proof {
        lemma_pages_needed_is_ceiling(total as nat, page_size as nat);
    }
    if total % page_size == 0 {
        total / page_size
    } else {
        assert(total / page_size < u64::MAX) by (nonlinear_arith)
            requires
                page_size > 0,
                total % page_size != 0,
                total <= u64::MAX,
        ;
        total / page_size + 1
    }
}

} // verus!
