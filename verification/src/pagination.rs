//! Pure pagination facts: page validation, footer page count, and the
//! enablement flags of the two navigation controls. Everything here is
//! deterministic in its arguments and performs no I/O.

use vstd::prelude::*;
use vstd::arithmetic::div_mod::{
    lemma_div_multiples_vanish_fancy, lemma_fundamental_div_mod, lemma_mod_bound,
};
use crate::errors::EngineError;

verus! {

/// A page request is out of range when a non-empty result set has no row in
/// the requested window, or when an empty result set is asked for a page
/// beyond the first.
pub open spec fn spec_page_out_of_range(page: u32, limit: u32, total: u32) -> bool {
    ||| (total > 0 && (page - 1) * (limit as int) >= total)
    ||| (total == 0 && page > 1)
}

/// Number of pages shown in the footer: an empty result set still counts as
/// one page.
pub open spec fn spec_total_pages(total: u32, limit: u32) -> int
    recommends
        limit >= 1,
{
    let t: int = if total == 0 { 1 } else { total as int };
    (t - 1) / (limit as int) + 1
}

/// The footer page count equals the total rounded up to whole pages:
/// `spec_total_pages(total, limit) == ceil(max(total, 1) / limit)`.
pub proof fn lemma_total_pages_is_ceil(total: u32, limit: u32)
    requires
        limit >= 1,
    ensures
        spec_total_pages(total, limit) == {
            let t: int = if total == 0 { 1 } else { total as int };
            (t + limit - 1) / (limit as int)
        },
{
    let t: int = if total == 0 { 1 } else { total as int };
    let b = limit as int;
    let q = (t - 1) / b;
    let r = (t - 1) % b;
    lemma_fundamental_div_mod(t - 1, b);
    lemma_mod_bound(t - 1, b);
    assert(t - 1 == b * q + r);
    assert(t + b - 1 == b * (q + 1) + r) by (nonlinear_arith)
        requires
            t - 1 == b * q + r,
    ;
    lemma_div_multiples_vanish_fancy(q + 1, r, b);
    assert((b * (q + 1) + r) / b == q + 1);
}

/// The page count never goes below one, and the last page is the only page
/// that is not full: `total <= spec_total_pages * limit` and, when `total`
/// is positive, `(spec_total_pages - 1) * limit < total`.
pub proof fn lemma_total_pages_bounds(total: u32, limit: u32)
    requires
        limit >= 1,
    ensures
        spec_total_pages(total, limit) >= 1,
        total <= spec_total_pages(total, limit) * (limit as int),
        total > 0 ==> (spec_total_pages(total, limit) - 1) * (limit as int) < total,
{
    let t: int = if total == 0 { 1 } else { total as int };
    let b = limit as int;
    let q = (t - 1) / b;
    let r = (t - 1) % b;
    lemma_fundamental_div_mod(t - 1, b);
    lemma_mod_bound(t - 1, b);
    assert(t - 1 == b * q + r);
    assert(q >= 0) by (nonlinear_arith)
        requires
            t - 1 == b * q + r,
            0 <= r < b,
            t >= 1,
    ;
    assert(t <= (q + 1) * b && t - 1 >= q * b) by (nonlinear_arith)
        requires
            t - 1 == b * q + r,
            0 <= r < b,
    ;
}

/// Footer page count, computed as `(max(total, 1) - 1) / limit + 1`.
pub fn total_pages(total: u32, limit: u32) -> (r: u32)
    requires
        limit >= 1,
    ensures
        r == spec_total_pages(total, limit),
        r >= 1,
{
    let t: u32 = if total == 0 { 1 } else { total };
    proof {
        lemma_total_pages_bounds(total, limit);
    }
    (t - 1) / limit + 1
}

/// True exactly when the requested window starts at or past the end of the
/// result set.
pub fn page_out_of_range(page: u32, limit: u32, total: u32) -> (r: bool)
    requires
        page >= 1,
    ensures
        r == spec_page_out_of_range(page, limit, total),
{
    if total == 0 {
        page > 1
    } else {
        let p: u64 = (page - 1) as u64;
        let l: u64 = limit as u64;
        proof {
            lemma_u32_product_fits(p, l);
        }
        p * l >= total as u64
    }
}

/// Validates a page request before anything is rendered; the error is
/// `PageOutOfRange` exactly on the requests `spec_page_out_of_range` names.
pub fn check_page(page: u32, limit: u32, total: u32) -> (r: Result<(), EngineError>)
    requires
        page >= 1,
    ensures
        r == if spec_page_out_of_range(page, limit, total) {
            Err::<(), EngineError>(EngineError::PageOutOfRange)
        } else {
            Ok::<(), EngineError>(())
        },
{
    if page_out_of_range(page, limit, total) {
        Err(EngineError::PageOutOfRange)
    } else {
        Ok(())
    }
}

/// The "previous" control is disabled exactly on the first page.
pub fn previous_disabled(page: u32) -> (r: bool)
    requires
        page >= 1,
    ensures
        r == (page == 1),
{
    page <= 1
}

/// The "next" control is disabled exactly when the current window already
/// reaches the end of the result set.
pub fn next_disabled(page: u32, limit: u32, total: u32) -> (r: bool)
    ensures
        r == ((page as int) * (limit as int) >= total),
{
    let p: u64 = page as u64;
    let l: u64 = limit as u64;
    proof {
        lemma_u32_product_fits(p, l);
    }
    p * l >= total as u64
}

/// The product of two values below 2^32 fits in a 64-bit word.
proof fn lemma_u32_product_fits(a: u64, b: u64)
    requires
        a < 0x1_0000_0000,
        b < 0x1_0000_0000,
    ensures
        a * b <= u64::MAX,
{
    assert(a * b < 0x1_0000_0000_0000_0000) by (nonlinear_arith)
        requires
            a < 0x1_0000_0000,
            b < 0x1_0000_0000,
    ;
}

} // verus!
