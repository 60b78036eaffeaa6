//! The share each role is owed, and the band its total is held to.

use crate::state::BPS_DENOMINATOR;
use vstd::prelude::*;

verus! {

/// The slack granted to each role's total, in basis points of the pool.
pub const TOLERANCE_BPS: u16 = 10;

/// The distance between two amounts.
pub open spec fn abs_diff(a: int, b: int) -> int {
    if a > b {
        a - b
    } else {
        b - a
    }
}

/// `bps` basis points of `total_amount`, rounded down.
pub open spec fn scaled(total_amount: int, bps: int) -> int {
    total_amount * bps / (BPS_DENOMINATOR as int)
}

/// The slack that a pool of `total_amount` grants to each role.
pub open spec fn tolerance_of(total_amount: int) -> int {
    scaled(total_amount, TOLERANCE_BPS as int)
}

/// Whether `actual` lies within `tolerance` of `expected`.
pub open spec fn in_band(actual: int, expected: int, tolerance: int) -> bool {
    abs_diff(actual, expected) <= tolerance
}

/// A part of a pool, of at most the whole, is no more than the pool.
pub proof fn lemma_scaled_bounds(total_amount: int, bps: int)
    requires
        0 <= total_amount,
        0 <= bps <= BPS_DENOMINATOR,
    ensures
        0 <= scaled(total_amount, bps) <= total_amount,
{
    assert(0 <= total_amount * bps <= total_amount * 10000) by (nonlinear_arith)
        requires
            0 <= total_amount,
            0 <= bps <= 10000,
    ;
}

/// Whether `actual` lies within `tolerance` of `expected`.
pub fn within_tolerance(actual: u64, expected: u64, tolerance: u64) -> (ok: bool)
    ensures
        ok == in_band(actual as int, expected as int, tolerance as int),
{
    if actual > expected {
        actual - expected <= tolerance
    } else {
        expected - actual <= tolerance
    }
}

/// `share_bps` basis points of `total_amount`, rounded down. The product is
/// taken in 128 bits, so it cannot overflow.
pub fn expected_amount(total_amount: u64, share_bps: u16) -> (expected: u64)
    requires
        share_bps <= BPS_DENOMINATOR,
    ensures
        expected == scaled(total_amount as int, share_bps as int),
{
    proof {
        lemma_scaled_bounds(total_amount as int, share_bps as int);
        assert(total_amount * share_bps <= u64::MAX * 10000) by (nonlinear_arith)
            requires
                0 <= total_amount <= u64::MAX,
                0 <= share_bps <= 10000,
        ;
    }
    let product: u128 = (total_amount as u128) * (share_bps as u128);
    (product / (BPS_DENOMINATOR as u128)) as u64
}

/// The slack that a pool of `total_amount` grants to each role.
pub fn tolerance_for(total_amount: u64) -> (tolerance: u64)
    ensures
        tolerance == tolerance_of(total_amount as int),
{
    expected_amount(total_amount, TOLERANCE_BPS)
}

} // verus!
