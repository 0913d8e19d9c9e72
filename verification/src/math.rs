//! Basis-point arithmetic shared by the pool, treasury and swap logic.
//!
//! All proportional amounts in the protocol are computed as
//! `floor(amount * bps / 10000)` in wide intermediate arithmetic, a
//! conservative-rounding policy: the protocol never pays out more than
//! the exact proportion.

use vstd::prelude::*;

verus! {

/// One whole, expressed in basis points.
pub const BPS_DENOMINATOR: u64 = 10000;

/// The proportional part of `amount` given by `bps` basis points,
/// rounded toward zero.
pub open spec fn bps_part(amount: int, bps: int) -> int {
    amount * bps / 10000
}

/// A basis-point share of a non-negative amount never exceeds the amount
/// and is never negative.
pub proof fn lemma_bps_part_bounds(amount: int, bps: int)
    requires
        0 <= amount,
        0 <= bps <= 10000,
    ensures
        0 <= bps_part(amount, bps) <= amount,
{
    assert(0 <= amount * bps / 10000 <= amount) by (nonlinear_arith)
        requires
            0 <= amount,
            0 <= bps <= 10000,
    ;
}

/// Ten thousand basis points of an amount is exactly the amount.
pub proof fn lemma_bps_part_full(amount: int)
    requires
        0 <= amount,
    ensures
        bps_part(amount, 10000) == amount,
{
    assert(amount * 10000 / 10000 == amount) by (nonlinear_arith)
        requires
            0 <= amount,
    ;
}

/// Floor division distributes sub-additively over a sum of numerators:
/// splitting before dividing loses at most the rounding of each part.
pub proof fn lemma_div_add_le(p: int, q: int, d: int)
    requires
        0 <= p,
        0 <= q,
        0 < d,
    ensures
        p / d + q / d <= (p + q) / d,
{
    assert(p / d + q / d <= (p + q) / d) by (nonlinear_arith)
        requires
            0 <= p,
            0 <= q,
            0 < d,
    ;
}

/// Computes `floor(amount * bps / 10000)` with a wide intermediate
/// product, so the multiplication cannot overflow.
pub fn bps_part_u64(amount: u64, bps: u16) -> (r: u64)
    requires
        bps <= 10000,
    ensures
        r == bps_part(amount as int, bps as int),
        r <= amount,
{
    proof {
        lemma_bps_part_bounds(amount as int, bps as int);
    }
    (amount as u128 * bps as u128 / 10000) as u64
}

} // verus!
