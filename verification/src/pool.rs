//! The pool core: bin-priced pool state, the swap engine, and the
//! position lifecycle.
//!
//! A pool holds fee parameters bounded by [`crate::math::BPS_DENOMINATOR`]
//! and a paused flag; swaps and liquidity additions are refused while it
//! is paused, withdrawal stays open. Each operation returns the event the
//! protocol emits; the event names the asset movements the caller must
//! perform atomically with the state change. On any error the state is
//! left untouched.

use vstd::prelude::*;

use crate::math::{bps_part, lemma_bps_part_bounds, lemma_bps_part_full, bps_part_u64};

verus! {

/// Why a pool operation was refused. Every failure leaves the pool and
/// the position exactly as they were.
#[derive(Clone, Copy, Debug, PartialEq, Eq, Structural)]
pub enum ErrorCode {
    /// The computed output fell below the caller's minimum.
    SlippageExceeded,
    /// The pool is paused; swaps and liquidity additions are refused.
    PoolPaused,
    /// The bin range of the request is malformed.
    InvalidBinRange,
    /// The active bin cannot cover the requested output.
    InsufficientLiquidity,
    /// The position does not belong to this pool.
    InvalidPosition,
    /// A basis-point argument lies outside [0, 10000].
    InvalidBps,
    /// The caller is not the owner of the position.
    Unauthorized,
    /// A cumulative counter would overflow its 64-bit domain.
    MathOverflow,
}

/// A trading pool over one base/quote asset pair, discretized into
/// price bins of `bin_step` basis points each.
#[derive(Clone, Copy, Debug, PartialEq, Eq, Structural)]
pub struct Pool {
    /// The factory that registered this pool.
    pub factory: u64,
    /// The account that created the pool.
    pub creator: u64,
    /// Identity of the base asset.
    pub base_mint: u64,
    /// Identity of the quote asset.
    pub quote_mint: u64,
    /// Vault holding the pool's base reserves.
    pub base_vault: u64,
    /// Vault holding the pool's quote reserves.
    pub quote_vault: u64,
    /// Swap fee in basis points, taken from the gross input.
    pub base_fee_bps: u16,
    /// Price step between adjacent bins, in basis points; immutable.
    pub bin_step: u16,
    /// The bin currently trading.
    pub active_bin_id: i32,
    /// Share of the swap fee routed to the protocol, in basis points.
    pub protocol_fee_bps: u16,
    /// Cumulative gross input volume over all swaps.
    pub total_volume: u64,
    /// Cumulative fees taken over all swaps.
    pub total_fees: u64,
    /// While set, swaps and liquidity additions are refused.
    pub paused: bool,
}

/// One liquidity provider's claim against a pool. An owner and a pool
/// identify exactly one position; a zero-balance position is a valid
/// terminal state, never deleted.
#[derive(Clone, Copy, Debug, PartialEq, Eq, Structural)]
pub struct Position {
    /// The provider the position belongs to.
    pub owner: u64,
    /// The pool the position supplies.
    pub pool: u64,
    /// Lowest bin the position supplies.
    pub lower_bin_id: i32,
    /// Highest bin the position supplies.
    pub upper_bin_id: i32,
    /// Base asset currently supplied.
    pub base_amount: u64,
    /// Quote asset currently supplied.
    pub quote_amount: u64,
    /// Base fees already accounted, preventing double-claim.
    pub fee_debt_base: u64,
    /// Quote fees already accounted, preventing double-claim.
    pub fee_debt_quote: u64,
}

/// Notification of a successful liquidity addition; the caller moves
/// `base_amount` and `quote_amount` from the user into the vaults.
#[derive(Clone, Copy, Debug, PartialEq, Eq, Structural)]
pub struct LiquidityAdded {
    pub pool: u64,
    pub user: u64,
    pub bin_id: i32,
    pub base_amount: u64,
    pub quote_amount: u64,
}

/// Notification of a successful withdrawal; the caller moves
/// `base_amount` and `quote_amount` from the vaults to the user under
/// the pool's own signing identity.
#[derive(Clone, Copy, Debug, PartialEq, Eq, Structural)]
pub struct LiquidityRemoved {
    pub pool: u64,
    pub user: u64,
    pub base_amount: u64,
    pub quote_amount: u64,
}

/// Notification of an executed swap; the caller moves `in_amount` of
/// `in_mint` from the user into the pool and `out_amount` of `out_mint`
/// back, the latter under the pool's own signing identity.
#[derive(Clone, Copy, Debug, PartialEq, Eq, Structural)]
pub struct SwapExecuted {
    pub pool: u64,
    pub user: u64,
    pub in_mint: u64,
    pub in_amount: u64,
    pub out_mint: u64,
    pub out_amount: u64,
    pub fee_bps: u16,
    pub protocol_fee: u64,
}

/// The swap fee taken from a gross input.
pub open spec fn swap_fee(amount_in: int, fee_bps: int) -> int {
    bps_part(amount_in, fee_bps)
}

/// The protocol's cut, taken from the fee rather than from the input.
pub open spec fn protocol_cut(fee_amount: int, protocol_fee_bps: int) -> int {
    bps_part(fee_amount, protocol_fee_bps)
}

/// Output the active bin yields for a fee-adjusted input.
pub open spec fn swap_output(amount_after_fee: int) -> int {
    amount_after_fee * 99 / 100
}

/// Value conservation of the swap formula: for any positive input and
/// any fee within bounds, the output is strictly less than the input.
pub proof fn lemma_swap_output_lt_input(amount_in: int, fee_bps: int)
    requires
        1 <= amount_in,
        0 <= fee_bps <= 10000,
    ensures
        0 <= swap_fee(amount_in, fee_bps) <= amount_in,
        0 <= swap_output(amount_in - swap_fee(amount_in, fee_bps)) < amount_in,
{
    lemma_bps_part_bounds(amount_in, fee_bps);
    let after = amount_in - swap_fee(amount_in, fee_bps);
    assert(0 <= after * 99 / 100 < amount_in) by (nonlinear_arith)
        requires
            0 <= after <= amount_in,
            1 <= amount_in,
    ;
}

/// Draining law of proportional withdrawal: removing any valid share
/// and then removing ten thousand basis points of the remainder leaves
/// exactly zero, never a negative balance.
pub proof fn lemma_remove_then_full_drains(balance: int, bps: int)
    requires
        0 <= balance,
        0 <= bps <= 10000,
    ensures
        0 <= bps_part(balance, bps) <= balance,
        bps_part(balance - bps_part(balance, bps), 10000) == balance - bps_part(balance, bps),
        balance - bps_part(balance, bps) - bps_part(balance - bps_part(balance, bps), 10000) == 0,
{
    lemma_bps_part_bounds(balance, bps);
    lemma_bps_part_full(balance - bps_part(balance, bps));
}

impl Pool {
    /// Fee parameters stay within the basis-point domain; established
    /// at creation and preserved by every operation.
    pub open spec fn wf(self) -> bool {
        self.base_fee_bps <= 10000 && self.protocol_fee_bps <= 10000
    }

    /// Creates a pool in the active, unpaused state with zeroed
    /// cumulative counters. Fee parameters outside [0, 10000] are
    /// rejected before any state exists.
    pub fn initialize_pool(
        factory: u64,
        creator: u64,
        base_mint: u64,
        quote_mint: u64,
        base_vault: u64,
        quote_vault: u64,
        base_fee_bps: u16,
        protocol_fee_bps: u16,
        bin_step: u16,
        active_bin_id: i32,
    ) -> (r: Result<Pool, ErrorCode>)
        ensures
            (base_fee_bps > 10000 || protocol_fee_bps > 10000) <==> r == Err::<Pool, ErrorCode>(
                ErrorCode::InvalidBps,
            ),
            r is Ok <==> (base_fee_bps <= 10000 && protocol_fee_bps <= 10000),
            r matches Ok(pool) ==> {
                &&& pool.wf()
                &&& pool == (Pool {
                    factory,
                    creator,
                    base_mint,
                    quote_mint,
                    base_vault,
                    quote_vault,
                    base_fee_bps,
                    bin_step,
                    active_bin_id,
                    protocol_fee_bps,
                    total_volume: 0,
                    total_fees: 0,
                    paused: false,
                })
            },
    {
        if base_fee_bps > 10000 || protocol_fee_bps > 10000 {
            return Err(ErrorCode::InvalidBps);
        }
        Ok(
            Pool {
                factory,
                creator,
                base_mint,
                quote_mint,
                base_vault,
                quote_vault,
                base_fee_bps,
                bin_step,
                active_bin_id,
                protocol_fee_bps,
                total_volume: 0,
                total_fees: 0,
                paused: false,
            },
        )
    }

    /// Halts swaps and liquidity additions; withdrawal stays open.
    pub fn pause(&mut self)
        ensures
            *final(self) == (Pool { paused: true, ..*old(self) }),
    {
        self.paused = true;
    }

    /// Lifts a halt set by [`Pool::pause`].
    pub fn unpause(&mut self)
        ensures
            *final(self) == (Pool { paused: false, ..*old(self) }),
    {
        self.paused = false;
    }

    /// Swaps an exact input amount for as much output as the active bin
    /// yields after the fee. The fee is taken from the gross input, the
    /// protocol's cut from the fee; the output is computed from the net
    /// input and checked against the caller's minimum strictly before
    /// any asset movement. On success the cumulative counters grow and
    /// the returned event names both transfers; on any error nothing
    /// changes.
    pub fn swap_exact_in(
        &mut self,
        pool_key: u64,
        user: u64,
        amount_in: u64,
        min_out: u64,
        swap_base_for_quote: bool,
    ) -> (r: Result<SwapExecuted, ErrorCode>)
        requires
            old(self).wf(),
            amount_in > 0,
        ensures
            final(self).wf(),
            r is Err ==> *final(self) == *old(self),
            r == Err::<SwapExecuted, ErrorCode>(ErrorCode::PoolPaused) <==> old(self).paused,
            ({
                let fee = swap_fee(amount_in as int, old(self).base_fee_bps as int);
                let out = swap_output(amount_in - fee);
                r is Ok <==> {
                    &&& !old(self).paused
                    &&& out >= min_out
                    &&& old(self).total_volume + amount_in <= u64::MAX
                    &&& old(self).total_fees + fee <= u64::MAX
                }
            }),
            !old(self).paused ==> {
                let fee = swap_fee(amount_in as int, old(self).base_fee_bps as int);
                let out = swap_output(amount_in - fee);
                &&& (r == Err::<SwapExecuted, ErrorCode>(ErrorCode::SlippageExceeded) <==> out
                    < min_out)
                &&& out >= min_out ==> (r == Err::<SwapExecuted, ErrorCode>(ErrorCode::MathOverflow)
                    <==> (old(self).total_volume + amount_in > u64::MAX || old(self).total_fees
                    + fee > u64::MAX))
            },
            r matches Ok(ev) ==> {
                let fee = swap_fee(amount_in as int, old(self).base_fee_bps as int);
                let out = swap_output(amount_in - fee);
                &&& !old(self).paused
                &&& out >= min_out
                &&& *final(self) == (Pool {
                    total_volume: (old(self).total_volume + amount_in) as u64,
                    total_fees: (old(self).total_fees + fee) as u64,
                    ..*old(self)
                })
                &&& ev == (SwapExecuted {
                    pool: pool_key,
                    user,
                    in_mint: if swap_base_for_quote {
                        old(self).base_mint
                    } else {
                        old(self).quote_mint
                    },
                    in_amount: amount_in,
                    out_mint: if swap_base_for_quote {
                        old(self).quote_mint
                    } else {
                        old(self).base_mint
                    },
                    out_amount: out as u64,
                    fee_bps: old(self).base_fee_bps,
                    protocol_fee: protocol_cut(fee, old(self).protocol_fee_bps as int) as u64,
                })
                &&& ev.out_amount < amount_in
            },
    {
        if self.paused {
            return Err(ErrorCode::PoolPaused);
        }

        let fee_amount = bps_part_u64(amount_in, self.base_fee_bps);
        let protocol_fee = bps_part_u64(fee_amount, self.protocol_fee_bps);
        let amount_after_fee = amount_in - fee_amount;

        let amount_out = calculate_swap_output(amount_after_fee);
        if amount_out < min_out {
            return Err(ErrorCode::SlippageExceeded);
        }

        let new_volume = match self.total_volume.checked_add(amount_in) {
            Some(v) => v,
            None => {
                return Err(ErrorCode::MathOverflow);
            },
        };
        let new_fees = match self.total_fees.checked_add(fee_amount) {
            Some(v) => v,
            None => {
                return Err(ErrorCode::MathOverflow);
            },
        };
        proof {
            lemma_swap_output_lt_input(amount_in as int, self.base_fee_bps as int);
        }

        let in_mint = if swap_base_for_quote {
            self.base_mint
        } else {
            self.quote_mint
        };
        let out_mint = if swap_base_for_quote {
            self.quote_mint
        } else {
            self.base_mint
        };
        self.total_volume = new_volume;
        self.total_fees = new_fees;

        Ok(
            SwapExecuted {
                pool: pool_key,
                user,
                in_mint,
                in_amount: amount_in,
                out_mint,
                out_amount: amount_out,
                fee_bps: self.base_fee_bps,
                protocol_fee,
            },
        )
    }

    /// Adds the given amounts to the caller's position, creating or
    /// re-targeting it at `bin_id`. Refused while the pool is paused.
    /// The returned event names the two user-to-vault transfers the
    /// caller must perform.
    pub fn add_liquidity(
        &self,
        position: &mut Position,
        pool_key: u64,
        user: u64,
        bin_id: i32,
        base_amount: u64,
        quote_amount: u64,
    ) -> (r: Result<LiquidityAdded, ErrorCode>)
        ensures
            r is Err ==> *final(position) == *old(position),
            r == Err::<LiquidityAdded, ErrorCode>(ErrorCode::PoolPaused) <==> self.paused,
            r is Ok <==> {
                &&& !self.paused
                &&& old(position).base_amount + base_amount <= u64::MAX
                &&& old(position).quote_amount + quote_amount <= u64::MAX
            },
            !self.paused ==> (r == Err::<LiquidityAdded, ErrorCode>(ErrorCode::MathOverflow) <==> (
            old(position).base_amount + base_amount > u64::MAX || old(position).quote_amount
                + quote_amount > u64::MAX)),
            r matches Ok(ev) ==> {
                &&& *final(position) == (Position {
                    owner: user,
                    pool: pool_key,
                    lower_bin_id: bin_id,
                    upper_bin_id: bin_id,
                    base_amount: (old(position).base_amount + base_amount) as u64,
                    quote_amount: (old(position).quote_amount + quote_amount) as u64,
                    fee_debt_base: 0,
                    fee_debt_quote: 0,
                })
                &&& ev == (LiquidityAdded { pool: pool_key, user, bin_id, base_amount, quote_amount })
            },
    {
        if self.paused {
            return Err(ErrorCode::PoolPaused);
        }

        let new_base = match position.base_amount.checked_add(base_amount) {
            Some(v) => v,
            None => {
                return Err(ErrorCode::MathOverflow);
            },
        };
        let new_quote = match position.quote_amount.checked_add(quote_amount) {
            Some(v) => v,
            None => {
                return Err(ErrorCode::MathOverflow);
            },
        };

        position.owner = user;
        position.pool = pool_key;
        position.lower_bin_id = bin_id;
        position.upper_bin_id = bin_id;
        position.base_amount = new_base;
        position.quote_amount = new_quote;
        position.fee_debt_base = 0;
        position.fee_debt_quote = 0;

        Ok(LiquidityAdded { pool: pool_key, user, bin_id, base_amount, quote_amount })
    }

    /// Withdraws `bps` basis points of each asset of the position,
    /// rounded down, and decrements its balances; the remainder can
    /// never go negative. Open even while the pool is paused, so
    /// providers can always exit. Only the position's owner may call;
    /// `bps` above ten thousand is refused before anything moves. The
    /// returned event names the two vault-to-user transfers.
    pub fn remove_liquidity(
        &self,
        position: &mut Position,
        pool_key: u64,
        user: u64,
        bps: u16,
    ) -> (r: Result<LiquidityRemoved, ErrorCode>)
        ensures
            r is Err ==> *final(position) == *old(position),
            r is Ok <==> (old(position).owner == user && bps <= 10000),
            r == Err::<LiquidityRemoved, ErrorCode>(ErrorCode::Unauthorized) <==> old(
                position,
            ).owner != user,
            old(position).owner == user ==> (r == Err::<LiquidityRemoved, ErrorCode>(
                ErrorCode::InvalidBps,
            ) <==> bps > 10000),
            r matches Ok(ev) ==> {
                let base_out = bps_part(old(position).base_amount as int, bps as int);
                let quote_out = bps_part(old(position).quote_amount as int, bps as int);
                &&& 0 <= base_out <= old(position).base_amount
                &&& 0 <= quote_out <= old(position).quote_amount
                &&& *final(position) == (Position {
                    base_amount: (old(position).base_amount - base_out) as u64,
                    quote_amount: (old(position).quote_amount - quote_out) as u64,
                    ..*old(position)
                })
                &&& ev == (LiquidityRemoved {
                    pool: pool_key,
                    user,
                    base_amount: base_out as u64,
                    quote_amount: quote_out as u64,
                })
            },
    {
        if position.owner != user {
            return Err(ErrorCode::Unauthorized);
        }
        if bps > 10000 {
            return Err(ErrorCode::InvalidBps);
        }

        let base_to_remove = bps_part_u64(position.base_amount, bps);
        let quote_to_remove = bps_part_u64(position.quote_amount, bps);

        position.base_amount = position.base_amount - base_to_remove;
        position.quote_amount = position.quote_amount - quote_to_remove;

        Ok(
            LiquidityRemoved {
                pool: pool_key,
                user,
                base_amount: base_to_remove,
                quote_amount: quote_to_remove,
            },
        )
    }
}

impl Position {
    /// A fresh, empty position for an owner and a pool, the state a
    /// provider's record has before its first liquidity add.
    pub fn new(owner: u64, pool: u64) -> (r: Position)
        ensures
            r == (Position {
                owner,
                pool,
                lower_bin_id: 0,
                upper_bin_id: 0,
                base_amount: 0,
                quote_amount: 0,
                fee_debt_base: 0,
                fee_debt_quote: 0,
            }),
    {
        Position {
            owner,
            pool,
            lower_bin_id: 0,
            upper_bin_id: 0,
            base_amount: 0,
            quote_amount: 0,
            fee_debt_base: 0,
            fee_debt_quote: 0,
        }
    }
}

/// Output the active bin yields for a fee-adjusted input: a fixed
/// 99/100 quote, rounded down, computed in wide arithmetic.
pub fn calculate_swap_output(amount_in: u64) -> (r: u64)
    ensures
        r == swap_output(amount_in as int),
        r <= amount_in,
{
    proof {
        assert(0 <= amount_in * 99 / 100 <= amount_in) by (nonlinear_arith)
            requires
                0 <= amount_in,
        ;
    }
    (amount_in as u128 * 99 / 100) as u64
}

} // verus!
