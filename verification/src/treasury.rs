//! The fee treasury: collects harvested swap fees, converts them to the
//! protocol token, and splits the proceeds three ways.
//!
//! The split parameters `burn_bps + staker_bps + ops_bps` always sum to
//! exactly ten thousand basis points; each bucket takes its floor share
//! and the rounding remainder (at most two units) stays in the fee
//! vault, allocated to no bucket.

use vstd::prelude::*;

use crate::math::{bps_part, lemma_bps_part_bounds, lemma_bps_part_full, lemma_div_add_le,
    bps_part_u64};

verus! {

/// Why a treasury operation was refused. Every failure leaves the
/// treasury exactly as it was.
#[derive(Clone, Copy, Debug, PartialEq, Eq, Structural)]
pub enum ErrorCode {
    /// The proposed split does not sum to ten thousand basis points.
    InvalidSplit,
    /// The external conversion collaborator failed.
    SwapFailed,
    /// The fee vault cannot cover the requested movement.
    InsufficientVaultBalance,
    /// The caller is not the treasury authority.
    Unauthorized,
    /// A cumulative counter would overflow its 64-bit domain.
    MathOverflow,
}

/// The protocol treasury: split parameters and cumulative counters.
#[derive(Clone, Copy, Debug, PartialEq, Eq, Structural)]
pub struct Treasury {
    /// The only account allowed to change the split.
    pub authority: u64,
    /// Identity of the protocol token.
    pub pudl_mint: u64,
    /// Share of collected fees used for buybacks, in basis points.
    pub buyback_bps: u16,
    /// Share of converted proceeds that is burned, in basis points.
    pub burn_bps: u16,
    /// Share of converted proceeds routed to stakers, in basis points.
    pub staker_bps: u16,
    /// Share of converted proceeds routed to operations, in basis points.
    pub ops_bps: u16,
    /// Time of the last non-empty harvest.
    pub last_harvest_at: i64,
    /// Cumulative fee-token amount ever recorded.
    pub total_fees_collected: u64,
    /// Cumulative protocol-token amount ever burned.
    pub total_pudl_burned: u64,
}

/// Notification of a recorded fee; the caller moves `amount` of `mint`
/// from the pool-authorized source into the fee vault.
#[derive(Clone, Copy, Debug, PartialEq, Eq, Structural)]
pub struct FeeRecorded {
    pub pool: u64,
    pub mint: u64,
    pub amount: u64,
    pub timestamp: i64,
}

/// Notification of a non-empty harvest, carrying the converted total
/// and the three derived bucket amounts.
#[derive(Clone, Copy, Debug, PartialEq, Eq, Structural)]
pub struct Harvested {
    pub total_in: u64,
    pub pudl_out: u64,
    pub burned: u64,
    pub to_stakers: u64,
    pub to_ops: u64,
}

/// Each divisor in floor division loses strictly less than one whole
/// unit of the divisor.
proof fn lemma_div_mul_lower(p: int, d: int)
    requires
        0 <= p,
        0 < d,
    ensures
        d * (p / d) > p - d,
{
    assert(d * (p / d) > p - d) by (nonlinear_arith)
        requires
            0 <= p,
            0 < d,
    ;
}

/// Conservation of the three-way split: when the shares sum to ten
/// thousand basis points, the floor buckets never exceed the total, and
/// the rounding remainder is less than three units.
pub proof fn lemma_split_conserves(total: int, burn: int, staker: int, ops: int)
    requires
        0 <= total,
        0 <= burn,
        0 <= staker,
        0 <= ops,
        burn + staker + ops == 10000,
    ensures
        bps_part(total, burn) + bps_part(total, staker) + bps_part(total, ops) <= total,
        total - 3 < bps_part(total, burn) + bps_part(total, staker) + bps_part(total, ops),
{
    assert(total * burn >= 0 && total * staker >= 0 && total * ops >= 0 && total * burn + total
        * staker + total * ops == total * 10000) by (nonlinear_arith)
        requires
            0 <= total,
            0 <= burn,
            0 <= staker,
            0 <= ops,
            burn + staker + ops == 10000,
    ;
    let tb = total * burn;
    let ts = total * staker;
    let to = total * ops;
    lemma_div_add_le(tb, ts, 10000);
    lemma_div_add_le(tb + ts, to, 10000);
    lemma_bps_part_full(total);
    lemma_div_mul_lower(tb, 10000);
    lemma_div_mul_lower(ts, 10000);
    lemma_div_mul_lower(to, 10000);
}

impl Treasury {
    /// The split always covers the whole: its three parts sum to
    /// exactly ten thousand basis points. Established at creation and
    /// preserved by every operation.
    pub open spec fn wf(self) -> bool {
        self.burn_bps + self.staker_bps + self.ops_bps == 10000
    }

    /// Creates the treasury with the default split of thirty percent
    /// burned, fifty to stakers and twenty to operations, and zeroed
    /// cumulative counters.
    pub fn initialize(authority: u64, pudl_mint: u64, now: i64) -> (r: Treasury)
        ensures
            r.wf(),
            r == (Treasury {
                authority,
                pudl_mint,
                buyback_bps: 10000,
                burn_bps: 3000,
                staker_bps: 5000,
                ops_bps: 2000,
                last_harvest_at: now,
                total_fees_collected: 0,
                total_pudl_burned: 0,
            }),
    {
        Treasury {
            authority,
            pudl_mint,
            buyback_bps: 10000,
            burn_bps: 3000,
            staker_bps: 5000,
            ops_bps: 2000,
            last_harvest_at: now,
            total_fees_collected: 0,
            total_pudl_burned: 0,
        }
    }

    /// Records a fee payment into the fee vault and grows the
    /// cumulative counter. The returned event names the pool-authorized
    /// source-to-vault transfer the caller must perform.
    pub fn record_fee(&mut self, pool_authority: u64, mint: u64, amount: u64, now: i64) -> (r:
        Result<FeeRecorded, ErrorCode>)
        ensures
            r is Err ==> *final(self) == *old(self),
            r is Ok <==> old(self).total_fees_collected + amount <= u64::MAX,
            r == Err::<FeeRecorded, ErrorCode>(ErrorCode::MathOverflow) <==> old(
                self,
            ).total_fees_collected + amount > u64::MAX,
            r matches Ok(ev) ==> {
                &&& *final(self) == (Treasury {
                    total_fees_collected: (old(self).total_fees_collected + amount) as u64,
                    ..*old(self)
                })
                &&& ev == (FeeRecorded { pool: pool_authority, mint, amount, timestamp: now })
            },
    {
        let new_total = match self.total_fees_collected.checked_add(amount) {
            Some(v) => v,
            None => {
                return Err(ErrorCode::MathOverflow);
            },
        };
        self.total_fees_collected = new_total;
        Ok(FeeRecorded { pool: pool_authority, mint, amount, timestamp: now })
    }

    /// Converts the fee vault's balance to the protocol token and
    /// splits the proceeds by the current split, each bucket rounded
    /// down; the remainder stays in the vault. An empty vault makes the
    /// whole call a no-op: no state change and no event. The conversion
    /// collaborator is settled at par, as the record of proceeds
    /// equals the vault balance here.
    pub fn harvest_and_convert(&mut self, fee_vault_balance: u64, now: i64) -> (r: Result<
        Option<Harvested>,
        ErrorCode,
    >)
        requires
            old(self).wf(),
        ensures
            final(self).wf(),
            r is Err ==> *final(self) == *old(self),
            fee_vault_balance == 0 ==> r == Ok::<Option<Harvested>, ErrorCode>(None) && *final(self)
                == *old(self),
            fee_vault_balance > 0 ==> (r == Err::<Option<Harvested>, ErrorCode>(
                ErrorCode::MathOverflow,
            ) <==> old(self).total_pudl_burned + bps_part(
                fee_vault_balance as int,
                old(self).burn_bps as int,
            ) > u64::MAX),
            r is Ok <==> (fee_vault_balance == 0 || old(self).total_pudl_burned + bps_part(
                fee_vault_balance as int,
                old(self).burn_bps as int,
            ) <= u64::MAX),
            fee_vault_balance > 0 && r is Ok ==> r matches Ok(Some(_)),
            r matches Ok(Some(ev)) ==> {
                let burned = bps_part(fee_vault_balance as int, old(self).burn_bps as int);
                let to_stakers = bps_part(fee_vault_balance as int, old(self).staker_bps as int);
                let to_ops = bps_part(fee_vault_balance as int, old(self).ops_bps as int);
                &&& fee_vault_balance > 0
                &&& *final(self) == (Treasury {
                    total_pudl_burned: (old(self).total_pudl_burned + burned) as u64,
                    last_harvest_at: now,
                    ..*old(self)
                })
                &&& ev == (Harvested {
                    total_in: fee_vault_balance,
                    pudl_out: fee_vault_balance,
                    burned: burned as u64,
                    to_stakers: to_stakers as u64,
                    to_ops: to_ops as u64,
                })
                &&& ev.burned + ev.to_stakers + ev.to_ops <= ev.pudl_out
                &&& ev.pudl_out - 3 < ev.burned + ev.to_stakers + ev.to_ops
            },
    {
        if fee_vault_balance == 0 {
            return Ok(None);
        }

        let pudl_out = fee_vault_balance;

        let burned = bps_part_u64(pudl_out, self.burn_bps);
        let to_stakers = bps_part_u64(pudl_out, self.staker_bps);
        let to_ops = bps_part_u64(pudl_out, self.ops_bps);

        let new_burn_total = match self.total_pudl_burned.checked_add(burned) {
            Some(v) => v,
            None => {
                return Err(ErrorCode::MathOverflow);
            },
        };
        proof {
            lemma_split_conserves(
                pudl_out as int,
                self.burn_bps as int,
                self.staker_bps as int,
                self.ops_bps as int,
            );
        }

        self.total_pudl_burned = new_burn_total;
        self.last_harvest_at = now;

        Ok(Some(Harvested { total_in: pudl_out, pudl_out, burned, to_stakers, to_ops }))
    }

    /// Replaces the three-way split. Only the treasury authority may
    /// call, and the parts must sum to exactly ten thousand basis
    /// points; any other sum is refused and the prior split kept.
    pub fn set_split(&mut self, authority: u64, burn_bps: u16, staker_bps: u16, ops_bps: u16) -> (r:
        Result<(), ErrorCode>)
        ensures
            final(self).wf() <== old(self).wf(),
            r is Err ==> *final(self) == *old(self),
            r is Ok <==> (authority == old(self).authority && burn_bps + staker_bps + ops_bps
                == 10000),
            r == Err::<(), ErrorCode>(ErrorCode::Unauthorized) <==> authority != old(
                self,
            ).authority,
            authority == old(self).authority ==> (r == Err::<(), ErrorCode>(ErrorCode::InvalidSplit)
                <==> burn_bps + staker_bps + ops_bps != 10000),
            r is Ok ==> {
                &&& burn_bps + staker_bps + ops_bps == 10000
                &&& *final(self) == (Treasury { burn_bps, staker_bps, ops_bps, ..*old(self) })
                &&& final(self).wf()
            },
    {
        if authority != self.authority {
            return Err(ErrorCode::Unauthorized);
        }
        if burn_bps as u32 + staker_bps as u32 + ops_bps as u32 != 10000 {
            return Err(ErrorCode::InvalidSplit);
        }

        self.burn_bps = burn_bps;
        self.staker_bps = staker_bps;
        self.ops_bps = ops_bps;

        Ok(())
    }
}

} // verus!
