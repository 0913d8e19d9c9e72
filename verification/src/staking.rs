//! The staking pool and its fixed-point reward index.
//!
//! Rewards are distributed lazily through a global Q64.64 accumulator,
//! the reward per staked unit. Each stake account keeps a debt snapshot
//! `amount * reward_index_x64` from its last settlement; its pending
//! reward is the scaled difference, never negative while index growth
//! is monotone. Stake, unstake and claim all re-settle the snapshot.
//! By design of the settlement, staking more forfeits any pending
//! reward not claimed first: callers claim before topping up.

use vstd::prelude::*;

verus! {

/// One whole unit in the Q64.64 fixed-point domain.
pub const X64_SCALE: u128 = 0x1_0000_0000_0000_0000;

/// Why a staking operation was refused. Every failure leaves both the
/// pool and the stake account exactly as they were.
#[derive(Clone, Copy, Debug, PartialEq, Eq, Structural)]
pub enum ErrorCode {
    /// The unstake request exceeds the staked amount.
    InsufficientStake,
    /// There is no pending reward to claim.
    NoRewardsToClaim,
    /// The caller is not the staking authority.
    Unauthorized,
    /// A counter or a fixed-point product would overflow its domain.
    MathOverflow,
}

/// The global staking pool: total stake and the reward accumulator.
#[derive(Clone, Copy, Debug, PartialEq, Eq, Structural)]
pub struct Staking {
    /// The only account allowed to feed the reward index.
    pub authority: u64,
    /// Identity of the staked protocol token.
    pub pudl_mint: u64,
    /// Vault holding all staked tokens.
    pub staking_vault: u64,
    /// Vault the claimed rewards are paid from.
    pub rewards_vault: u64,
    /// Sum of all accounts' staked amounts.
    pub total_staked: u64,
    /// Cumulative reward per staked unit, Q64.64.
    pub reward_index_x64: u128,
    /// Time of the last index update.
    pub last_update: i64,
}

/// One staker's record: stake, settlement snapshot, and tier.
#[derive(Clone, Copy, Debug, PartialEq, Eq, Structural)]
pub struct StakeAccount {
    /// The staker the record belongs to.
    pub owner: u64,
    /// Amount currently staked.
    pub amount: u64,
    /// Snapshot of `amount * reward_index_x64` at the last settlement.
    pub reward_debt_x64: u128,
    /// Tier classification derived from `amount`.
    pub tier: u8,
    /// Time of the last mutation.
    pub last_update: i64,
}

/// Notification of a successful stake; the caller moves `amount` from
/// the user into the staking vault.
#[derive(Clone, Copy, Debug, PartialEq, Eq, Structural)]
pub struct Staked {
    pub user: u64,
    pub amount: u64,
    pub new_tier: u8,
}

/// Notification of a successful unstake; the caller moves `amount`
/// from the staking vault to the user under the pool's own signing
/// identity.
#[derive(Clone, Copy, Debug, PartialEq, Eq, Structural)]
pub struct Unstaked {
    pub user: u64,
    pub amount: u64,
}

/// Notification of a paid claim; the caller moves `amount` from the
/// rewards vault to the user under the pool's own signing identity.
#[derive(Clone, Copy, Debug, PartialEq, Eq, Structural)]
pub struct RewardsClaimed {
    pub user: u64,
    pub amount: u64,
}

/// Notification of an index update, carrying the index after the call.
#[derive(Clone, Copy, Debug, PartialEq, Eq, Structural)]
pub struct RewardsSynced {
    pub new_rewards: u64,
    pub new_index: u128,
}

/// Tier classification of a staked amount, in whole tokens of six
/// decimals: three from one hundred thousand tokens, two from ten
/// thousand, one from one thousand, else zero.
pub open spec fn tier_of(amount: int) -> int {
    let tokens = amount / 1000000;
    if tokens >= 100000 {
        3
    } else if tokens >= 10000 {
        2
    } else if tokens >= 1000 {
        1
    } else {
        0
    }
}

/// The index growth one reward payment buys: the payment scaled to
/// Q64.64 and spread over the staked total, rounded down.
pub open spec fn reward_per_token(new_rewards: int, total_staked: int) -> int {
    new_rewards * (X64_SCALE as int) / total_staked
}

/// The reward a stake account can claim: the scaled difference between
/// its share of the index and its settlement snapshot, rounded down.
pub open spec fn pending_reward(amount: int, index_x64: int, debt_x64: int) -> int {
    (amount * index_x64 - debt_x64) / (X64_SCALE as int)
}

/// A settled account stays settled while the index grows: with the
/// debt snapshot at most the account's share of the index, any run of
/// reward payments leaves the pending reward non-negative, so the
/// settlement subtraction in a claim cannot fail.
pub proof fn lemma_settlement_survives_index_growth(
    amount: int,
    debt_x64: int,
    index_before: int,
    index_after: int,
)
    requires
        0 <= amount,
        index_before <= index_after,
        debt_x64 <= amount * index_before,
    ensures
        debt_x64 <= amount * index_after,
{
    assert(amount * index_before <= amount * index_after) by (nonlinear_arith)
        requires
            0 <= amount,
            index_before <= index_after,
    ;
}

/// Tier classification of a staked amount.
pub fn calculate_tier(amount: u64) -> (r: u8)
    ensures
        r == tier_of(amount as int),
{
    let amount_tokens = amount / 1000000;
    if amount_tokens >= 100000 {
        3
    } else if amount_tokens >= 10000 {
        2
    } else if amount_tokens >= 1000 {
        1
    } else {
        0
    }
}

impl StakeAccount {
    /// A fresh, empty stake record for an owner, the state the record
    /// has before its first stake.
    pub fn new(owner: u64) -> (r: StakeAccount)
        ensures
            r == (StakeAccount { owner, amount: 0, reward_debt_x64: 0, tier: 0, last_update: 0 }),
    {
        StakeAccount { owner, amount: 0, reward_debt_x64: 0, tier: 0, last_update: 0 }
    }
}

impl Staking {
    /// Creates the staking pool with nothing staked and a zero index.
    pub fn initialize(
        authority: u64,
        pudl_mint: u64,
        staking_vault: u64,
        rewards_vault: u64,
        now: i64,
    ) -> (r: Staking)
        ensures
            r == (Staking {
                authority,
                pudl_mint,
                staking_vault,
                rewards_vault,
                total_staked: 0,
                reward_index_x64: 0,
                last_update: now,
            }),
    {
        Staking {
            authority,
            pudl_mint,
            staking_vault,
            rewards_vault,
            total_staked: 0,
            reward_index_x64: 0,
            last_update: now,
        }
    }

    /// Feeds a reward payment into the index: the payment, scaled and
    /// spread over the staked total, is added to the accumulator. With
    /// nothing staked the payment is dropped and the index unchanged, a
    /// documented edge of the design. Only the staking authority may
    /// call.
    pub fn sync_rewards(&mut self, authority: u64, new_rewards: u64, now: i64) -> (r: Result<
        RewardsSynced,
        ErrorCode,
    >)
        ensures
            r is Err ==> *final(self) == *old(self),
            r == Err::<RewardsSynced, ErrorCode>(ErrorCode::Unauthorized) <==> authority != old(
                self,
            ).authority,
            r is Ok <==> (authority == old(self).authority && (old(self).total_staked == 0 || old(
                self,
            ).reward_index_x64 + reward_per_token(
                new_rewards as int,
                old(self).total_staked as int,
            ) <= u128::MAX)),
            authority == old(self).authority ==> (r == Err::<RewardsSynced, ErrorCode>(
                ErrorCode::MathOverflow,
            ) <==> (old(self).total_staked > 0 && old(self).reward_index_x64 + reward_per_token(
                new_rewards as int,
                old(self).total_staked as int,
            ) > u128::MAX)),
            r matches Ok(ev) ==> {
                let grown = old(self).reward_index_x64 + reward_per_token(
                    new_rewards as int,
                    old(self).total_staked as int,
                );
                &&& *final(self) == (Staking {
                    reward_index_x64: if old(self).total_staked > 0 {
                        grown as u128
                    } else {
                        old(self).reward_index_x64
                    },
                    last_update: now,
                    ..*old(self)
                })
                &&& ev == (RewardsSynced { new_rewards, new_index: final(self).reward_index_x64 })
                &&& final(self).reward_index_x64 >= old(self).reward_index_x64
            },
    {
        if authority != self.authority {
            return Err(ErrorCode::Unauthorized);
        }

        if self.total_staked > 0 {
            proof {
                assert(new_rewards * (X64_SCALE as int) <= u128::MAX) by (nonlinear_arith)
                    requires
                        new_rewards <= u64::MAX,
                ;
                assert(new_rewards * (X64_SCALE as int) / (self.total_staked as int) <= new_rewards
                    * (X64_SCALE as int)) by (nonlinear_arith)
                    requires
                        new_rewards >= 0,
                        self.total_staked >= 1,
                ;
            }
            let rpt = (new_rewards as u128 * X64_SCALE) / self.total_staked as u128;
            let new_index = match self.reward_index_x64.checked_add(rpt) {
                Some(v) => v,
                None => {
                    return Err(ErrorCode::MathOverflow);
                },
            };
            self.reward_index_x64 = new_index;
        }
        self.last_update = now;

        Ok(RewardsSynced { new_rewards, new_index: self.reward_index_x64 })
    }
}

/// Stakes `amount` more for `user`, re-settling the debt snapshot to
/// the current index and recomputing the tier. Any pending reward not
/// claimed before this call is forfeited by the settlement: the
/// snapshot moves without a payout. The returned event names the user-to-vault
/// transfer.
pub fn stake_pudl(
    staking: &mut Staking,
    stake_account: &mut StakeAccount,
    user: u64,
    amount: u64,
    now: i64,
) -> (r: Result<Staked, ErrorCode>)
    ensures
        r is Err ==> *final(staking) == *old(staking) && *final(stake_account) == *old(
            stake_account,
        ),
        r is Ok <==> !{
            ||| old(stake_account).amount + amount > u64::MAX
            ||| (old(stake_account).amount + amount) * old(staking).reward_index_x64 > u128::MAX
            ||| old(staking).total_staked + amount > u64::MAX
        },
        r == Err::<Staked, ErrorCode>(ErrorCode::MathOverflow) <==> {
            ||| old(stake_account).amount + amount > u64::MAX
            ||| (old(stake_account).amount + amount) * old(staking).reward_index_x64 > u128::MAX
            ||| old(staking).total_staked + amount > u64::MAX
        },
        r matches Ok(ev) ==> {
            let new_amount = (old(stake_account).amount + amount) as u64;
            &&& *final(stake_account) == (StakeAccount {
                owner: user,
                amount: new_amount,
                reward_debt_x64: (new_amount * old(staking).reward_index_x64) as u128,
                tier: tier_of(new_amount as int) as u8,
                last_update: now,
            })
            &&& *final(staking) == (Staking {
                total_staked: (old(staking).total_staked + amount) as u64,
                ..*old(staking)
            })
            &&& ev == (Staked { user, amount, new_tier: tier_of(new_amount as int) as u8 })
        },
{
    let new_amount = match stake_account.amount.checked_add(amount) {
        Some(v) => v,
        None => {
            return Err(ErrorCode::MathOverflow);
        },
    };
    let new_debt = match (new_amount as u128).checked_mul(staking.reward_index_x64) {
        Some(v) => v,
        None => {
            return Err(ErrorCode::MathOverflow);
        },
    };
    let new_total = match staking.total_staked.checked_add(amount) {
        Some(v) => v,
        None => {
            return Err(ErrorCode::MathOverflow);
        },
    };

    stake_account.owner = user;
    stake_account.amount = new_amount;
    stake_account.reward_debt_x64 = new_debt;
    stake_account.tier = calculate_tier(new_amount);
    stake_account.last_update = now;
    staking.total_staked = new_total;

    Ok(Staked { user, amount, new_tier: stake_account.tier })
}

/// Pays out the account's pending reward, if any, and re-settles the
/// debt snapshot. A zero pending reward is a no-op with no event. The
/// returned event names the rewards-vault-to-user transfer.
pub fn claim_rewards(staking: &Staking, stake_account: &mut StakeAccount) -> (r: Result<
    Option<RewardsClaimed>,
    ErrorCode,
>)
    ensures
        r is Err ==> *final(stake_account) == *old(stake_account),
        r is Ok <==> !{
            ||| old(stake_account).amount * staking.reward_index_x64 > u128::MAX
            ||| old(stake_account).amount * staking.reward_index_x64 < old(
                stake_account,
            ).reward_debt_x64
        },
        r == Err::<Option<RewardsClaimed>, ErrorCode>(ErrorCode::MathOverflow) <==> {
            ||| old(stake_account).amount * staking.reward_index_x64 > u128::MAX
            ||| old(stake_account).amount * staking.reward_index_x64 < old(
                stake_account,
            ).reward_debt_x64
        },
        r is Ok ==> {
            let p = pending_reward(
                old(stake_account).amount as int,
                staking.reward_index_x64 as int,
                old(stake_account).reward_debt_x64 as int,
            );
            &&& (r == Ok::<Option<RewardsClaimed>, ErrorCode>(None) <==> p == 0)
            &&& p == 0 ==> *final(stake_account) == *old(stake_account)
            &&& p > 0 ==> {
                &&& *final(stake_account) == (StakeAccount {
                    reward_debt_x64: (old(stake_account).amount * staking.reward_index_x64) as u128,
                    ..*old(stake_account)
                })
                &&& r == Ok::<Option<RewardsClaimed>, ErrorCode>(
                    Some(RewardsClaimed { user: old(stake_account).owner, amount: p as u64 }),
                )
            }
        },
{
    let gross = match (stake_account.amount as u128).checked_mul(staking.reward_index_x64) {
        Some(v) => v,
        None => {
            return Err(ErrorCode::MathOverflow);
        },
    };
    let pending_x64 = match gross.checked_sub(stake_account.reward_debt_x64) {
        Some(v) => v,
        None => {
            return Err(ErrorCode::MathOverflow);
        },
    };
    proof {
        assert(pending_x64 / X64_SCALE <= u64::MAX) by (nonlinear_arith)
            requires
                pending_x64 <= u128::MAX,
        ;
    }
    let pending = (pending_x64 / X64_SCALE) as u64;

    if pending > 0 {
        stake_account.reward_debt_x64 = gross;
        Ok(Some(RewardsClaimed { user: stake_account.owner, amount: pending }))
    } else {
        Ok(None)
    }
}

/// Returns `amount` of stake to its owner, re-settling the debt
/// snapshot and recomputing the tier. More than the staked amount is
/// refused before anything moves. The returned event names the
/// vault-to-user transfer.
pub fn unstake_pudl(staking: &mut Staking, stake_account: &mut StakeAccount, amount: u64) -> (r:
    Result<Unstaked, ErrorCode>)
    ensures
        r is Err ==> *final(staking) == *old(staking) && *final(stake_account) == *old(
            stake_account,
        ),
        r == Err::<Unstaked, ErrorCode>(ErrorCode::InsufficientStake) <==> old(
            stake_account,
        ).amount < amount,
        r is Ok <==> {
            &&& old(stake_account).amount >= amount
            &&& (old(stake_account).amount - amount) * old(staking).reward_index_x64 <= u128::MAX
            &&& old(staking).total_staked >= amount
        },
        old(stake_account).amount >= amount ==> (r == Err::<Unstaked, ErrorCode>(
            ErrorCode::MathOverflow,
        ) <==> {
            ||| (old(stake_account).amount - amount) * old(staking).reward_index_x64 > u128::MAX
            ||| old(staking).total_staked < amount
        }),
        r matches Ok(ev) ==> {
            let new_amount = (old(stake_account).amount - amount) as u64;
            &&& *final(stake_account) == (StakeAccount {
                amount: new_amount,
                reward_debt_x64: (new_amount * old(staking).reward_index_x64) as u128,
                tier: tier_of(new_amount as int) as u8,
                ..*old(stake_account)
            })
            &&& *final(staking) == (Staking {
                total_staked: (old(staking).total_staked - amount) as u64,
                ..*old(staking)
            })
            &&& ev == (Unstaked { user: old(stake_account).owner, amount })
        },
{
    if stake_account.amount < amount {
        return Err(ErrorCode::InsufficientStake);
    }

    let new_amount = stake_account.amount - amount;
    let new_debt = match (new_amount as u128).checked_mul(staking.reward_index_x64) {
        Some(v) => v,
        None => {
            return Err(ErrorCode::MathOverflow);
        },
    };
    let new_total = match staking.total_staked.checked_sub(amount) {
        Some(v) => v,
        None => {
            return Err(ErrorCode::MathOverflow);
        },
    };

    stake_account.amount = new_amount;
    stake_account.tier = calculate_tier(new_amount);
    stake_account.reward_debt_x64 = new_debt;
    staking.total_staked = new_total;

    Ok(Unstaked { user: stake_account.owner, amount })
}

/// One action in a lone staker's reward history: the authority feeds a
/// reward payment, or the staker claims.
#[derive(Clone, Copy, Debug, PartialEq, Eq, Structural)]
pub enum StakerAction {
    Sync(u64),
    Claim,
}

/// The mathematical reward state of a lone staker: the accumulator and
/// settlement snapshot, with running totals of rewards fed and paid.
pub ghost struct RewardTrace {
    pub index_x64: int,
    pub debt_x64: int,
    pub synced: int,
    pub claimed: int,
}

/// One step of the lone-staker model. A sync grows the index by
/// [`reward_per_token`], exactly as [`Staking::sync_rewards`] does with
/// the staker's amount as the whole staked total; a claim pays
/// [`pending_reward`] and re-settles the snapshot, exactly as
/// [`claim_rewards`] does.
pub open spec fn trace_step(stake: int, st: RewardTrace, action: StakerAction) -> RewardTrace {
    match action {
        StakerAction::Sync(rewards) => RewardTrace {
            index_x64: st.index_x64 + reward_per_token(rewards as int, stake),
            synced: st.synced + rewards,
            ..st
        },
        StakerAction::Claim => {
            let p = pending_reward(stake, st.index_x64, st.debt_x64);
            RewardTrace {
                claimed: st.claimed + p,
                debt_x64: if p > 0 {
                    stake * st.index_x64
                } else {
                    st.debt_x64
                },
                ..st
            }
        },
    }
}

/// The lone-staker model run over a whole history.
pub open spec fn trace_run(stake: int, st: RewardTrace, actions: Seq<StakerAction>) -> RewardTrace
    decreases actions.len(),
{
    if actions.len() == 0 {
        st
    } else {
        trace_run(stake, trace_step(stake, st, actions[0]), actions.drop_first())
    }
}

/// How many reward payments a history holds.
pub open spec fn count_syncs(actions: Seq<StakerAction>) -> int
    decreases actions.len(),
{
    if actions.len() == 0 {
        0
    } else {
        (if actions[0] is Sync {
            1int
        } else {
            0int
        }) + count_syncs(actions.drop_first())
    }
}

/// How many claims a history holds.
pub open spec fn count_claims(actions: Seq<StakerAction>) -> int
    decreases actions.len(),
{
    if actions.len() == 0 {
        0
    } else {
        (if actions[0] is Claim {
            1int
        } else {
            0int
        }) + count_claims(actions.drop_first())
    }
}

/// The conserved quantity of the reward model. The scaled still-unpaid
/// reward `stake * index - debt` stays non-negative; everything paid
/// plus everything still pending never exceeds everything fed in; and
/// the shortfall is bounded by the rounding each sync and each claim
/// may discard.
pub open spec fn trace_inv(stake: int, st: RewardTrace, syncs: int, claims: int) -> bool {
    let phi = stake * st.index_x64 - st.debt_x64;
    &&& 0 <= phi
    &&& st.claimed * (X64_SCALE as int) + phi <= st.synced * (X64_SCALE as int)
    &&& st.synced * (X64_SCALE as int) <= st.claimed * (X64_SCALE as int) + phi + syncs * (stake
        - 1) + claims * ((X64_SCALE as int) - 1)
}

proof fn lemma_trace_step_preserves_inv(
    stake: int,
    st: RewardTrace,
    action: StakerAction,
    syncs: int,
    claims: int,
)
    requires
        1 <= stake <= u64::MAX,
        0 <= syncs,
        0 <= claims,
        trace_inv(stake, st, syncs, claims),
    ensures
        trace_inv(
            stake,
            trace_step(stake, st, action),
            syncs + (if action is Sync {
                1int
            } else {
                0int
            }),
            claims + (if action is Claim {
                1int
            } else {
                0int
            }),
        ),
{
    let x64 = X64_SCALE as int;
    let phi = stake * st.index_x64 - st.debt_x64;
    match action {
        StakerAction::Sync(rewards) => {
            let a = rewards * x64;
            let q = a / stake;
            assert(0 <= a && stake * q <= a && a - stake < stake * q) by (nonlinear_arith)
                requires
                    0 <= rewards,
                    1 <= stake,
                    a == rewards * x64,
                    q == a / stake,
                    x64 == X64_SCALE as int,
            ;
            let st2 = trace_step(stake, st, action);
            assert(stake * st2.index_x64 == stake * st.index_x64 + stake * q) by (nonlinear_arith)
                requires
                    st2.index_x64 == st.index_x64 + q,
            ;
            assert((syncs + 1) * (stake - 1) == syncs * (stake - 1) + (stake - 1))
                by (nonlinear_arith);
        },
        StakerAction::Claim => {
            let p = phi / x64;
            assert(0 <= p * x64 <= phi && phi - x64 < p * x64) by (nonlinear_arith)
                requires
                    0 <= phi,
                    p == phi / x64,
                    x64 == X64_SCALE as int,
            ;
            assert((claims + 1) * (x64 - 1) == claims * (x64 - 1) + (x64 - 1)) by (nonlinear_arith);
        },
    }
}

proof fn lemma_trace_run_preserves_inv(
    stake: int,
    st: RewardTrace,
    actions: Seq<StakerAction>,
    syncs: int,
    claims: int,
)
    requires
        1 <= stake <= u64::MAX,
        0 <= syncs,
        0 <= claims,
        trace_inv(stake, st, syncs, claims),
    ensures
        trace_inv(
            stake,
            trace_run(stake, st, actions),
            syncs + count_syncs(actions),
            claims + count_claims(actions),
        ),
    decreases actions.len(),
{
    if actions.len() > 0 {
        lemma_trace_step_preserves_inv(stake, st, actions[0], syncs, claims);
        lemma_trace_run_preserves_inv(
            stake,
            trace_step(stake, st, actions[0]),
            actions.drop_first(),
            syncs + (if actions[0] is Sync {
                1int
            } else {
                0int
            }),
            claims + (if actions[0] is Claim {
                1int
            } else {
                0int
            }),
        );
    }
}

proof fn lemma_counts_nonneg(actions: Seq<StakerAction>)
    ensures
        0 <= count_syncs(actions),
        0 <= count_claims(actions),
    decreases actions.len(),
{
    if actions.len() > 0 {
        lemma_counts_nonneg(actions.drop_first());
    }
}

/// Reward conservation for a lone staker. Starting settled at any index
/// and running any history of reward payments and claims, the claims
/// paid out never exceed the rewards fed in, and they fall short of the
/// rewards by no more than what is still pending plus one token unit of
/// rounding for each payment and each claim in the history.
pub proof fn lemma_single_staker_reward_conservation(
    stake: int,
    index0: int,
    actions: Seq<StakerAction>,
)
    requires
        1 <= stake <= u64::MAX,
        0 <= index0,
    ensures
        ({
            let start = RewardTrace {
                index_x64: index0,
                debt_x64: stake * index0,
                synced: 0,
                claimed: 0,
            };
            let end = trace_run(stake, start, actions);
            let still_pending = pending_reward(stake, end.index_x64, end.debt_x64);
            &&& end.claimed <= end.synced
            &&& end.synced <= end.claimed + still_pending + count_syncs(actions) + count_claims(
                actions,
            )
        }),
{
    let x64 = X64_SCALE as int;
    let start = RewardTrace { index_x64: index0, debt_x64: stake * index0, synced: 0, claimed: 0 };
    let end = trace_run(stake, start, actions);
    let syncs = count_syncs(actions);
    let claims = count_claims(actions);
    lemma_counts_nonneg(actions);
    lemma_trace_run_preserves_inv(stake, start, actions, 0, 0);

    let phi = stake * end.index_x64 - end.debt_x64;
    let p = phi / x64;
    assert(0 <= p * x64 <= phi && phi - x64 < p * x64) by (nonlinear_arith)
        requires
            0 <= phi,
            p == phi / x64,
            x64 == X64_SCALE as int,
    ;
    assert(syncs * (stake - 1) <= syncs * (x64 - 1)) by (nonlinear_arith)
        requires
            0 <= syncs,
            stake <= u64::MAX,
            x64 == X64_SCALE as int,
    ;
}

} // verus!
