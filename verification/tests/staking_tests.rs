use pudl_core::staking::{
    calculate_tier, claim_rewards, stake_pudl, unstake_pudl, ErrorCode, StakeAccount, Staking,
    X64_SCALE,
};

const AUTHORITY: u64 = 11;

fn fresh_pool() -> Staking {
    Staking::initialize(AUTHORITY, 5, 6, 7, 1_000)
}

#[test]
fn tier_thresholds_in_whole_tokens() {
    // Six decimals: 1_000_000 units is one whole token.
    assert_eq!(calculate_tier(0), 0);
    assert_eq!(calculate_tier(999_999_999), 0);
    assert_eq!(calculate_tier(1_000_000_000), 1);
    assert_eq!(calculate_tier(9_999_999_999), 1);
    assert_eq!(calculate_tier(10_000_000_000), 2);
    assert_eq!(calculate_tier(99_999_999_999), 2);
    assert_eq!(calculate_tier(100_000_000_000), 3);
    assert_eq!(calculate_tier(u64::MAX), 3);
}

#[test]
fn stake_sets_tier_and_settles_debt() {
    let mut staking = fresh_pool();
    let mut account = StakeAccount::new(9);
    let ev = stake_pudl(&mut staking, &mut account, 9, 1_000_000_000, 50).unwrap();
    assert_eq!(ev.new_tier, 1);
    assert_eq!(account.amount, 1_000_000_000);
    assert_eq!(account.tier, 1);
    assert_eq!(account.reward_debt_x64, 0);
    assert_eq!(staking.total_staked, 1_000_000_000);

    // Top up to ten thousand whole tokens.
    let ev = stake_pudl(&mut staking, &mut account, 9, 9_000_000_000, 51).unwrap();
    assert_eq!(ev.new_tier, 2);
    assert_eq!(staking.total_staked, 10_000_000_000);
}

#[test]
fn sync_rewards_grows_the_index_by_the_scaled_share() {
    let mut staking = fresh_pool();
    let mut account = StakeAccount::new(9);
    stake_pudl(&mut staking, &mut account, 9, 4, 50).unwrap();
    let ev = staking.sync_rewards(AUTHORITY, 10, 60).unwrap();
    // floor(10 << 64 / 4) = 2.5 * 2^64.
    assert_eq!(ev.new_index, 10 * (X64_SCALE / 4));
    assert_eq!(staking.reward_index_x64, ev.new_index);
    assert_eq!(staking.last_update, 60);
}

#[test]
fn sync_rewards_with_nothing_staked_drops_the_payment() {
    let mut staking = fresh_pool();
    let ev = staking.sync_rewards(AUTHORITY, 10_000, 60).unwrap();
    assert_eq!(ev.new_index, 0);
    assert_eq!(staking.reward_index_x64, 0);
    assert_eq!(staking.last_update, 60);
}

#[test]
fn sync_rewards_rejects_a_stranger() {
    let mut staking = fresh_pool();
    let before = staking;
    assert_eq!(
        staking.sync_rewards(AUTHORITY + 1, 10_000, 60),
        Err(ErrorCode::Unauthorized)
    );
    assert_eq!(staking, before);
}

#[test]
fn sync_rewards_fails_when_the_index_would_overflow() {
    let mut staking = fresh_pool();
    let mut account = StakeAccount::new(9);
    stake_pudl(&mut staking, &mut account, 9, 1, 50).unwrap();
    staking.reward_index_x64 = u128::MAX;
    let before = staking;
    assert_eq!(
        staking.sync_rewards(AUTHORITY, 1, 60),
        Err(ErrorCode::MathOverflow)
    );
    assert_eq!(staking, before);
}

#[test]
fn lone_staker_claims_exactly_what_was_synced() {
    let mut staking = fresh_pool();
    let mut account = StakeAccount::new(9);
    stake_pudl(&mut staking, &mut account, 9, 1_000_000, 50).unwrap();

    let mut synced: u64 = 0;
    let mut claimed: u64 = 0;
    let mut claims: u64 = 0;
    for rewards in [1_000u64, 77, 0, 123_456, 1] {
        staking.sync_rewards(AUTHORITY, rewards, 60).unwrap();
        synced += rewards;
        if let Some(ev) = claim_rewards(&staking, &mut account).unwrap() {
            claimed += ev.amount;
            claims += 1;
        }
    }
    assert!(claimed <= synced);
    assert!(synced - claimed <= claims + 5);
}

#[test]
fn claim_with_nothing_pending_is_a_no_op() {
    let mut staking = fresh_pool();
    let mut account = StakeAccount::new(9);
    stake_pudl(&mut staking, &mut account, 9, 1_000_000, 50).unwrap();
    let before = account;
    assert_eq!(claim_rewards(&staking, &mut account).unwrap(), None);
    assert_eq!(account, before);
}

#[test]
fn claim_pays_the_scaled_difference_and_resettles() {
    let mut staking = fresh_pool();
    let mut account = StakeAccount::new(9);
    stake_pudl(&mut staking, &mut account, 9, 4, 50).unwrap();
    staking.sync_rewards(AUTHORITY, 10, 60).unwrap();
    let ev = claim_rewards(&staking, &mut account).unwrap().unwrap();
    // 4 * floor(10 * 2^64 / 4) >> 64 = 10.
    assert_eq!(ev.amount, 10);
    assert_eq!(ev.user, 9);
    assert_eq!(account.reward_debt_x64, 4 * staking.reward_index_x64);
    // Nothing further pending.
    assert_eq!(claim_rewards(&staking, &mut account).unwrap(), None);
}

#[test]
fn claim_fails_when_the_snapshot_exceeds_the_share() {
    let staking = fresh_pool();
    let mut account = StakeAccount::new(9);
    account.amount = 1;
    account.reward_debt_x64 = X64_SCALE;
    let before = account;
    assert_eq!(
        claim_rewards(&staking, &mut account),
        Err(ErrorCode::MathOverflow)
    );
    assert_eq!(account, before);
}

#[test]
fn unstake_returns_stake_and_recomputes_tier() {
    let mut staking = fresh_pool();
    let mut account = StakeAccount::new(9);
    stake_pudl(&mut staking, &mut account, 9, 10_000_000_000, 50).unwrap();
    assert_eq!(account.tier, 2);
    let ev = unstake_pudl(&mut staking, &mut account, 9_500_000_000).unwrap();
    assert_eq!(ev.amount, 9_500_000_000);
    assert_eq!(ev.user, 9);
    assert_eq!(account.amount, 500_000_000);
    assert_eq!(account.tier, 0);
    assert_eq!(staking.total_staked, 500_000_000);
}

#[test]
fn unstake_more_than_staked_is_refused() {
    let mut staking = fresh_pool();
    let mut account = StakeAccount::new(9);
    stake_pudl(&mut staking, &mut account, 9, 1_000, 50).unwrap();
    let before_account = account;
    let before_staking = staking;
    assert_eq!(
        unstake_pudl(&mut staking, &mut account, 1_001),
        Err(ErrorCode::InsufficientStake)
    );
    assert_eq!(account, before_account);
    assert_eq!(staking, before_staking);
}

#[test]
fn staking_more_forfeits_the_unclaimed_pending_reward() {
    let mut staking = fresh_pool();
    let mut account = StakeAccount::new(9);
    stake_pudl(&mut staking, &mut account, 9, 1_000_000, 50).unwrap();
    staking.sync_rewards(AUTHORITY, 500, 60).unwrap();
    // The settlement on top-up resets the snapshot without paying out.
    stake_pudl(&mut staking, &mut account, 9, 1, 70).unwrap();
    assert_eq!(claim_rewards(&staking, &mut account).unwrap(), None);
}

#[test]
fn stake_fails_on_amount_overflow() {
    let mut staking = fresh_pool();
    let mut account = StakeAccount::new(9);
    stake_pudl(&mut staking, &mut account, 9, u64::MAX, 50).unwrap();
    let before_account = account;
    let before_staking = staking;
    assert_eq!(
        stake_pudl(&mut staking, &mut account, 9, 1, 51),
        Err(ErrorCode::MathOverflow)
    );
    assert_eq!(account, before_account);
    assert_eq!(staking, before_staking);
}
