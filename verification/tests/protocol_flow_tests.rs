//! One pass through the whole fee pipeline: a swap takes a fee, the fee
//! is recorded by the treasury, a harvest splits it, the staker share
//! feeds the reward index, and a staker claims.

use pudl_core::factory::Factory;
use pudl_core::pool::Pool;
use pudl_core::staking::{claim_rewards, stake_pudl, StakeAccount, Staking};
use pudl_core::treasury::Treasury;

#[test]
fn swap_fees_flow_through_treasury_to_a_staker() {
    // A factory registers the pool.
    let (mut factory, _) = Factory::initialize_factory(1, 2, 3, 4, 5_000, 5, 100);
    let (meta, created) = factory
        .create_pool(70, 71, 10, 20, 9, 30, 25, 1 << 64, 100)
        .unwrap();
    assert_eq!(meta.flags & 1, 1);
    assert_eq!(created.fee_bps, 30);

    // The pool trades with a thirty-bps fee, a tenth of it protocol cut.
    let mut pool = Pool::initialize_pool(1, 9, 10, 20, 30, 40, 30, 1000, 25, 0).unwrap();
    let swap = pool.swap_exact_in(70, 8, 100_000, 0, true).unwrap();
    assert_eq!(pool.total_fees, 300);
    assert_eq!(swap.protocol_fee, 30);
    assert_eq!(swap.out_amount, 98_703);

    // The protocol cut reaches the treasury and is harvested.
    let mut treasury = Treasury::initialize(21, 4, 100);
    treasury.record_fee(70, 4, swap.protocol_fee, 200).unwrap();
    assert_eq!(treasury.total_fees_collected, 30);
    let harvested = treasury.harvest_and_convert(30, 300).unwrap().unwrap();
    assert_eq!(harvested.burned, 9);
    assert_eq!(harvested.to_stakers, 15);
    assert_eq!(harvested.to_ops, 6);
    assert_eq!(treasury.total_pudl_burned, 9);

    // The staker share feeds the index; the lone staker claims it, one
    // unit lost to fixed-point truncation.
    let mut staking = Staking::initialize(11, 4, 6, 7, 100);
    let mut account = StakeAccount::new(8);
    stake_pudl(&mut staking, &mut account, 8, 1_000_000, 400).unwrap();
    staking.sync_rewards(11, harvested.to_stakers, 500).unwrap();
    let claim = claim_rewards(&staking, &mut account).unwrap().unwrap();
    assert_eq!(claim.amount, 14);
    assert_eq!(claim_rewards(&staking, &mut account).unwrap(), None);
}
