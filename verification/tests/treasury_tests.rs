use pudl_core::treasury::{ErrorCode, Treasury};

const AUTHORITY: u64 = 21;

fn fresh_treasury() -> Treasury {
    Treasury::initialize(AUTHORITY, 8, 500)
}

#[test]
fn initialize_sets_the_default_split() {
    let t = fresh_treasury();
    assert_eq!(t.buyback_bps, 10000);
    assert_eq!(t.burn_bps, 3000);
    assert_eq!(t.staker_bps, 5000);
    assert_eq!(t.ops_bps, 2000);
    assert_eq!(t.burn_bps + t.staker_bps + t.ops_bps, 10000);
    assert_eq!(t.total_fees_collected, 0);
    assert_eq!(t.total_pudl_burned, 0);
    assert_eq!(t.last_harvest_at, 500);
}

#[test]
fn record_fee_grows_the_counter_and_reports_the_transfer() {
    let mut t = fresh_treasury();
    let ev = t.record_fee(3, 8, 1_234, 600).unwrap();
    assert_eq!(ev.pool, 3);
    assert_eq!(ev.mint, 8);
    assert_eq!(ev.amount, 1_234);
    assert_eq!(ev.timestamp, 600);
    assert_eq!(t.total_fees_collected, 1_234);
    t.record_fee(3, 8, 766, 700).unwrap();
    assert_eq!(t.total_fees_collected, 2_000);
}

#[test]
fn record_fee_fails_on_counter_overflow() {
    let mut t = fresh_treasury();
    t.total_fees_collected = u64::MAX;
    let before = t;
    assert_eq!(t.record_fee(3, 8, 1, 600), Err(ErrorCode::MathOverflow));
    assert_eq!(t, before);
}

#[test]
fn set_split_replaces_the_split_when_it_sums_to_whole() {
    let mut t = fresh_treasury();
    t.set_split(AUTHORITY, 2500, 6000, 1500).unwrap();
    assert_eq!(t.burn_bps, 2500);
    assert_eq!(t.staker_bps, 6000);
    assert_eq!(t.ops_bps, 1500);
    assert_eq!(t.burn_bps + t.staker_bps + t.ops_bps, 10000);
}

#[test]
fn set_split_rejects_any_other_sum_and_keeps_the_prior_split() {
    let mut t = fresh_treasury();
    for (burn, staker, ops) in [
        (0u16, 0u16, 0u16),
        (3000, 5000, 1999),
        (3000, 5000, 2001),
        (10000, 10000, 10000),
        (9999, 0, 0),
    ] {
        let before = t;
        assert_eq!(
            t.set_split(AUTHORITY, burn, staker, ops),
            Err(ErrorCode::InvalidSplit)
        );
        assert_eq!(t, before);
    }
    assert_eq!(t.burn_bps, 3000);
    assert_eq!(t.staker_bps, 5000);
    assert_eq!(t.ops_bps, 2000);
}

#[test]
fn set_split_rejects_a_stranger() {
    let mut t = fresh_treasury();
    let before = t;
    assert_eq!(
        t.set_split(AUTHORITY + 1, 2500, 6000, 1500),
        Err(ErrorCode::Unauthorized)
    );
    assert_eq!(t, before);
}

#[test]
fn harvest_splits_by_the_current_split() {
    let mut t = fresh_treasury();
    let ev = t.harvest_and_convert(1_000_000, 900).unwrap().unwrap();
    assert_eq!(ev.total_in, 1_000_000);
    assert_eq!(ev.pudl_out, 1_000_000);
    assert_eq!(ev.burned, 300_000);
    assert_eq!(ev.to_stakers, 500_000);
    assert_eq!(ev.to_ops, 200_000);
    assert_eq!(t.total_pudl_burned, 300_000);
    assert_eq!(t.last_harvest_at, 900);
}

#[test]
fn harvest_rounds_each_bucket_down_and_keeps_the_remainder() {
    let mut t = fresh_treasury();
    t.set_split(AUTHORITY, 3333, 3333, 3334).unwrap();
    let ev = t.harvest_and_convert(10, 900).unwrap().unwrap();
    assert_eq!(ev.burned, 3);
    assert_eq!(ev.to_stakers, 3);
    assert_eq!(ev.to_ops, 3);
    // One unit of rounding remainder stays in the vault.
    assert_eq!(ev.pudl_out - ev.burned - ev.to_stakers - ev.to_ops, 1);
}

#[test]
fn harvest_with_an_empty_vault_is_a_no_op() {
    let mut t = fresh_treasury();
    t.harvest_and_convert(5_000, 900).unwrap().unwrap();
    let after_first = t;
    // No new fees: the vault was drained, the second call changes
    // nothing and reports nothing.
    assert_eq!(t.harvest_and_convert(0, 950), Ok(None));
    assert_eq!(t, after_first);
    assert_eq!(t.last_harvest_at, 900);
}

#[test]
fn harvest_fails_on_burn_counter_overflow() {
    let mut t = fresh_treasury();
    t.total_pudl_burned = u64::MAX;
    let before = t;
    assert_eq!(t.harvest_and_convert(10, 900), Err(ErrorCode::MathOverflow));
    assert_eq!(t, before);
}
