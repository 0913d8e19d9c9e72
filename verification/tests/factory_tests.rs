use pudl_core::factory::{ErrorCode, Factory};

const ADMIN: u64 = 31;

fn fresh_factory() -> Factory {
    let (factory, _) = Factory::initialize_factory(ADMIN, 32, 33, 34, 5_000, 5, 100);
    factory
}

#[test]
fn initialize_factory_reports_the_bond_terms() {
    let (factory, ev) = Factory::initialize_factory(ADMIN, 32, 33, 34, 5_000, 5, 100);
    assert_eq!(factory.admin, ADMIN);
    assert_eq!(factory.bond_amount, 5_000);
    assert_eq!(factory.min_base_fee_bps, 5);
    assert_eq!(factory.max_base_fee_bps, 100);
    assert_eq!(factory.total_pools, 0);
    assert!(!factory.fee_scheduler_enabled);
    assert_eq!(ev.admin, ADMIN);
    assert_eq!(ev.bond_mint, 34);
    assert_eq!(ev.bond_amount, 5_000);
}

#[test]
fn create_pool_registers_an_active_pool() {
    let mut factory = fresh_factory();
    let (meta, ev) = factory
        .create_pool(70, 71, 10, 20, 9, 30, 25, 1 << 64, 800)
        .unwrap();
    assert_eq!(meta.creator, 9);
    assert_eq!(meta.base_fee_bps, 30);
    assert_eq!(meta.bin_step, 25);
    assert_eq!(meta.flags, 1);
    assert_eq!(meta.pool_authority, 70);
    assert_eq!(meta.bond_vault, 71);
    assert_eq!(meta.created_at, 800);
    assert_eq!(factory.total_pools, 1);
    assert_eq!(ev.pool, 70);
    assert_eq!(ev.creator, 9);
    assert_eq!(ev.fee_bps, 30);
}

#[test]
fn create_pool_rejects_fees_outside_the_bounds() {
    let mut factory = fresh_factory();
    let before = factory;
    assert_eq!(
        factory.create_pool(70, 71, 10, 20, 9, 4, 25, 0, 800),
        Err(ErrorCode::InvalidFeeRange)
    );
    assert_eq!(
        factory.create_pool(70, 71, 10, 20, 9, 101, 25, 0, 800),
        Err(ErrorCode::InvalidFeeRange)
    );
    assert_eq!(factory, before);
}

#[test]
fn close_pool_refunds_the_bond_once_deactivated() {
    let mut factory = fresh_factory();
    let (mut meta, _) = factory
        .create_pool(70, 71, 10, 20, 9, 30, 25, 0, 800)
        .unwrap();
    meta.flags = 0;
    let ev = factory.close_pool(&meta, 9).unwrap();
    assert_eq!(ev.pool, 70);
    assert_eq!(ev.returned_bond, 5_000);
}

#[test]
fn close_pool_refuses_an_active_pool() {
    let mut factory = fresh_factory();
    let (meta, _) = factory
        .create_pool(70, 71, 10, 20, 9, 30, 25, 0, 800)
        .unwrap();
    assert_eq!(factory.close_pool(&meta, 9), Err(ErrorCode::PoolStillActive));
}

#[test]
fn close_pool_refuses_a_stranger() {
    let mut factory = fresh_factory();
    let (mut meta, _) = factory
        .create_pool(70, 71, 10, 20, 9, 30, 25, 0, 800)
        .unwrap();
    meta.flags = 0;
    assert_eq!(factory.close_pool(&meta, 8), Err(ErrorCode::Unauthorized));
}

#[test]
fn set_params_replaces_only_what_is_given() {
    let mut factory = fresh_factory();
    factory
        .set_params(ADMIN, Some(9_000), None, Some(200))
        .unwrap();
    assert_eq!(factory.bond_amount, 9_000);
    assert_eq!(factory.min_base_fee_bps, 5);
    assert_eq!(factory.max_base_fee_bps, 200);

    factory.set_params(ADMIN, None, Some(10), None).unwrap();
    assert_eq!(factory.bond_amount, 9_000);
    assert_eq!(factory.min_base_fee_bps, 10);
    assert_eq!(factory.max_base_fee_bps, 200);
}

#[test]
fn create_pool_fails_when_the_counter_would_overflow() {
    let mut factory = fresh_factory();
    factory.total_pools = u64::MAX;
    let before = factory;
    assert_eq!(
        factory.create_pool(70, 71, 10, 20, 9, 30, 25, 0, 800),
        Err(ErrorCode::MathOverflow)
    );
    assert_eq!(factory, before);
}

#[test]
fn set_params_refuses_a_stranger() {
    let mut factory = fresh_factory();
    let before = factory;
    assert_eq!(
        factory.set_params(ADMIN + 1, Some(0), Some(0), Some(0)),
        Err(ErrorCode::Unauthorized)
    );
    assert_eq!(factory, before);
}
