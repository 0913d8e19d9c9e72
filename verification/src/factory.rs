//! The pool factory: registers pools against a creator bond and keeps
//! the fee bounds new pools must respect.
//!
//! A registered pool carries an active flag; closing it refunds the
//! creator's bond and is only valid once the flag is cleared — an
//! irreversible decommission, distinct from a temporary pause.

use vstd::prelude::*;

verus! {

/// Why a factory operation was refused. Every failure leaves the
/// factory and the pool record exactly as they were.
#[derive(Clone, Copy, Debug, PartialEq, Eq, Structural)]
pub enum ErrorCode {
    /// The creator cannot cover the pool bond.
    InsufficientBond,
    /// The requested fee lies outside the factory's bounds.
    InvalidFeeRange,
    /// A pool with these defining parameters already exists.
    PoolAlreadyExists,
    /// The pool's active flag is still set.
    PoolStillActive,
    /// The caller is not the required authority.
    Unauthorized,
    /// The pool counter would overflow its 64-bit domain.
    MathOverflow,
}

/// The factory: bond terms, fee bounds, and the pool counter.
#[derive(Clone, Copy, Debug, PartialEq, Eq, Structural)]
pub struct Factory {
    /// The only account allowed to change the factory parameters.
    pub admin: u64,
    /// The treasury collaborator pools report fees to.
    pub treasury: u64,
    /// The router collaborator pools are registered with.
    pub router: u64,
    /// Identity of the token the creator bond is paid in.
    pub bond_mint: u64,
    /// Bond a creator posts per pool.
    pub bond_amount: u64,
    /// Highest base fee a new pool may choose, in basis points.
    pub max_base_fee_bps: u16,
    /// Lowest base fee a new pool may choose, in basis points.
    pub min_base_fee_bps: u16,
    /// Whether scheduled fee changes are enabled.
    pub fee_scheduler_enabled: bool,
    /// How many pools this factory has registered.
    pub total_pools: u64,
}

/// The factory's record of one registered pool.
#[derive(Clone, Copy, Debug, PartialEq, Eq, Structural)]
pub struct PoolMeta {
    /// Identity of the base asset.
    pub base_mint: u64,
    /// Identity of the quote asset.
    pub quote_mint: u64,
    /// The account that created and bonded the pool.
    pub creator: u64,
    /// The pool's base fee, in basis points.
    pub base_fee_bps: u16,
    /// Price step between adjacent bins, in basis points.
    pub bin_step: u16,
    /// Starting price, Q64.64.
    pub initial_price_x64: u128,
    /// The pool's own signing identity.
    pub pool_authority: u64,
    /// Vault holding the creator's bond.
    pub bond_vault: u64,
    /// Time of registration.
    pub created_at: i64,
    /// Status bits; the lowest bit is the active flag.
    pub flags: u32,
}

/// Notification that the factory exists.
#[derive(Clone, Copy, Debug, PartialEq, Eq, Structural)]
pub struct FactoryInitialized {
    pub admin: u64,
    pub bond_mint: u64,
    pub bond_amount: u64,
}

/// Notification of a registered pool; the caller moves the factory's
/// bond amount from the creator into the bond vault.
#[derive(Clone, Copy, Debug, PartialEq, Eq, Structural)]
pub struct PoolCreated {
    pub pool: u64,
    pub creator: u64,
    pub base_mint: u64,
    pub quote_mint: u64,
    pub fee_bps: u16,
    pub bin_step: u16,
}

/// Notification of a closed pool; the caller refunds `returned_bond`
/// from the bond vault to the creator.
#[derive(Clone, Copy, Debug, PartialEq, Eq, Structural)]
pub struct PoolClosed {
    pub pool: u64,
    pub returned_bond: u64,
}

impl Factory {
    /// Creates the factory with no pools registered.
    pub fn initialize_factory(
        admin: u64,
        treasury: u64,
        router: u64,
        bond_mint: u64,
        bond_amount: u64,
        min_base_fee_bps: u16,
        max_base_fee_bps: u16,
    ) -> (r: (Factory, FactoryInitialized))
        ensures
            r.0 == (Factory {
                admin,
                treasury,
                router,
                bond_mint,
                bond_amount,
                max_base_fee_bps,
                min_base_fee_bps,
                fee_scheduler_enabled: false,
                total_pools: 0,
            }),
            r.1 == (FactoryInitialized { admin, bond_mint, bond_amount }),
    {
        let factory = Factory {
            admin,
            treasury,
            router,
            bond_mint,
            bond_amount,
            max_base_fee_bps,
            min_base_fee_bps,
            fee_scheduler_enabled: false,
            total_pools: 0,
        };
        let event = FactoryInitialized { admin, bond_mint, bond_amount };
        (factory, event)
    }

    /// Registers a pool under `pool_key` in the active state, against
    /// the creator's bond. The fee must lie within the factory's
    /// bounds. The returned event obliges the caller to move the
    /// factory's bond amount from the creator into the bond vault.
    pub fn create_pool(
        &mut self,
        pool_key: u64,
        bond_vault: u64,
        base_mint: u64,
        quote_mint: u64,
        user: u64,
        base_fee_bps: u16,
        bin_step: u16,
        initial_price_x64: u128,
        now: i64,
    ) -> (r: Result<(PoolMeta, PoolCreated), ErrorCode>)
        ensures
            r is Err ==> *final(self) == *old(self),
            r == Err::<(PoolMeta, PoolCreated), ErrorCode>(ErrorCode::InvalidFeeRange) <==> (
            base_fee_bps < old(self).min_base_fee_bps || base_fee_bps > old(self).max_base_fee_bps),
            r is Ok <==> (old(self).min_base_fee_bps <= base_fee_bps <= old(self).max_base_fee_bps
                && old(self).total_pools + 1 <= u64::MAX),
            (old(self).min_base_fee_bps <= base_fee_bps <= old(self).max_base_fee_bps) ==> (r
                == Err::<(PoolMeta, PoolCreated), ErrorCode>(ErrorCode::MathOverflow) <==> old(
                self,
            ).total_pools + 1 > u64::MAX),
            r matches Ok((meta, ev)) ==> {
                &&& *final(self) == (Factory {
                    total_pools: (old(self).total_pools + 1) as u64,
                    ..*old(self)
                })
                &&& meta == (PoolMeta {
                    base_mint,
                    quote_mint,
                    creator: user,
                    base_fee_bps,
                    bin_step,
                    initial_price_x64,
                    pool_authority: pool_key,
                    bond_vault,
                    created_at: now,
                    flags: 1,
                })
                &&& ev == (PoolCreated {
                    pool: pool_key,
                    creator: user,
                    base_mint,
                    quote_mint,
                    fee_bps: base_fee_bps,
                    bin_step,
                })
            },
    {
        if base_fee_bps < self.min_base_fee_bps || base_fee_bps > self.max_base_fee_bps {
            return Err(ErrorCode::InvalidFeeRange);
        }

        let new_total = match self.total_pools.checked_add(1) {
            Some(v) => v,
            None => {
                return Err(ErrorCode::MathOverflow);
            },
        };

        let meta = PoolMeta {
            base_mint,
            quote_mint,
            creator: user,
            base_fee_bps,
            bin_step,
            initial_price_x64,
            pool_authority: pool_key,
            bond_vault,
            created_at: now,
            flags: 1,
        };

        self.total_pools = new_total;

        let event = PoolCreated {
            pool: pool_key,
            creator: user,
            base_mint,
            quote_mint,
            fee_bps: base_fee_bps,
            bin_step,
        };
        Ok((meta, event))
    }

    /// Decommissions a pool whose active flag has been cleared,
    /// refunding the creator's bond. Only the pool's creator may call;
    /// a still-active pool is refused.
    pub fn close_pool(&self, pool_meta: &PoolMeta, creator: u64) -> (r: Result<
        PoolClosed,
        ErrorCode,
    >)
        ensures
            r == Err::<PoolClosed, ErrorCode>(ErrorCode::Unauthorized) <==> pool_meta.creator
                != creator,
            r is Ok <==> (pool_meta.creator == creator && pool_meta.flags & 1 != 1),
            pool_meta.creator == creator ==> (r == Err::<PoolClosed, ErrorCode>(
                ErrorCode::PoolStillActive,
            ) <==> pool_meta.flags & 1 == 1),
            r matches Ok(ev) ==> ev == (PoolClosed {
                pool: pool_meta.pool_authority,
                returned_bond: self.bond_amount,
            }),
    {
        if pool_meta.creator != creator {
            return Err(ErrorCode::Unauthorized);
        }
        if pool_meta.flags & 1 == 1 {
            return Err(ErrorCode::PoolStillActive);
        }
        Ok(PoolClosed { pool: pool_meta.pool_authority, returned_bond: self.bond_amount })
    }

    /// Replaces any of the bond amount and the fee bounds. Only the
    /// factory admin may call.
    pub fn set_params(
        &mut self,
        admin: u64,
        new_bond_amount: Option<u64>,
        new_min_fee: Option<u16>,
        new_max_fee: Option<u16>,
    ) -> (r: Result<(), ErrorCode>)
        ensures
            r is Err ==> *final(self) == *old(self),
            r == Err::<(), ErrorCode>(ErrorCode::Unauthorized) <==> admin != old(self).admin,
            r is Ok <==> admin == old(self).admin,
            r is Ok ==> *final(self) == (Factory {
                bond_amount: match new_bond_amount {
                    Some(amount) => amount,
                    None => old(self).bond_amount,
                },
                min_base_fee_bps: match new_min_fee {
                    Some(fee) => fee,
                    None => old(self).min_base_fee_bps,
                },
                max_base_fee_bps: match new_max_fee {
                    Some(fee) => fee,
                    None => old(self).max_base_fee_bps,
                },
                ..*old(self)
            }),
    {
        if admin != self.admin {
            return Err(ErrorCode::Unauthorized);
        }

        if let Some(amount) = new_bond_amount {
            self.bond_amount = amount;
        }
        if let Some(min) = new_min_fee {
            self.min_base_fee_bps = min;
        }
        if let Some(max) = new_max_fee {
            self.max_base_fee_bps = max;
        }

        Ok(())
    }
}

} // verus!
