//! The router boundary: configuration for path selection across pools
//! and the notifications it emits. Path finding itself is an external
//! collaborator; the router records its preferences and reports what it
//! routed.

use vstd::prelude::*;

verus! {

/// The router configuration.
#[derive(Clone, Copy, Debug, PartialEq, Eq, Structural)]
pub struct Router {
    /// The only account allowed to change the configuration.
    pub authority: u64,
    /// Identity of the protocol token favoured in path selection.
    pub pudl_mint: u64,
    /// Weight bonus for pairs holding the protocol token, in basis
    /// points.
    pub pudl_weight_bonus: u16,
    /// Most pools a route may cross.
    pub max_hops: u8,
}

/// Notification of a pool made visible to the router.
#[derive(Clone, Copy, Debug, PartialEq, Eq, Structural)]
pub struct PoolRegistered {
    pub pool: u64,
}

/// Notification of a routed swap.
#[derive(Clone, Copy, Debug, PartialEq, Eq, Structural)]
pub struct SwapRouted {
    pub user: u64,
    pub amount_in: u64,
    pub amount_out: u64,
    pub hops: u8,
}

impl Router {
    /// Creates the router with a one-percent bonus for protocol-token
    /// pairs and at most three hops per route.
    pub fn initialize(authority: u64, pudl_mint: u64) -> (r: Router)
        ensures
            r == (Router { authority, pudl_mint, pudl_weight_bonus: 100, max_hops: 3 }),
    {
        Router { authority, pudl_mint, pudl_weight_bonus: 100, max_hops: 3 }
    }

    /// Acknowledges a pool registration.
    pub fn register_pool(&self, pool: u64) -> (r: PoolRegistered)
        ensures
            r == (PoolRegistered { pool }),
    {
        PoolRegistered { pool }
    }

    /// Acknowledges a routed swap over a single hop, reporting the
    /// caller's minimum as the routed amount; the pools crossed settle
    /// the actual amounts themselves.
    pub fn swap_exact_in(&self, user: u64, amount_in: u64, min_out: u64) -> (r: SwapRouted)
        ensures
            r == (SwapRouted { user, amount_in, amount_out: min_out, hops: 1 }),
    {
        SwapRouted { user, amount_in, amount_out: min_out, hops: 1 }
    }
}

} // verus!
