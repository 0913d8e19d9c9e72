//! Core accounting of a discretized-liquidity market-maker protocol:
//! bin-priced pools with positions, a swap engine with fee and slippage
//! rules, a fee treasury with a three-way split, and a staking pool with
//! a fixed-point reward index.
//!
//! Every operation is a pure state transition on plain values. Asset
//! movement, account addressing and clock reads happen at the caller's
//! boundary: an operation reports, in its returned event, which transfers
//! the caller must perform, and takes the current time as an argument
//! where a record keeps a timestamp.

pub mod factory;
pub mod governance;
pub mod math;
pub mod pool;
pub mod router;
pub mod staking;
pub mod treasury;

use vstd::prelude::*;

verus! {

} // verus!
