//! Staking of collection assets: a holder locks an asset, earns points for
//! the time it stays locked, and later unlocks it and claims them.
//!
//! The library decides; it never reads a clock and never reaches the asset
//! registry. An operation is a small machine: it is told what the clock
//! reads, hands out the calls that the registry has to be asked, is told
//! each reply, and changes the records in one step at the end or not at
//! all.
//!
//! - [`address`]: identities on the host ledger.
//! - [`state`]: the records, and the seeds that a stake record signs under.
//! - [`error`]: why an operation is refused.
//! - [`accrual`]: elapsed time, the freeze period in whole days, and points.
//! - [`registry`]: the calls to the asset registry, and how a registry that
//!   follows its interface answers them.
//! - [`protocol`]: signals to an operation and its answers.
//! - [`stake`] and [`unstake`]: the two operations.
//! - [`lifecycle`]: staking and unstaking together with the registry.
//! - [`store`]: what the operations keep true of the record store.

pub mod accrual;
pub mod address;
pub mod error;
pub mod lifecycle;
pub mod protocol;
pub mod registry;
pub mod stake;
pub mod state;
pub mod store;
pub mod unstake;
