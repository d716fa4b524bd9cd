//! Simulation of calls on top of pending flashblocks.
//!
//! Flashblocks extend a canonical block before the next block is sealed. Their effect is kept in
//! memory as a diff over the canonical state. [`PendingBundleOverlay`] lays that diff lazily over a
//! canonical state provider, and [`OverlayCall::simulate_v1`] starts a simulation of further blocks
//! on top of it.
//!
//! - [`types`]: addresses, words, accounts.
//! - [`bundle`]: lookups in a diff.
//! - [`overlay`]: reads through the overlay.
//! - [`materialize`]: what reads through the overlay amount to.
//! - [`pending`]: the diffs received so far.
//! - [`rules`]: block order, execution environment and gas of simulated blocks.
//! - [`overrides`]: the effect of a block's overrides.
//! - [`simulation`]: the course of a simulation.
//! - [`answers`]: how the results of single calls relate to their arguments.
//! - [`course`]: what each event leads to.
//! - [`laws`]: what holds of a simulation as a whole.

pub mod answers;
pub mod bundle;
pub mod course;
pub mod laws;
pub mod materialize;
pub mod overlay;
pub mod overrides;
pub mod pending;
pub mod rules;
pub mod simulation;
pub mod types;

pub use overlay::{to_reth_account, EvmStateProvider, PendingBundleOverlay};
pub use pending::PendingBlocks;
pub use rules::{
    BlockHeader, BlockOverrides, Call, SimBlock, SimEnv, SimulateError, SimulatePayload,
};
pub use simulation::{Action, Event, Failure, OverlayCall, SimulateLimits, Simulation, Step};
pub use types::{
    Account, AccountInfo, Address, BlockNumber, StorageKey, StorageValue, B256, U256,
};
