//! Consensus-layer core: canonical genesis-state derivation from a deposit
//! sequence, and the execution-payload gate that couples the consensus chain
//! to an execution engine.

use vstd::prelude::*;

pub mod api;
pub mod config;
pub mod encoding;
pub mod engine;
pub mod errors;
pub mod genesis;
pub mod hash;
pub mod merkle;
pub mod registry;
pub mod ssz;
pub mod types;

verus! {

/// The sentinel epoch meaning "not yet scheduled".
pub const FAR_FUTURE_EPOCH: u64 = 0xffff_ffff_ffff_ffff;

/// The epoch of the genesis state.
pub const GENESIS_EPOCH: u64 = 0;

} // verus!
