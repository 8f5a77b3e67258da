//! The immutable per-network parameter set that every operation reads.

use vstd::prelude::*;

verus! {

/// Network parameters: fork version, epoch and balance constants, and the
/// capacity bound of every bounded container. Constructed once per network
/// and never mutated; the bounds are validated here, at configuration time,
/// not re-derived by the operations that use them.
pub struct ChainConfiguration {
    /// Seconds between the eth1 anchor timestamp and slot 0.
    pub genesis_delay: u64,
    /// The post-genesis fork version, used for both halves of the genesis fork.
    pub genesis_fork_version: Vec<u8>,
    /// The granularity to which effective balances are floored.
    pub effective_balance_increment: u64,
    /// The cap on a validator's effective balance.
    pub max_effective_balance: u64,
    /// The length of the randao-mix history vector.
    pub epochs_per_historical_vector: u64,
    /// Capacity bound of the validator registry.
    pub validator_registry_limit: u64,
    /// Capacity bound of the deposit tree leaf list.
    pub deposit_data_list_bound: u64,
    /// The number of members of a sync committee.
    pub sync_committee_size: u64,
    /// Capacity bound of a block body's proposer-slashing list.
    pub max_proposer_slashings: u64,
    /// Capacity bound of a block body's attester-slashing list.
    pub max_attester_slashings: u64,
    /// Capacity bound of a block body's attestation list.
    pub max_attestations: u64,
    /// Capacity bound of a block body's deposit list.
    pub max_deposits: u64,
    /// Capacity bound of a block body's voluntary-exit list.
    pub max_voluntary_exits: u64,
}

impl ChainConfiguration {
    /// The bounds a usable configuration must satisfy: a positive balance
    /// increment (effective balances are reduced modulo it), a four-byte fork
    /// version, and every capacity bound positive and small enough that its
    /// Merkle tree depth and in-memory vectors exist.
    pub open spec fn wf(self) -> bool {
        &&& self.genesis_fork_version@.len() == 4
        &&& 1 <= self.effective_balance_increment
        &&& 1 <= self.epochs_per_historical_vector <= 0x1_0000_0000
        &&& 1 <= self.validator_registry_limit <= 0x4000_0000_0000_0000
        &&& 1 <= self.deposit_data_list_bound <= 0x4000_0000_0000_0000
        &&& 1 <= self.sync_committee_size <= 0x1_0000_0000
        &&& 1 <= self.max_proposer_slashings <= 0x4000_0000_0000_0000
        &&& 1 <= self.max_attester_slashings <= 0x4000_0000_0000_0000
        &&& 1 <= self.max_attestations <= 0x4000_0000_0000_0000
        &&& 1 <= self.max_deposits <= 0x4000_0000_0000_0000
        &&& 1 <= self.max_voluntary_exits <= 0x4000_0000_0000_0000
    }
}

} // verus!
