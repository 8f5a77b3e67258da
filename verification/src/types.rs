//! The chain's data model: deposits, validators, and the genesis-time state.

use vstd::prelude::*;

use crate::FAR_FUTURE_EPOCH;

verus! {

/// A deposit record binding a validator public key and withdrawal credentials
/// to a staked amount, together with its Merkle inclusion proof. The proof is
/// carried for the caller; genesis construction does not verify it.
pub struct Deposit {
    pub inclusion_proof: Vec<Vec<u8>>,
    pub data: DepositData,
}

/// The signed content of a deposit.
pub struct DepositData {
    pub public_key: Vec<u8>,
    pub withdrawal_credentials: Vec<u8>,
    pub amount: u64,
    pub signature: Vec<u8>,
}

pub ghost struct DepositDataView {
    pub public_key: Seq<u8>,
    pub withdrawal_credentials: Seq<u8>,
    pub amount: u64,
    pub signature: Seq<u8>,
}

impl DepositDataView {
    pub open spec fn wf(self) -> bool {
        &&& self.public_key.len() == 48
        &&& self.withdrawal_credentials.len() == 32
        &&& self.signature.len() == 96
    }
}

impl View for DepositData {
    type V = DepositDataView;

    open spec fn view(&self) -> DepositDataView {
        DepositDataView {
            public_key: self.public_key@,
            withdrawal_credentials: self.withdrawal_credentials@,
            amount: self.amount,
            signature: self.signature@,
        }
    }
}

impl DeepView for DepositData {
    type V = DepositDataView;

    open spec fn deep_view(&self) -> DepositDataView {
        self.view()
    }
}

/// A registered validator.
pub struct Validator {
    pub public_key: Vec<u8>,
    pub withdrawal_credentials: Vec<u8>,
    pub effective_balance: u64,
    pub slashed: bool,
    pub activation_eligibility_epoch: u64,
    pub activation_epoch: u64,
    pub exit_epoch: u64,
    pub withdrawable_epoch: u64,
}

pub ghost struct ValidatorView {
    pub public_key: Seq<u8>,
    pub withdrawal_credentials: Seq<u8>,
    pub effective_balance: u64,
    pub slashed: bool,
    pub activation_eligibility_epoch: u64,
    pub activation_epoch: u64,
    pub exit_epoch: u64,
    pub withdrawable_epoch: u64,
}

impl ValidatorView {
    pub open spec fn wf(self) -> bool {
        &&& self.public_key.len() == 48
        &&& self.withdrawal_credentials.len() == 32
    }
}

impl View for Validator {
    type V = ValidatorView;

    open spec fn view(&self) -> ValidatorView {
        ValidatorView {
            public_key: self.public_key@,
            withdrawal_credentials: self.withdrawal_credentials@,
            effective_balance: self.effective_balance,
            slashed: self.slashed,
            activation_eligibility_epoch: self.activation_eligibility_epoch,
            activation_epoch: self.activation_epoch,
            exit_epoch: self.exit_epoch,
            withdrawable_epoch: self.withdrawable_epoch,
        }
    }
}

impl DeepView for Validator {
    type V = ValidatorView;

    open spec fn deep_view(&self) -> ValidatorView {
        self.view()
    }
}

/// The validator record that admitting an unknown public key appends: epoch
/// fields at the far-future sentinel, effective balance left for the genesis
/// finalization pass.
pub open spec fn fresh_validator(d: DepositDataView) -> ValidatorView {
    ValidatorView {
        public_key: d.public_key,
        withdrawal_credentials: d.withdrawal_credentials,
        effective_balance: 0,
        slashed: false,
        activation_eligibility_epoch: FAR_FUTURE_EPOCH,
        activation_epoch: FAR_FUTURE_EPOCH,
        exit_epoch: FAR_FUTURE_EPOCH,
        withdrawable_epoch: FAR_FUTURE_EPOCH,
    }
}

/// The fork identifier of a state.
pub struct Fork {
    pub previous_version: Vec<u8>,
    pub current_version: Vec<u8>,
    pub epoch: u64,
}

pub ghost struct ForkView {
    pub previous_version: Seq<u8>,
    pub current_version: Seq<u8>,
    pub epoch: u64,
}

impl View for Fork {
    type V = ForkView;

    open spec fn view(&self) -> ForkView {
        ForkView {
            previous_version: self.previous_version@,
            current_version: self.current_version@,
            epoch: self.epoch,
        }
    }
}

/// A summary of the deposit contract's state on the eth1 chain.
pub struct Eth1Data {
    pub deposit_root: Vec<u8>,
    pub deposit_count: u64,
    pub block_hash: Vec<u8>,
}

pub ghost struct Eth1DataView {
    pub deposit_root: Seq<u8>,
    pub deposit_count: u64,
    pub block_hash: Seq<u8>,
}

impl View for Eth1Data {
    type V = Eth1DataView;

    open spec fn view(&self) -> Eth1DataView {
        Eth1DataView {
            deposit_root: self.deposit_root@,
            deposit_count: self.deposit_count,
            block_hash: self.block_hash@,
        }
    }
}

/// A beacon block header.
pub struct BeaconBlockHeader {
    pub slot: u64,
    pub proposer_index: u64,
    pub parent_root: Vec<u8>,
    pub state_root: Vec<u8>,
    pub body_root: Vec<u8>,
}

pub ghost struct BeaconBlockHeaderView {
    pub slot: u64,
    pub proposer_index: u64,
    pub parent_root: Seq<u8>,
    pub state_root: Seq<u8>,
    pub body_root: Seq<u8>,
}

impl View for BeaconBlockHeader {
    type V = BeaconBlockHeaderView;

    open spec fn view(&self) -> BeaconBlockHeaderView {
        BeaconBlockHeaderView {
            slot: self.slot,
            proposer_index: self.proposer_index,
            parent_root: self.parent_root@,
            state_root: self.state_root@,
            body_root: self.body_root@,
        }
    }
}

/// A sync committee assignment: the duty-holding public keys, in order.
pub struct SyncCommittee {
    pub public_keys: Vec<Vec<u8>>,
}

pub ghost struct SyncCommitteeView {
    pub public_keys: Seq<Seq<u8>>,
}

impl View for SyncCommittee {
    type V = SyncCommitteeView;

    open spec fn view(&self) -> SyncCommitteeView {
        SyncCommitteeView { public_keys: self.public_keys.deep_view() }
    }
}

/// The genesis-time shape of the chain state.
pub struct ChainState {
    pub genesis_time: u64,
    pub genesis_validators_root: Vec<u8>,
    pub fork: Fork,
    pub eth1_data: Eth1Data,
    pub latest_block_header: BeaconBlockHeader,
    pub randao_mixes: Vec<Vec<u8>>,
    pub validators: Vec<Validator>,
    pub balances: Vec<u64>,
    pub current_sync_committee: SyncCommittee,
    pub next_sync_committee: SyncCommittee,
}

impl ChainState {
    /// The registry invariant: one balance per validator, and a public key
    /// registered at most once.
    pub open spec fn registry_wf(self) -> bool {
        &&& self.validators@.len() == self.balances@.len()
        &&& forall|i: int, j: int|
            0 <= i < j < self.validators@.len()
                ==> (#[trigger] self.validators@[i])@.public_key != (
            #[trigger] self.validators@[j])@.public_key
        &&& forall|i: int|
            0 <= i < self.validators@.len() ==> (#[trigger] self.validators@[i])@.wf()
    }
}

} // verus!
