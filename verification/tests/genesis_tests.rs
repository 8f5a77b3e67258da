use beacon_genesis::config::ChainConfiguration;
use beacon_genesis::errors::Error;
use beacon_genesis::genesis::{
    admit_genesis_deposit, compute_effective_balance, initialize_beacon_state_from_eth1,
};
use beacon_genesis::ssz::{deposit_list_root, validator_registry_root};
use beacon_genesis::types::{
    BeaconBlockHeader, ChainState, Deposit, DepositData, Eth1Data, Fork, SyncCommittee, Validator,
};
use beacon_genesis::{FAR_FUTURE_EPOCH, GENESIS_EPOCH};

const INCREMENT: u64 = 1_000_000_000;
const MAX_EFFECTIVE: u64 = 32_000_000_000;

fn test_config() -> ChainConfiguration {
    ChainConfiguration {
        genesis_delay: 604800,
        genesis_fork_version: vec![1, 0, 0, 0],
        effective_balance_increment: INCREMENT,
        max_effective_balance: MAX_EFFECTIVE,
        epochs_per_historical_vector: 4,
        validator_registry_limit: 16,
        deposit_data_list_bound: 16,
        sync_committee_size: 4,
        max_proposer_slashings: 16,
        max_attester_slashings: 2,
        max_attestations: 128,
        max_deposits: 16,
        max_voluntary_exits: 16,
    }
}

fn make_deposit(tag: u8, amount: u64) -> Deposit {
    Deposit {
        inclusion_proof: vec![],
        data: DepositData {
            public_key: vec![tag; 48],
            withdrawal_credentials: vec![tag; 32],
            amount,
            signature: vec![tag; 96],
        },
    }
}

fn sha2_pair(a: &[u8], b: &[u8]) -> Vec<u8> {
    let mut buf = Vec::new();
    buf.extend_from_slice(a);
    buf.extend_from_slice(b);
    <sha2::Sha256 as sha2::Digest>::digest(&buf).to_vec()
}

/// The root of an empty bounded list, computed independently: zero subtree of
/// the given depth with a zero length mixed in.
fn manual_empty_list_root(depth: usize) -> Vec<u8> {
    let mut z = vec![0u8; 32];
    for _ in 0..depth {
        z = sha2_pair(&z, &z);
    }
    sha2_pair(&z, &[0u8; 32])
}

#[test]
fn scenario_zero_deposits() {
    let config = test_config();
    let hash = vec![0xaa; 32];
    let state = initialize_beacon_state_from_eth1(&hash, 1_600_000_000, &vec![], &config).unwrap();
    assert!(state.validators.is_empty());
    assert!(state.balances.is_empty());
    // The registry root is the root of an empty registry.
    let empty: Vec<Validator> = vec![];
    let expected = validator_registry_root(&empty, config.validator_registry_limit);
    assert_eq!(state.genesis_validators_root, expected);
    // The deposit root is the root of an empty deposit tree, here computed
    // independently of the library: both bounds are 16, so depth 4.
    assert_eq!(state.eth1_data.deposit_root, manual_empty_list_root(4));
    let no_leaves: Vec<DepositData> = vec![];
    assert_eq!(
        state.eth1_data.deposit_root,
        deposit_list_root(&no_leaves, config.deposit_data_list_bound)
    );
    assert_eq!(state.eth1_data.deposit_count, 0);
}

#[test]
fn scenario_full_deposit_activates() {
    let config = test_config();
    let hash = vec![0xbb; 32];
    let deposits = vec![make_deposit(1, MAX_EFFECTIVE)];
    let state = initialize_beacon_state_from_eth1(&hash, 0, &deposits, &config).unwrap();
    assert_eq!(state.validators.len(), 1);
    let v = &state.validators[0];
    assert_eq!(v.effective_balance, MAX_EFFECTIVE);
    assert_eq!(v.activation_epoch, GENESIS_EPOCH);
    assert_eq!(v.activation_eligibility_epoch, GENESIS_EPOCH);
    assert_eq!(v.exit_epoch, FAR_FUTURE_EPOCH);
    assert_eq!(state.balances[0], MAX_EFFECTIVE);
}

#[test]
fn scenario_underfunded_deposit_stays_pending() {
    let config = test_config();
    let hash = vec![0xcc; 32];
    let deposits = vec![make_deposit(2, MAX_EFFECTIVE - INCREMENT)];
    let state = initialize_beacon_state_from_eth1(&hash, 0, &deposits, &config).unwrap();
    assert_eq!(state.validators.len(), 1);
    let v = &state.validators[0];
    assert_eq!(v.effective_balance, MAX_EFFECTIVE - INCREMENT);
    assert_eq!(v.activation_epoch, FAR_FUTURE_EPOCH);
    assert_eq!(v.activation_eligibility_epoch, FAR_FUTURE_EPOCH);
}

#[test]
fn scenario_same_key_tops_up() {
    let config = test_config();
    let hash = vec![0xdd; 32];
    let a = 5_000_000_000;
    let b = 7_500_000_000;
    let mut second = make_deposit(3, b);
    second.data.withdrawal_credentials = vec![9; 32];
    let deposits = vec![make_deposit(3, a), second];
    let state = initialize_beacon_state_from_eth1(&hash, 0, &deposits, &config).unwrap();
    assert_eq!(state.validators.len(), 1);
    assert_eq!(state.balances.len(), 1);
    assert_eq!(state.balances[0], a + b);
    // The record keeps the credentials of the registering deposit.
    assert_eq!(state.validators[0].withdrawal_credentials, vec![3; 32]);
    // 12.5 gwei-billions floor to 12, well below the activation threshold.
    assert_eq!(state.validators[0].effective_balance, 12_000_000_000);
    assert_eq!(state.validators[0].activation_epoch, FAR_FUTURE_EPOCH);
}

#[test]
fn effective_balance_rounding() {
    let config = test_config();
    // Exactly divisible by the increment.
    assert_eq!(compute_effective_balance(8_000_000_000, &config), 8_000_000_000);
    // One unit above a multiple floors down.
    assert_eq!(compute_effective_balance(8_000_000_001, &config), 8_000_000_000);
    assert_eq!(compute_effective_balance(8_999_999_999, &config), 8_000_000_000);
    // Equal to the maximum stays there.
    assert_eq!(compute_effective_balance(MAX_EFFECTIVE, &config), MAX_EFFECTIVE);
    // Above the maximum is capped.
    assert_eq!(compute_effective_balance(MAX_EFFECTIVE + INCREMENT, &config), MAX_EFFECTIVE);
    assert_eq!(compute_effective_balance(0, &config), 0);
}

fn blank_state() -> ChainState {
    ChainState {
        genesis_time: 0,
        genesis_validators_root: vec![0; 32],
        fork: Fork {
            previous_version: vec![0; 4],
            current_version: vec![0; 4],
            epoch: GENESIS_EPOCH,
        },
        eth1_data: Eth1Data {
            deposit_root: vec![0; 32],
            deposit_count: 3,
            block_hash: vec![0xee; 32],
        },
        latest_block_header: BeaconBlockHeader {
            slot: 0,
            proposer_index: 0,
            parent_root: vec![0; 32],
            state_root: vec![0; 32],
            body_root: vec![0; 32],
        },
        randao_mixes: vec![],
        validators: vec![],
        balances: vec![],
        current_sync_committee: SyncCommittee { public_keys: vec![] },
        next_sync_committee: SyncCommittee { public_keys: vec![] },
    }
}

#[test]
fn incremental_deposit_root_covers_every_prefix() {
    let config = test_config();
    let deposits = vec![
        make_deposit(1, MAX_EFFECTIVE),
        make_deposit(2, 17_000_000_000),
        make_deposit(3, 1_000_000_000),
    ];
    let mut state = blank_state();
    let mut leaves: Vec<DepositData> = Vec::new();
    let mut prefix: Vec<DepositData> = Vec::new();
    for deposit in deposits.iter() {
        admit_genesis_deposit(&mut state, &mut leaves, deposit, &config).unwrap();
        prefix.push(DepositData {
            public_key: deposit.data.public_key.clone(),
            withdrawal_credentials: deposit.data.withdrawal_credentials.clone(),
            amount: deposit.data.amount,
            signature: deposit.data.signature.clone(),
        });
        // After each admission the recorded root covers exactly the prefix
        // admitted so far.
        let expected = deposit_list_root(&prefix, config.deposit_data_list_bound);
        assert_eq!(state.eth1_data.deposit_root, expected);
    }
    assert_eq!(state.validators.len(), 3);
}

#[test]
fn registry_root_seals_finalized_registry() {
    let config = test_config();
    let hash = vec![0x11; 32];
    let deposits = vec![make_deposit(1, MAX_EFFECTIVE), make_deposit(2, 9_999_999_999)];
    let state = initialize_beacon_state_from_eth1(&hash, 0, &deposits, &config).unwrap();
    // The sealed root is the root of the final registry.
    let expected = validator_registry_root(&state.validators, config.validator_registry_limit);
    assert_eq!(state.genesis_validators_root, expected);
    // It differs from the root taken before the effective-balance pass, in
    // which both records still carried a zero effective balance and
    // far-future activation fields.
    let unfinalized: Vec<Validator> = deposits
        .iter()
        .map(|d| Validator {
            public_key: d.data.public_key.clone(),
            withdrawal_credentials: d.data.withdrawal_credentials.clone(),
            effective_balance: 0,
            slashed: false,
            activation_eligibility_epoch: FAR_FUTURE_EPOCH,
            activation_epoch: FAR_FUTURE_EPOCH,
            exit_epoch: FAR_FUTURE_EPOCH,
            withdrawable_epoch: FAR_FUTURE_EPOCH,
        })
        .collect();
    let before = validator_registry_root(&unfinalized, config.validator_registry_limit);
    assert_ne!(state.genesis_validators_root, before);
}

#[test]
fn registry_capacity_is_fatal() {
    let mut config = test_config();
    config.validator_registry_limit = 1;
    let hash = vec![0x22; 32];
    let deposits = vec![make_deposit(1, MAX_EFFECTIVE), make_deposit(2, MAX_EFFECTIVE)];
    let result = initialize_beacon_state_from_eth1(&hash, 0, &deposits, &config);
    assert!(matches!(result, Err(Error::CapacityExceeded)));
}

#[test]
fn deposit_list_capacity_is_fatal() {
    let mut config = test_config();
    config.deposit_data_list_bound = 1;
    let hash = vec![0x23; 32];
    let deposits = vec![make_deposit(1, MAX_EFFECTIVE), make_deposit(2, MAX_EFFECTIVE)];
    let result = initialize_beacon_state_from_eth1(&hash, 0, &deposits, &config);
    assert!(matches!(result, Err(Error::CapacityExceeded)));
}

#[test]
fn genesis_header_fork_and_randao() {
    let config = test_config();
    let hash = vec![0x44; 32];
    let timestamp = 1_700_000_000;
    let state = initialize_beacon_state_from_eth1(&hash, timestamp, &vec![], &config).unwrap();
    assert_eq!(state.genesis_time, timestamp + config.genesis_delay);
    assert_eq!(state.fork.previous_version, config.genesis_fork_version);
    assert_eq!(state.fork.current_version, config.genesis_fork_version);
    assert_eq!(state.fork.epoch, GENESIS_EPOCH);
    assert_eq!(state.eth1_data.block_hash, hash);
    assert_eq!(state.latest_block_header.slot, 0);
    assert_eq!(state.latest_block_header.proposer_index, 0);
    assert_eq!(state.latest_block_header.parent_root, vec![0; 32]);
    assert_eq!(state.latest_block_header.state_root, vec![0; 32]);
    assert_eq!(state.latest_block_header.body_root.len(), 32);
    assert_ne!(state.latest_block_header.body_root, vec![0; 32]);
    assert_eq!(state.randao_mixes.len(), 4);
    for mix in state.randao_mixes.iter() {
        assert_eq!(*mix, hash);
    }
}

#[test]
fn sync_committee_fills_from_active_validators() {
    let config = test_config();
    let hash = vec![0x55; 32];
    // One activated validator, one pending: every committee seat repeats the
    // active key.
    let deposits = vec![make_deposit(7, MAX_EFFECTIVE), make_deposit(8, 1_000_000_000)];
    let state = initialize_beacon_state_from_eth1(&hash, 0, &deposits, &config).unwrap();
    assert_eq!(state.current_sync_committee.public_keys.len(), 4);
    for key in state.current_sync_committee.public_keys.iter() {
        assert_eq!(*key, vec![7; 48]);
    }
    assert_eq!(
        state.current_sync_committee.public_keys,
        state.next_sync_committee.public_keys
    );
}

#[test]
fn sync_committee_zero_keys_without_active_validators() {
    let config = test_config();
    let hash = vec![0x66; 32];
    let state = initialize_beacon_state_from_eth1(&hash, 0, &vec![], &config).unwrap();
    assert_eq!(state.current_sync_committee.public_keys.len(), 4);
    for key in state.current_sync_committee.public_keys.iter() {
        assert_eq!(*key, vec![0; 48]);
    }
    assert_eq!(
        state.current_sync_committee.public_keys,
        state.next_sync_committee.public_keys
    );
}

#[test]
fn two_active_validators_alternate_committee_seats() {
    let config = test_config();
    let hash = vec![0x77; 32];
    let deposits = vec![make_deposit(1, MAX_EFFECTIVE), make_deposit(2, MAX_EFFECTIVE)];
    let state = initialize_beacon_state_from_eth1(&hash, 0, &deposits, &config).unwrap();
    let keys = &state.current_sync_committee.public_keys;
    assert_eq!(keys.len(), 4);
    assert_eq!(keys[0], vec![1; 48]);
    assert_eq!(keys[1], vec![2; 48]);
    assert_eq!(keys[2], vec![1; 48]);
    assert_eq!(keys[3], vec![2; 48]);
}
