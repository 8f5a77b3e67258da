//! Genesis-state construction: derive the canonical initial chain state from
//! an eth1 anchor block and an ordered deposit sequence.

use vstd::prelude::*;

use crate::config::ChainConfiguration;
use crate::errors::Error;
use crate::registry::{
    apply_deposit, deposit_admissible, deposit_overflows, empty_registry, has_public_key,
    keys_unique, process_deposit, state_registry, RegistryView,
};
use crate::ssz::{
    default_body_root, default_body_root_of, deposit_list_root, deposit_list_root_of,
    registry_root_of, validator_registry_root, zero_bytes,
};
use crate::types::{
    fresh_validator, BeaconBlockHeader, ChainState, Deposit, DepositData, DepositDataView,
    Eth1Data, Fork, SyncCommittee, Validator, ValidatorView,
};
use crate::{FAR_FUTURE_EPOCH, GENESIS_EPOCH};

verus! {

/// The effective balance a real balance rounds to: floored to the configured
/// increment, then capped at the configured maximum.
pub open spec fn effective_balance_of(balance: u64, cfg: ChainConfiguration) -> u64 {
    let floored = balance as int - balance as int % cfg.effective_balance_increment as int;
    if floored > cfg.max_effective_balance as int {
        cfg.max_effective_balance
    } else {
        floored as u64
    }
}

/// Round a balance to its effective balance:
/// `min(balance - balance % increment, max_effective_balance)`, in exact
/// integer arithmetic.
pub fn compute_effective_balance(balance: u64, config: &ChainConfiguration) -> (r: u64)
    requires
        config.wf(),
    ensures
        r == effective_balance_of(balance, *config),
        r as int == vstd::math::min(
            balance as int - balance as int % config.effective_balance_increment as int,
            config.max_effective_balance as int,
        ),
{
    proof {
        vstd::arithmetic::div_mod::lemma_mod_decreases(
            balance as nat,
            config.effective_balance_increment as nat,
        );
    }
    let floored = balance - balance % config.effective_balance_increment;
    if floored < config.max_effective_balance {
        floored
    } else {
        config.max_effective_balance
    }
}

/// A validator record after the genesis finalization pass: its effective
/// balance recomputed from its real balance, and, when that reaches the
/// configured maximum, both activation fields set to the genesis epoch.
pub open spec fn finalize_validator(
    v: ValidatorView,
    balance: u64,
    cfg: ChainConfiguration,
) -> ValidatorView {
    let eb = effective_balance_of(balance, cfg);
    ValidatorView {
        public_key: v.public_key,
        withdrawal_credentials: v.withdrawal_credentials,
        effective_balance: eb,
        slashed: v.slashed,
        activation_eligibility_epoch: if eb == cfg.max_effective_balance {
            GENESIS_EPOCH
        } else {
            v.activation_eligibility_epoch
        },
        activation_epoch: if eb == cfg.max_effective_balance {
            GENESIS_EPOCH
        } else {
            v.activation_epoch
        },
        exit_epoch: v.exit_epoch,
        withdrawable_epoch: v.withdrawable_epoch,
    }
}

/// The validator registry after the genesis finalization pass.
pub open spec fn finalized_registry(r: RegistryView, cfg: ChainConfiguration) -> Seq<
    ValidatorView,
> {
    Seq::new(r.validators.len(), |i: int| finalize_validator(r.validators[i], r.balances[i], cfg))
}

/// Recompute every validator's effective balance from its real balance and
/// activate, from slot 0, exactly those whose effective balance reaches the
/// configured maximum.
pub fn finalize_effective_balances(state: &mut ChainState, config: &ChainConfiguration)
    requires
        old(state).registry_wf(),
        config.wf(),
    ensures
        final(state).registry_wf(),
        final(state).validators.deep_view() == finalized_registry(
            state_registry(*old(state)),
            *config,
        ),
        final(state).balances@ == old(state).balances@,
        final(state).genesis_time == old(state).genesis_time,
        final(state).genesis_validators_root@ == old(state).genesis_validators_root@,
        final(state).fork@ == old(state).fork@,
        final(state).eth1_data@ == old(state).eth1_data@,
        final(state).latest_block_header@ == old(state).latest_block_header@,
        final(state).randao_mixes.deep_view() == old(state).randao_mixes.deep_view(),
        final(state).current_sync_committee@ == old(state).current_sync_committee@,
        final(state).next_sync_committee@ == old(state).next_sync_committee@,
{
    let ghost old_reg = state_registry(*old(state));
    let n = state.validators.len();
    let mut i: usize = 0;
    while i < n
        invariant
            i <= n,
            n == state.validators@.len(),
            config.wf(),
            state.balances@ == old(state).balances@,
            n == old(state).validators@.len(),
            n == state.balances@.len(),
            old_reg == state_registry(*old(state)),
            old(state).registry_wf(),
            forall|k: int|
                i <= k < n ==> (#[trigger] state.validators@[k])@ == old(
                    state,
                ).validators@[k]@,
            forall|k: int|
                0 <= k < i ==> (#[trigger] state.validators@[k])@ == finalize_validator(
                    old_reg.validators[k],
                    old_reg.balances[k],
                    *config,
                ),
            state.genesis_time == old(state).genesis_time,
            state.genesis_validators_root@ == old(state).genesis_validators_root@,
            state.fork@ == old(state).fork@,
            state.eth1_data@ == old(state).eth1_data@,
            state.latest_block_header@ == old(state).latest_block_header@,
            state.randao_mixes.deep_view() == old(state).randao_mixes.deep_view(),
            state.current_sync_committee@ == old(state).current_sync_committee@,
            state.next_sync_committee@ == old(state).next_sync_committee@,
        decreases n - i,
    {
        let balance = state.balances[i];
        let eb = compute_effective_balance(balance, config);
        let reaches_max = eb == config.max_effective_balance;
        let updated = Validator {
            public_key: state.validators[i].public_key.clone(),
            withdrawal_credentials: state.validators[i].withdrawal_credentials.clone(),
            effective_balance: eb,
            slashed: state.validators[i].slashed,
            activation_eligibility_epoch: if reaches_max {
                GENESIS_EPOCH
            } else {
                state.validators[i].activation_eligibility_epoch
            },
            activation_epoch: if reaches_max {
                GENESIS_EPOCH
            } else {
                state.validators[i].activation_epoch
            },
            exit_epoch: state.validators[i].exit_epoch,
            withdrawable_epoch: state.validators[i].withdrawable_epoch,
        };
        proof {
            assert(updated.public_key@ =~= state.validators@[i as int].public_key@);
            assert(updated.withdrawal_credentials@ =~= state.validators@[
                i as int
            ].withdrawal_credentials@);
            assert(updated@ == finalize_validator(
                old_reg.validators[i as int],
                old_reg.balances[i as int],
                *config,
            ));
        }
        state.validators[i] = updated;
        i = i + 1;
    }
    proof {
        assert(state.validators.deep_view() =~= finalized_registry(old_reg, *config));
        assert forall|a: int, b: int| 0 <= a < b < state.validators@.len() implies (
        #[trigger] state.validators@[a])@.public_key != (
        #[trigger] state.validators@[b])@.public_key by {
            assert(old(state).validators@[a]@.public_key != old(state).validators@[b]@.public_key);
        }
    }
}

/// A validator holding a duty at the genesis epoch: already activated and not
/// yet exited.
pub open spec fn active_at_genesis(v: ValidatorView) -> bool {
    v.activation_epoch <= GENESIS_EPOCH < v.exit_epoch
}

/// The public keys of the genesis-active validators, in registry order.
pub open spec fn active_keys(vs: Seq<ValidatorView>) -> Seq<Seq<u8>>
    decreases vs.len(),
{
    if vs.len() == 0 {
        Seq::empty()
    } else {
        active_keys(vs.drop_last()) + (if active_at_genesis(vs.last()) {
            seq![vs.last().public_key]
        } else {
            Seq::empty()
        })
    }
}

/// The genesis sync committee: the active validators' keys taken in registry
/// order, repeating from the start until every seat is filled; with no active
/// validator every seat holds the zero key.
pub open spec fn sync_committee_of(vs: Seq<ValidatorView>, size: nat) -> Seq<Seq<u8>> {
    let keys = active_keys(vs);
    Seq::new(
        size,
        |i: int|
            if keys.len() == 0 {
                zero_bytes(48)
            } else {
                keys[i % (keys.len() as int)]
            },
    )
}

/// Compute the genesis sync committee assignment from the finalized validator
/// registry.
pub fn derive_sync_committee(validators: &Vec<Validator>, config: &ChainConfiguration) -> (r:
    SyncCommittee)
    requires
        config.wf(),
    ensures
        r@.public_keys == sync_committee_of(
            validators.deep_view(),
            config.sync_committee_size as nat,
        ),
{
    let n = validators.len();
    let mut keys: Vec<Vec<u8>> = Vec::new();
    let mut i: usize = 0;
    while i < n
        invariant
            i <= n,
            n == validators@.len(),
            keys.deep_view() == active_keys(validators.deep_view().take(i as int)),
        decreases n - i,
    {
        let ghost prefix = validators.deep_view().take(i as int);
        let ghost next_prefix = validators.deep_view().take(i as int + 1);
        proof {
            assert(next_prefix.drop_last() =~= prefix);
            assert(next_prefix.last() == validators.deep_view()[i as int]);
        }
        if validators[i].activation_epoch <= GENESIS_EPOCH && GENESIS_EPOCH
            < validators[i].exit_epoch {
            let key = validators[i].public_key.clone();
            proof {
                assert(key@ =~= validators@[i as int].public_key@);
            }
            keys.push(key);
            proof {
                assert(keys.deep_view() =~~= active_keys(next_prefix));
            }
        } else {
            proof {
                assert(keys.deep_view() =~~= active_keys(next_prefix));
            }
        }
        i = i + 1;
    }
    proof {
        assert(validators.deep_view().take(n as int) =~= validators.deep_view());
    }
    let ghost all_keys = active_keys(validators.deep_view());
    let size = config.sync_committee_size;
    let mut committee: Vec<Vec<u8>> = Vec::new();
    if keys.len() == 0 {
        let mut j: u64 = 0;
        while j < size
            invariant
                j <= size,
                all_keys.len() == 0,
                committee@.len() == j,
                forall|t: int| 0 <= t < j ==> (#[trigger] committee@[t])@ == zero_bytes(48),
            decreases size - j,
        {
            let zero_key = crate::ssz::make_zero_bytes(48);
            committee.push(zero_key);
            j = j + 1;
        }
    } else {
        let klen = keys.len();
        let mut j: u64 = 0;
        while j < size
            invariant
                j <= size,
                klen == keys@.len(),
                klen > 0,
                keys.deep_view() == all_keys,
                committee@.len() == j,
                forall|t: int|
                    0 <= t < j ==> (#[trigger] committee@[t])@ == all_keys[t % (
                    all_keys.len() as int)],
            decreases size - j,
        {
            let idx = (j % (klen as u64)) as usize;
            let key = keys[idx].clone();
            proof {
                assert(key@ =~= keys@[idx as int]@);
                assert(keys@[idx as int].deep_view() =~= keys@[idx as int]@);
                assert(keys.deep_view()[idx as int] == keys@[idx as int].deep_view());
                assert(key@ == all_keys[(j as int) % (all_keys.len() as int)]);
            }
            committee.push(key);
            j = j + 1;
        }
    }
    let r = SyncCommittee { public_keys: committee };
    proof {
        let tgt = sync_committee_of(validators.deep_view(), config.sync_committee_size as nat);
        assert forall|t: int| 0 <= t < size implies r@.public_keys[t] == tgt[t] by {
            assert(committee@[t].deep_view() =~= committee@[t]@);
        }
        assert(r@.public_keys =~= tgt);
    }
    r
}


/// The data records of a deposit sequence, in order.
pub open spec fn deposit_views(ds: Seq<Deposit>) -> Seq<DepositDataView> {
    ds.map_values(|d: Deposit| d.data@)
}

/// The registry after the first k deposits have been offered in order, each
/// admitted when admissible and skipped otherwise (construction aborts at the
/// first skipped one, so the skipping case never reaches a returned state).
pub open spec fn registry_after(dd: Seq<DepositDataView>, limit: nat, k: int) -> RegistryView
    decreases k,
{
    if k <= 0 {
        empty_registry()
    } else {
        let prev = registry_after(dd, limit, k - 1);
        if deposit_admissible(prev, dd[k - 1], limit) {
            apply_deposit(prev, dd[k - 1])
        } else {
            prev
        }
    }
}

/// Genesis can admit deposit j: the deposit-tree leaf list still has room,
/// and the registry can take the deposit.
pub open spec fn genesis_step_ok(dd: Seq<DepositDataView>, cfg: ChainConfiguration, j: int) -> bool {
    &&& j < cfg.deposit_data_list_bound
    &&& deposit_admissible(
        registry_after(dd, cfg.validator_registry_limit as nat, j),
        dd[j],
        cfg.validator_registry_limit as nat,
    )
}

/// The first k genesis admissions all go through.
pub open spec fn genesis_ok_through(dd: Seq<DepositDataView>, cfg: ChainConfiguration, k: int) -> bool {
    forall|j: int| 0 <= j < k ==> #[trigger] genesis_step_ok(dd, cfg, j)
}

/// Step j tops up no balance past the integer bound, provided construction
/// reaches it.
pub open spec fn genesis_step_no_overflow(
    dd: Seq<DepositDataView>,
    cfg: ChainConfiguration,
    j: int,
) -> bool {
    genesis_ok_through(dd, cfg, j) ==> !deposit_overflows(
        registry_after(dd, cfg.validator_registry_limit as nat, j),
        dd[j],
    )
}

/// No genesis admission tops up a balance past the integer bound.
pub open spec fn genesis_no_overflow(dd: Seq<DepositDataView>, cfg: ChainConfiguration) -> bool {
    forall|j: int| 0 <= j < dd.len() ==> #[trigger] genesis_step_no_overflow(dd, cfg, j)
}

/// The folded registry always satisfies the registry invariants: as many
/// balances as validators, unique well-formed keys, and never more validators
/// than the registry bound.
pub proof fn lemma_registry_after_wf(dd: Seq<DepositDataView>, limit: nat, k: int)
    requires
        forall|j: int| 0 <= j < dd.len() ==> (#[trigger] dd[j]).wf(),
        k <= dd.len(),
    ensures
        registry_after(dd, limit, k).validators.len() == registry_after(
            dd,
            limit,
            k,
        ).balances.len(),
        registry_after(dd, limit, k).validators.len() <= limit,
        keys_unique(registry_after(dd, limit, k).validators),
        forall|i: int|
            0 <= i < registry_after(dd, limit, k).validators.len() ==> (#[trigger] registry_after(
                dd,
                limit,
                k,
            ).validators[i]).wf(),
        forall|i: int|
            0 <= i < registry_after(dd, limit, k).validators.len() ==> (#[trigger] registry_after(
                dd,
                limit,
                k,
            ).validators[i]).activation_epoch == FAR_FUTURE_EPOCH && registry_after(
                dd,
                limit,
                k,
            ).validators[i].activation_eligibility_epoch == FAR_FUTURE_EPOCH
                && registry_after(dd, limit, k).validators[i].exit_epoch == FAR_FUTURE_EPOCH,
    decreases k,
{
    if k > 0 {
        lemma_registry_after_wf(dd, limit, k - 1);
    }
}


/// An exact copy of a deposit-data record.
fn clone_deposit_data(d: &DepositData) -> (r: DepositData)
    ensures
        r@ == d@,
{
    let r = DepositData {
        public_key: d.public_key.clone(),
        withdrawal_credentials: d.withdrawal_credentials.clone(),
        amount: d.amount,
        signature: d.signature.clone(),
    };
    proof {
        assert(r.public_key@ =~= d.public_key@);
        assert(r.withdrawal_credentials@ =~= d.withdrawal_credentials@);
        assert(r.signature@ =~= d.signature@);
    }
    r
}

/// Admit one deposit during genesis construction: append its data to the
/// deposit-tree leaf list, record the Merkle root of exactly the leaves
/// admitted so far, then run the deposit processor. The recorded root covers
/// every prefix, not just the final list: later consumers may reference the
/// deposit tree at an intermediate size.
pub fn admit_genesis_deposit(
    state: &mut ChainState,
    leaves: &mut Vec<DepositData>,
    deposit: &Deposit,
    config: &ChainConfiguration,
) -> (r: Result<(), Error>)
    requires
        old(state).registry_wf(),
        config.wf(),
        deposit.data@.wf(),
        forall|i: int| 0 <= i < old(leaves)@.len() ==> (#[trigger] old(leaves)@[i])@.wf(),
        !deposit_overflows(state_registry(*old(state)), deposit.data@),
    ensures
        final(state).registry_wf(),
        forall|i: int| 0 <= i < final(leaves)@.len() ==> (#[trigger] final(leaves)@[i])@.wf(),
        (old(leaves)@.len() < config.deposit_data_list_bound && deposit_admissible(
            state_registry(*old(state)),
            deposit.data@,
            config.validator_registry_limit as nat,
        )) ==> {
            &&& r is Ok
            &&& final(leaves).deep_view() == old(leaves).deep_view().push(deposit.data@)
            &&& state_registry(*final(state)) == apply_deposit(
                state_registry(*old(state)),
                deposit.data@,
            )
            &&& final(state).eth1_data@.deposit_root == deposit_list_root_of(
                final(leaves).deep_view(),
                config.deposit_data_list_bound as nat,
            )
            &&& final(state).eth1_data@.deposit_count == old(state).eth1_data@.deposit_count
            &&& final(state).eth1_data@.block_hash == old(state).eth1_data@.block_hash
        },
        !(old(leaves)@.len() < config.deposit_data_list_bound && deposit_admissible(
            state_registry(*old(state)),
            deposit.data@,
            config.validator_registry_limit as nat,
        )) ==> r == Err::<(), Error>(Error::CapacityExceeded) && state_registry(*final(state))
            == state_registry(*old(state)),
        final(state).genesis_time == old(state).genesis_time,
        final(state).genesis_validators_root@ == old(state).genesis_validators_root@,
        final(state).fork@ == old(state).fork@,
        final(state).latest_block_header@ == old(state).latest_block_header@,
        final(state).randao_mixes.deep_view() == old(state).randao_mixes.deep_view(),
        final(state).current_sync_committee@ == old(state).current_sync_committee@,
        final(state).next_sync_committee@ == old(state).next_sync_committee@,
{
    if !(( leaves.len() as u64) < config.deposit_data_list_bound) {
        return Err(Error::CapacityExceeded);
    }
    let data_clone = clone_deposit_data(&deposit.data);
    leaves.push(data_clone);
    proof {
        assert(leaves.deep_view() =~= old(leaves).deep_view().push(deposit.data@));
    }
    let root = deposit_list_root(leaves, config.deposit_data_list_bound);
    state.eth1_data.deposit_root = root;
    let outcome = process_deposit(state, deposit, config);
    match outcome {
        Ok(()) => Ok(()),
        Err(e) => Err(e),
    }
}

/// What the sealed genesis state looks like, given the anchor block hash and
/// timestamp, the deposit data in order, and the configuration.
pub open spec fn is_genesis_state(
    s: ChainState,
    eth1_block_hash: Seq<u8>,
    eth1_timestamp: u64,
    dd: Seq<DepositDataView>,
    cfg: ChainConfiguration,
) -> bool {
    let reg = registry_after(dd, cfg.validator_registry_limit as nat, dd.len() as int);
    let finalv = finalized_registry(reg, cfg);
    &&& s.genesis_time == eth1_timestamp + cfg.genesis_delay
    &&& s.fork@.previous_version == cfg.genesis_fork_version@
    &&& s.fork@.current_version == cfg.genesis_fork_version@
    &&& s.fork@.epoch == GENESIS_EPOCH
    &&& s.eth1_data@.block_hash == eth1_block_hash
    &&& s.eth1_data@.deposit_count == dd.len()
    &&& s.eth1_data@.deposit_root == deposit_list_root_of(dd, cfg.deposit_data_list_bound as nat)
    &&& s.latest_block_header@.slot == 0
    &&& s.latest_block_header@.proposer_index == 0
    &&& s.latest_block_header@.parent_root == zero_bytes(32)
    &&& s.latest_block_header@.state_root == zero_bytes(32)
    &&& s.latest_block_header@.body_root == default_body_root_of(cfg)
    &&& s.randao_mixes.deep_view() == Seq::new(
        cfg.epochs_per_historical_vector as nat,
        |i: int| eth1_block_hash,
    )
    &&& s.validators.deep_view() == finalv
    &&& s.balances@ == reg.balances
    &&& s.genesis_validators_root@ == registry_root_of(
        finalv,
        cfg.validator_registry_limit as nat,
    )
    &&& s.current_sync_committee@.public_keys == sync_committee_of(
        finalv,
        cfg.sync_committee_size as nat,
    )
    &&& s.next_sync_committee@ == s.current_sync_committee@
    &&& s.registry_wf()
}

/// Build the canonical genesis state from an eth1 anchor block and an ordered
/// deposit sequence: set up the fork, eth1 summary, genesis block header and
/// randao seed, admit each deposit in input order while recording the deposit
/// root of every prefix, finalize effective balances and activations, seal
/// the validator-registry root, and assign the sync committee to both the
/// current and the next slot. Fails, discarding the partial state, exactly
/// when a capacity bound is exceeded.
pub fn initialize_beacon_state_from_eth1(
    eth1_block_hash: &Vec<u8>,
    eth1_timestamp: u64,
    deposits: &Vec<Deposit>,
    config: &ChainConfiguration,
) -> (r: Result<ChainState, Error>)
    requires
        config.wf(),
        eth1_block_hash@.len() == 32,
        eth1_timestamp + config.genesis_delay <= u64::MAX,
        forall|i: int| 0 <= i < deposits@.len() ==> (#[trigger] deposits@[i]).data@.wf(),
        genesis_no_overflow(deposit_views(deposits@), *config),
    ensures
        r is Ok <==> genesis_ok_through(
            deposit_views(deposits@),
            *config,
            deposits@.len() as int,
        ),
        r matches Ok(s) ==> is_genesis_state(
            s,
            eth1_block_hash@,
            eth1_timestamp,
            deposit_views(deposits@),
            *config,
        ),
        r is Err ==> r == Err::<ChainState, Error>(Error::CapacityExceeded),
{
    let ghost dd = deposit_views(deposits@);
    let ghost limit = config.validator_registry_limit as nat;
    let fork = Fork {
        previous_version: config.genesis_fork_version.clone(),
        current_version: config.genesis_fork_version.clone(),
        epoch: GENESIS_EPOCH,
    };
    proof {
        assert(fork.previous_version@ =~= config.genesis_fork_version@);
        assert(fork.current_version@ =~= config.genesis_fork_version@);
    }
    let mut leaves: Vec<DepositData> = Vec::new();
    let empty_root = deposit_list_root(&leaves, config.deposit_data_list_bound);
    let eth1_data = Eth1Data {
        deposit_root: empty_root,
        deposit_count: deposits.len() as u64,
        block_hash: eth1_block_hash.clone(),
    };
    proof {
        assert(eth1_data.block_hash@ =~= eth1_block_hash@);
    }
    let body_root = default_body_root(config);
    let latest_block_header = BeaconBlockHeader {
        slot: 0,
        proposer_index: 0,
        parent_root: crate::ssz::make_zero_bytes(32),
        state_root: crate::ssz::make_zero_bytes(32),
        body_root,
    };
    let mut randao_mixes: Vec<Vec<u8>> = Vec::new();
    let epochs = config.epochs_per_historical_vector;
    let mut e: u64 = 0;
    while e < epochs
        invariant
            e <= epochs,
            randao_mixes@.len() == e,
            forall|t: int| 0 <= t < e ==> (#[trigger] randao_mixes@[t])@ == eth1_block_hash@,
        decreases epochs - e,
    {
        let mix = eth1_block_hash.clone();
        proof {
            assert(mix@ =~= eth1_block_hash@);
        }
        randao_mixes.push(mix);
        e = e + 1;
    }
    proof {
        assert forall|t: int| 0 <= t < epochs implies randao_mixes.deep_view()[t]
            == eth1_block_hash@ by {
            assert(randao_mixes@[t].deep_view() =~= randao_mixes@[t]@);
        }
        assert(randao_mixes.deep_view() =~= Seq::new(
            config.epochs_per_historical_vector as nat,
            |i: int| eth1_block_hash@,
        ));
    }
    let mut state = ChainState {
        genesis_time: eth1_timestamp + config.genesis_delay,
        genesis_validators_root: crate::ssz::make_zero_bytes(32),
        fork,
        eth1_data,
        latest_block_header,
        randao_mixes,
        validators: Vec::new(),
        balances: Vec::new(),
        current_sync_committee: SyncCommittee { public_keys: Vec::new() },
        next_sync_committee: SyncCommittee { public_keys: Vec::new() },
    };
    let ghost st0 = state;
    proof {
        assert(state.validators.deep_view() =~= empty_registry().validators);
        assert(state.balances@ =~= empty_registry().balances);
        assert(state_registry(state) == empty_registry());
        assert(leaves.deep_view() =~= dd.take(0));
    }
    let n = deposits.len();
    let mut i: usize = 0;
    while i < n
        invariant
            i <= n,
            n == deposits@.len(),
            config.wf(),
            dd == deposit_views(deposits@),
            dd.len() == n,
            limit == config.validator_registry_limit as nat,
            forall|k: int| 0 <= k < deposits@.len() ==> (#[trigger] deposits@[k]).data@.wf(),
            genesis_no_overflow(dd, *config),
            state.registry_wf(),
            genesis_ok_through(dd, *config, i as int),
            state_registry(state) == registry_after(dd, limit, i as int),
            leaves@.len() == i,
            leaves.deep_view() == dd.take(i as int),
            forall|k: int| 0 <= k < leaves@.len() ==> (#[trigger] leaves@[k])@.wf(),
            state.eth1_data@.deposit_root == deposit_list_root_of(
                dd.take(i as int),
                config.deposit_data_list_bound as nat,
            ),
            state.eth1_data@.deposit_count == st0.eth1_data@.deposit_count,
            state.eth1_data@.block_hash == st0.eth1_data@.block_hash,
            state.genesis_time == st0.genesis_time,
            state.genesis_validators_root@ == st0.genesis_validators_root@,
            state.fork@ == st0.fork@,
            state.latest_block_header@ == st0.latest_block_header@,
            state.randao_mixes.deep_view() == st0.randao_mixes.deep_view(),
            state.current_sync_committee@ == st0.current_sync_committee@,
            state.next_sync_committee@ == st0.next_sync_committee@,
        decreases n - i,
    {
        proof {
            assert(genesis_step_no_overflow(dd, *config, i as int));
            assert(dd[i as int] == deposits@[i as int].data@);
        }
        let outcome = admit_genesis_deposit(&mut state, &mut leaves, &deposits[i], config);
        match outcome {
            Ok(()) => {
                proof {
                    assert(genesis_step_ok(dd, *config, i as int));
                    assert forall|j: int| 0 <= j < i as int + 1 implies #[trigger] genesis_step_ok(
                        dd,
                        *config,
                        j,
                    ) by {
                        if j < i as int {
                            assert(genesis_ok_through(dd, *config, i as int));
                        }
                    }
                    assert(state_registry(state) == registry_after(dd, limit, i as int + 1));
                    assert(leaves.deep_view() =~= dd.take(i as int + 1));
                }
            },
            Err(_) => {
                proof {
                    assert(!genesis_step_ok(dd, *config, i as int));
                    assert(!genesis_ok_through(dd, *config, n as int));
                }
                return Err(Error::CapacityExceeded);
            },
        }
        i = i + 1;
    }
    proof {
        assert(dd.take(n as int) =~= dd);
        lemma_registry_after_wf(dd, limit, n as int);
    }
    finalize_effective_balances(&mut state, config);
    proof {
        assert forall|k: int| 0 <= k < state.validators@.len() implies (
        #[trigger] state.validators@[k])@.wf() by {}
        assert(state.validators@.len() <= config.validator_registry_limit);
    }
    let gvr = validator_registry_root(&state.validators, config.validator_registry_limit);
    state.genesis_validators_root = gvr;
    // The two committee slots are identical only at genesis; later
    // transitions diverge them.
    let current_committee = derive_sync_committee(&state.validators, config);
    let next_committee = derive_sync_committee(&state.validators, config);
    state.current_sync_committee = current_committee;
    state.next_sync_committee = next_committee;
    proof {
        assert(genesis_ok_through(dd, *config, dd.len() as int));
        assert(is_genesis_state(state, eth1_block_hash@, eth1_timestamp, dd, *config));
    }
    Ok(state)
}


/// The activation gate: in a sealed genesis registry, a validator's
/// activation epoch is the genesis epoch if and only if its finalized
/// effective balance reaches the configured maximum; otherwise both
/// activation fields keep the far-future sentinel.
pub proof fn lemma_activation_gate(dd: Seq<DepositDataView>, cfg: ChainConfiguration, i: int)
    requires
        forall|j: int| 0 <= j < dd.len() ==> (#[trigger] dd[j]).wf(),
        0 <= i < finalized_registry(
            registry_after(dd, cfg.validator_registry_limit as nat, dd.len() as int),
            cfg,
        ).len(),
    ensures
        ({
            let v = finalized_registry(
                registry_after(dd, cfg.validator_registry_limit as nat, dd.len() as int),
                cfg,
            )[i];
            &&& (v.activation_epoch == GENESIS_EPOCH <==> v.effective_balance
                == cfg.max_effective_balance)
            &&& (v.effective_balance != cfg.max_effective_balance ==> v.activation_epoch
                == FAR_FUTURE_EPOCH && v.activation_eligibility_epoch == FAR_FUTURE_EPOCH)
        }),
{
    lemma_registry_after_wf(dd, cfg.validator_registry_limit as nat, dd.len() as int);
}

/// Two deposits for one public key merge: offered to an empty registry in
/// order, they register exactly one validator whose balance entry is the sum
/// of the two amounts.
pub proof fn lemma_same_key_two_deposits(
    d1: DepositDataView,
    d2: DepositDataView,
    limit: nat,
)
    requires
        d1.public_key == d2.public_key,
        d1.amount + d2.amount <= u64::MAX,
        1 <= limit,
    ensures
        registry_after(seq![d1, d2], limit, 2).validators.len() == 1,
        registry_after(seq![d1, d2], limit, 2).balances =~= seq![
            (d1.amount + d2.amount) as u64,
        ],
        registry_after(seq![d1, d2], limit, 2).validators[0] == fresh_validator(d1),
{
    let dd = seq![d1, d2];
    let r0 = empty_registry();
    assert(registry_after(dd, limit, 0) == r0);
    assert(!has_public_key(r0.validators, d1.public_key));
    let r1 = registry_after(dd, limit, 1);
    assert(r1 == apply_deposit(r0, d1));
    assert(r1.validators =~= seq![fresh_validator(d1)]);
    assert(r1.balances =~= seq![d1.amount]);
    assert(r1.validators[0].public_key == d2.public_key);
    crate::registry::lemma_index_of_public_key(r1.validators, d2.public_key, 0);
    let r2 = registry_after(dd, limit, 2);
    assert(r2 == apply_deposit(r1, d2));
    assert(r2.balances =~= seq![(d1.amount + d2.amount) as u64]);
}

} // verus!
