//! The deposit processor: admitting one deposit into the in-progress state,
//! registering a new validator or topping up a known one.

use vstd::prelude::*;

use crate::config::ChainConfiguration;
use crate::errors::Error;
use crate::types::{fresh_validator, ChainState, Deposit, DepositDataView, Validator, ValidatorView};

verus! {

/// The registry half of a chain state: the validators and their balances.
pub ghost struct RegistryView {
    pub validators: Seq<ValidatorView>,
    pub balances: Seq<u64>,
}

/// The registry carried by a state.
pub open spec fn state_registry(s: ChainState) -> RegistryView {
    RegistryView { validators: s.validators.deep_view(), balances: s.balances@ }
}

/// The registry before any deposit is admitted.
pub open spec fn empty_registry() -> RegistryView {
    RegistryView { validators: seq![], balances: seq![] }
}

/// Some validator holds this public key.
pub open spec fn has_public_key(vs: Seq<ValidatorView>, pk: Seq<u8>) -> bool {
    exists|i: int| 0 <= i < vs.len() && (#[trigger] vs[i]).public_key == pk
}

/// The index at which this public key is registered (meaningful only when it
/// is registered, and unique under the registry invariant).
pub open spec fn index_of_public_key(vs: Seq<ValidatorView>, pk: Seq<u8>) -> int {
    choose|i: int| 0 <= i < vs.len() && (#[trigger] vs[i]).public_key == pk
}

/// Public keys are registered at most once.
pub open spec fn keys_unique(vs: Seq<ValidatorView>) -> bool {
    forall|a: int, b: int|
        0 <= a < b < vs.len() ==> (#[trigger] vs[a]).public_key != (#[trigger] vs[b]).public_key
}

/// Under unique keys, any index holding the key is the registered index.
pub proof fn lemma_index_of_public_key(vs: Seq<ValidatorView>, pk: Seq<u8>, i: int)
    requires
        keys_unique(vs),
        0 <= i < vs.len(),
        vs[i].public_key == pk,
    ensures
        has_public_key(vs, pk),
        index_of_public_key(vs, pk) == i,
{
    assert(has_public_key(vs, pk));
    let j = index_of_public_key(vs, pk);
    assert(0 <= j < vs.len() && vs[j].public_key == pk);
}

/// Topping up this deposit would overflow the target balance. Such inputs are
/// outside the processor's contract, as the underlying balance addition does
/// not saturate.
pub open spec fn deposit_overflows(r: RegistryView, d: DepositDataView) -> bool {
    has_public_key(r.validators, d.public_key) && r.balances[index_of_public_key(
        r.validators,
        d.public_key,
    )] + d.amount > u64::MAX
}

/// The deposit can be admitted: its key is already registered (a top-up), or
/// the registry has room for one more validator.
pub open spec fn deposit_admissible(r: RegistryView, d: DepositDataView, limit: nat) -> bool {
    has_public_key(r.validators, d.public_key) || r.validators.len() < limit
}

/// The registry after admitting one deposit: a known key has the amount added
/// to its balance entry, an unknown key appends a fresh validator and a fresh
/// balance entry.
pub open spec fn apply_deposit(r: RegistryView, d: DepositDataView) -> RegistryView {
    if has_public_key(r.validators, d.public_key) {
        let i = index_of_public_key(r.validators, d.public_key);
        RegistryView {
            validators: r.validators,
            balances: r.balances.update(i, (r.balances[i] + d.amount) as u64),
        }
    } else {
        RegistryView {
            validators: r.validators.push(fresh_validator(d)),
            balances: r.balances.push(d.amount),
        }
    }
}

/// Admit one deposit into the state: identify the target validator by public
/// key; top up a known key's balance, register an unknown key as a fresh
/// validator (far-future epochs) with the amount as its balance. Fails, and
/// leaves the state unchanged, exactly when an unknown key finds the registry
/// at its capacity bound.
///
/// Deposit signatures are not checked here: genesis treats deposits as
/// pre-validated by the anchor block. Outside genesis the same routine is
/// preceded by a signature check whose failure rejects the one deposit.
pub fn process_deposit(
    state: &mut ChainState,
    deposit: &Deposit,
    config: &ChainConfiguration,
) -> (r: Result<(), Error>)
    requires
        old(state).registry_wf(),
        deposit.data@.wf(),
        config.wf(),
        !deposit_overflows(state_registry(*old(state)), deposit.data@),
    ensures
        final(state).registry_wf(),
        deposit_admissible(
            state_registry(*old(state)),
            deposit.data@,
            config.validator_registry_limit as nat,
        ) ==> r is Ok && state_registry(*final(state)) == apply_deposit(
            state_registry(*old(state)),
            deposit.data@,
        ),
        !deposit_admissible(
            state_registry(*old(state)),
            deposit.data@,
            config.validator_registry_limit as nat,
        ) ==> r == Err::<(), Error>(Error::CapacityExceeded) && state_registry(*final(state))
            == state_registry(*old(state)),
        final(state).validators@.len() <= old(state).validators@.len() + 1,
        final(state).genesis_time == old(state).genesis_time,
        final(state).genesis_validators_root@ == old(state).genesis_validators_root@,
        final(state).fork@ == old(state).fork@,
        final(state).eth1_data@ == old(state).eth1_data@,
        final(state).latest_block_header@ == old(state).latest_block_header@,
        final(state).randao_mixes.deep_view() == old(state).randao_mixes.deep_view(),
        final(state).current_sync_committee@ == old(state).current_sync_committee@,
        final(state).next_sync_committee@ == old(state).next_sync_committee@,
{
    let ghost old_reg = state_registry(*old(state));
    let pk = &deposit.data.public_key;
    let n = state.validators.len();
    let mut i: usize = 0;
    let mut found: bool = false;
    while i < n && !found
        invariant
            n == state.validators@.len(),
            i <= n,
            *state == *old(state),
            pk == &deposit.data.public_key,
            !found ==> forall|k: int|
                0 <= k < i ==> (#[trigger] state.validators@[k])@.public_key != pk@,
            found ==> i < n && state.validators@[i as int]@.public_key == pk@,
        decreases n - i + (if found { 0int } else { 1int }),
    {
        if &state.validators[i].public_key == pk {
            found = true;
        } else {
            i = i + 1;
        }
    }
    if found {
        proof {
            lemma_index_of_public_key(old_reg.validators, pk@, i as int);
        }
        let current = state.balances[i];
        state.balances[i] = current + deposit.data.amount;
        proof {
            assert(state_registry(*state).validators =~= old_reg.validators);
            assert(state_registry(*state).balances =~= apply_deposit(
                old_reg,
                deposit.data@,
            ).balances);
        }
        Ok(())
    } else {
        assert(!has_public_key(old_reg.validators, deposit.data@.public_key));
        if (n as u64) < config.validator_registry_limit {
            let new_validator = Validator {
                public_key: deposit.data.public_key.clone(),
                withdrawal_credentials: deposit.data.withdrawal_credentials.clone(),
                effective_balance: 0,
                slashed: false,
                activation_eligibility_epoch: crate::FAR_FUTURE_EPOCH,
                activation_epoch: crate::FAR_FUTURE_EPOCH,
                exit_epoch: crate::FAR_FUTURE_EPOCH,
                withdrawable_epoch: crate::FAR_FUTURE_EPOCH,
            };
            proof {
                assert(new_validator.public_key@ =~= deposit.data.public_key@);
                assert(new_validator.withdrawal_credentials@
                    =~= deposit.data.withdrawal_credentials@);
            }
            state.validators.push(new_validator);
            state.balances.push(deposit.data.amount);
            proof {
                assert(state_registry(*state).validators =~= apply_deposit(
                    old_reg,
                    deposit.data@,
                ).validators);
                assert(state_registry(*state).balances =~= apply_deposit(
                    old_reg,
                    deposit.data@,
                ).balances);
            }
            Ok(())
        } else {
            Err(Error::CapacityExceeded)
        }
    }
}

} // verus!
