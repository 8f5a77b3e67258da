//! Merkle roots of the consensus containers: deposit data, validators, the
//! bounded lists over them, and the default block body of the genesis header.

use vstd::prelude::*;
use vstd::arithmetic::power2::{pow2, lemma2_to64, lemma2_to64_rest};

use crate::config::ChainConfiguration;
use crate::merkle::{
    bool_chunk, chunks_sized, depth_for, lemma_pow2_le, log2_ceil, make_bool_chunk,
    make_packed_chunks, make_u64_chunk, make_zero_chunk, make_zero_subtree_root, mix_in_length,
    mix_length, pack_chunks, subtree_root, u64_le_chunk, views_of, window_subtree_root, zero_chunk,
    zero_subtree_root,
};
use crate::types::{DepositData, DepositDataView, Validator, ValidatorView};

verus! {

/// A byte sequence of zeroes.
pub open spec fn zero_bytes(n: nat) -> Seq<u8> {
    Seq::new(n, |i: int| 0u8)
}

/// The root of a deposit-data container: public key, withdrawal credentials,
/// amount and signature, each reduced to a 32-byte node.
pub open spec fn deposit_data_root_of(d: DepositDataView) -> Seq<u8> {
    subtree_root(
        seq![
            subtree_root(pack_chunks(d.public_key), 1),
            d.withdrawal_credentials,
            u64_le_chunk(d.amount),
            subtree_root(pack_chunks(d.signature), 2),
        ],
        2,
    )
}

/// Compute the root of one deposit-data record.
pub fn deposit_data_root(d: &DepositData) -> (r: Vec<u8>)
    requires
        d@.wf(),
    ensures
        r@ == deposit_data_root_of(d@),
        r@.len() == 32,
{
    proof {
        lemma2_to64();
    }
    let pk_chunks = make_packed_chunks(&d.public_key);
    let pk_root = window_subtree_root(&pk_chunks, 0, pk_chunks.len(), 1);
    let sig_chunks = make_packed_chunks(&d.signature);
    let sig_root = window_subtree_root(&sig_chunks, 0, sig_chunks.len(), 2);
    let amount_chunk = make_u64_chunk(d.amount);
    let wc = d.withdrawal_credentials.clone();
    proof {
        assert(views_of(pk_chunks@).subrange(0, pk_chunks@.len() as int) =~= pack_chunks(
            d.public_key@,
        ));
        assert(views_of(sig_chunks@).subrange(0, sig_chunks@.len() as int) =~= pack_chunks(
            d.signature@,
        ));
        assert(wc@ =~= d.withdrawal_credentials@);
    }
    let mut fields: Vec<Vec<u8>> = Vec::new();
    fields.push(pk_root);
    fields.push(wc);
    fields.push(amount_chunk);
    fields.push(sig_root);
    let r = window_subtree_root(&fields, 0, 4, 2);
    proof {
        assert(views_of(fields@).subrange(0, 4) =~= seq![
            subtree_root(pack_chunks(d@.public_key), 1),
            d@.withdrawal_credentials,
            u64_le_chunk(d@.amount),
            subtree_root(pack_chunks(d@.signature), 2),
        ]);
    }
    r
}

/// The root of a validator container: its eight fields, each reduced to a
/// 32-byte node.
pub open spec fn validator_root_of(v: ValidatorView) -> Seq<u8> {
    subtree_root(
        seq![
            subtree_root(pack_chunks(v.public_key), 1),
            v.withdrawal_credentials,
            u64_le_chunk(v.effective_balance),
            bool_chunk(v.slashed),
            u64_le_chunk(v.activation_eligibility_epoch),
            u64_le_chunk(v.activation_epoch),
            u64_le_chunk(v.exit_epoch),
            u64_le_chunk(v.withdrawable_epoch),
        ],
        3,
    )
}

/// Compute the root of one validator record.
pub fn validator_root(v: &Validator) -> (r: Vec<u8>)
    requires
        v@.wf(),
    ensures
        r@ == validator_root_of(v@),
        r@.len() == 32,
{
    proof {
        lemma2_to64();
    }
    let pk_chunks = make_packed_chunks(&v.public_key);
    let pk_root = window_subtree_root(&pk_chunks, 0, pk_chunks.len(), 1);
    let wc = v.withdrawal_credentials.clone();
    proof {
        assert(views_of(pk_chunks@).subrange(0, pk_chunks@.len() as int) =~= pack_chunks(
            v.public_key@,
        ));
        assert(wc@ =~= v.withdrawal_credentials@);
    }
    let mut fields: Vec<Vec<u8>> = Vec::new();
    fields.push(pk_root);
    fields.push(wc);
    fields.push(make_u64_chunk(v.effective_balance));
    fields.push(make_bool_chunk(v.slashed));
    fields.push(make_u64_chunk(v.activation_eligibility_epoch));
    fields.push(make_u64_chunk(v.activation_epoch));
    fields.push(make_u64_chunk(v.exit_epoch));
    fields.push(make_u64_chunk(v.withdrawable_epoch));
    let r = window_subtree_root(&fields, 0, 8, 3);
    proof {
        assert(views_of(fields@).subrange(0, 8) =~= seq![
            subtree_root(pack_chunks(v@.public_key), 1),
            v@.withdrawal_credentials,
            u64_le_chunk(v@.effective_balance),
            bool_chunk(v@.slashed),
            u64_le_chunk(v@.activation_eligibility_epoch),
            u64_le_chunk(v@.activation_epoch),
            u64_le_chunk(v@.exit_epoch),
            u64_le_chunk(v@.withdrawable_epoch),
        ]);
    }
    r
}

/// The root of the deposit-data list at a tree depth fixed by the list's
/// capacity bound: the subtree over the element roots, length mixed in.
pub open spec fn deposit_list_root_of(leaves: Seq<DepositDataView>, bound: nat) -> Seq<u8> {
    mix_in_length(
        subtree_root(
            leaves.map_values(|d: DepositDataView| deposit_data_root_of(d)),
            log2_ceil(bound),
        ),
        leaves.len() as u64,
    )
}

/// Compute the root of the deposit-data list admitted so far.
pub fn deposit_list_root(leaves: &Vec<DepositData>, bound: u64) -> (r: Vec<u8>)
    requires
        1 <= bound <= 0x4000_0000_0000_0000,
        leaves@.len() <= bound,
        forall|i: int| 0 <= i < leaves@.len() ==> (#[trigger] leaves@[i])@.wf(),
    ensures
        r@ == deposit_list_root_of(leaves.deep_view(), bound as nat),
        r@.len() == 32,
{
    let depth = depth_for(bound);
    proof {
        crate::merkle::lemma_depth_bound(depth as nat, bound as nat);
    }
    let mut roots: Vec<Vec<u8>> = Vec::new();
    let mut i: usize = 0;
    while i < leaves.len()
        invariant
            i <= leaves@.len(),
            forall|k: int| 0 <= k < leaves@.len() ==> (#[trigger] leaves@[k])@.wf(),
            roots@.len() == i,
            forall|k: int|
                0 <= k < i ==> (#[trigger] roots@[k])@ == deposit_data_root_of(leaves@[k]@),
            chunks_sized(roots@, 0, i as int),
        decreases leaves@.len() - i,
    {
        let r = deposit_data_root(&leaves[i]);
        roots.push(r);
        i = i + 1;
    }
    let contents = window_subtree_root(&roots, 0, roots.len(), depth);
    proof {
        assert(views_of(roots@).subrange(0, roots@.len() as int) =~= leaves.deep_view().map_values(
            |d: DepositDataView| deposit_data_root_of(d),
        ));
    }
    mix_length(&contents, leaves.len() as u64)
}

/// The root of the validator registry at a tree depth fixed by the registry's
/// capacity bound: the subtree over the validator roots, length mixed in.
pub open spec fn registry_root_of(validators: Seq<ValidatorView>, bound: nat) -> Seq<u8> {
    mix_in_length(
        subtree_root(
            validators.map_values(|v: ValidatorView| validator_root_of(v)),
            log2_ceil(bound),
        ),
        validators.len() as u64,
    )
}

/// Compute the root of the validator registry.
pub fn validator_registry_root(validators: &Vec<Validator>, bound: u64) -> (r: Vec<u8>)
    requires
        1 <= bound <= 0x4000_0000_0000_0000,
        validators@.len() <= bound,
        forall|i: int| 0 <= i < validators@.len() ==> (#[trigger] validators@[i])@.wf(),
    ensures
        r@ == registry_root_of(validators.deep_view(), bound as nat),
        r@.len() == 32,
{
    let depth = depth_for(bound);
    proof {
        crate::merkle::lemma_depth_bound(depth as nat, bound as nat);
    }
    let mut roots: Vec<Vec<u8>> = Vec::new();
    let mut i: usize = 0;
    while i < validators.len()
        invariant
            i <= validators@.len(),
            forall|k: int| 0 <= k < validators@.len() ==> (#[trigger] validators@[k])@.wf(),
            roots@.len() == i,
            forall|k: int|
                0 <= k < i ==> (#[trigger] roots@[k])@ == validator_root_of(validators@[k]@),
            chunks_sized(roots@, 0, i as int),
        decreases validators@.len() - i,
    {
        let r = validator_root(&validators[i]);
        roots.push(r);
        i = i + 1;
    }
    let contents = window_subtree_root(&roots, 0, roots.len(), depth);
    proof {
        assert(views_of(roots@).subrange(0, roots@.len() as int)
            =~= validators.deep_view().map_values(|v: ValidatorView| validator_root_of(v)));
    }
    mix_length(&contents, validators.len() as u64)
}

/// The number of 256-bit chunks of a bitvector of the given length.
pub open spec fn bitvector_chunk_count(bits: nat) -> nat {
    (bits + 255) / 256
}

/// The root of a default (all-zero) sync aggregate: an all-false duty
/// bitvector and a zero signature.
pub open spec fn default_sync_aggregate_root_of(committee_size: nat) -> Seq<u8> {
    subtree_root(
        seq![
            subtree_root(
                Seq::new(bitvector_chunk_count(committee_size), |i: int| zero_chunk()),
                log2_ceil(bitvector_chunk_count(committee_size)),
            ),
            subtree_root(pack_chunks(zero_bytes(96)), 2),
        ],
        1,
    )
}

/// The root of a default (empty) block body for the genesis fork: zeroed
/// randao reveal, eth1 data and graffiti, every operation list empty, and a
/// default sync aggregate.
pub open spec fn default_body_root_of(cfg: ChainConfiguration) -> Seq<u8> {
    subtree_root(
        seq![
            subtree_root(pack_chunks(zero_bytes(96)), 2),
            subtree_root(seq![zero_chunk(), u64_le_chunk(0), zero_chunk()], 2),
            zero_chunk(),
            mix_in_length(zero_subtree_root(log2_ceil(cfg.max_proposer_slashings as nat)), 0),
            mix_in_length(zero_subtree_root(log2_ceil(cfg.max_attester_slashings as nat)), 0),
            mix_in_length(zero_subtree_root(log2_ceil(cfg.max_attestations as nat)), 0),
            mix_in_length(zero_subtree_root(log2_ceil(cfg.max_deposits as nat)), 0),
            mix_in_length(zero_subtree_root(log2_ceil(cfg.max_voluntary_exits as nat)), 0),
            default_sync_aggregate_root_of(cfg.sync_committee_size as nat),
        ],
        4,
    )
}

/// A fresh vector of n zero bytes.
pub fn make_zero_bytes(n: usize) -> (r: Vec<u8>)
    ensures
        r@ == zero_bytes(n as nat),
{
    let mut r: Vec<u8> = Vec::new();
    let mut i: usize = 0;
    while i < n
        invariant
            i <= n,
            r@.len() == i,
            forall|j: int| 0 <= j < i ==> r@[j] == 0u8,
        decreases n - i,
    {
        r.push(0u8);
        i = i + 1;
    }
    assert(r@ =~= zero_bytes(n as nat));
    r
}

/// The root of an empty bounded list with the given capacity bound.
fn empty_list_root(bound: u64) -> (r: Vec<u8>)
    requires
        1 <= bound <= 0x4000_0000_0000_0000,
    ensures
        r@ == mix_in_length(zero_subtree_root(log2_ceil(bound as nat)), 0),
        r@.len() == 32,
{
    let depth = depth_for(bound);
    let contents = make_zero_subtree_root(depth);
    mix_length(&contents, 0)
}

/// Compute the root of a zeroed 96-byte field (a default signature).
fn zero_signature_root() -> (r: Vec<u8>)
    ensures
        r@ == subtree_root(pack_chunks(zero_bytes(96)), 2),
        r@.len() == 32,
{
    proof {
        lemma2_to64();
    }
    let bytes = make_zero_bytes(96);
    let chunks = make_packed_chunks(&bytes);
    let r = window_subtree_root(&chunks, 0, chunks.len(), 2);
    proof {
        assert(views_of(chunks@).subrange(0, chunks@.len() as int) =~= pack_chunks(
            zero_bytes(96),
        ));
    }
    r
}

/// Compute the root of the default sync aggregate.
fn default_sync_aggregate_root(committee_size: u64) -> (r: Vec<u8>)
    requires
        1 <= committee_size <= 0x1_0000_0000,
    ensures
        r@ == default_sync_aggregate_root_of(committee_size as nat),
        r@.len() == 32,
{
    proof {
        lemma2_to64();
    }
    let n_chunks = (committee_size + 255) / 256;
    assert(n_chunks as nat == bitvector_chunk_count(committee_size as nat));
    let depth = depth_for(n_chunks);
    proof {
        crate::merkle::lemma_depth_bound(depth as nat, n_chunks as nat);
    }
    let mut chunks: Vec<Vec<u8>> = Vec::new();
    let mut i: u64 = 0;
    while i < n_chunks
        invariant
            i <= n_chunks <= 0x1_0000_0000,
            chunks@.len() == i,
            forall|j: int| 0 <= j < i ==> (#[trigger] chunks@[j])@ == zero_chunk(),
            chunks_sized(chunks@, 0, i as int),
        decreases n_chunks - i,
    {
        chunks.push(make_zero_chunk());
        i = i + 1;
    }
    let bits_root = window_subtree_root(&chunks, 0, chunks.len(), depth);
    proof {
        assert(views_of(chunks@).subrange(0, chunks@.len() as int) =~= Seq::new(
            bitvector_chunk_count(committee_size as nat),
            |i: int| zero_chunk(),
        ));
    }
    let sig_root = zero_signature_root();
    let mut fields: Vec<Vec<u8>> = Vec::new();
    fields.push(bits_root);
    fields.push(sig_root);
    let r = window_subtree_root(&fields, 0, 2, 1);
    proof {
        assert(views_of(fields@).subrange(0, 2) =~= seq![
            subtree_root(
                Seq::new(bitvector_chunk_count(committee_size as nat), |i: int| zero_chunk()),
                log2_ceil(bitvector_chunk_count(committee_size as nat)),
            ),
            subtree_root(pack_chunks(zero_bytes(96)), 2),
        ]);
    }
    r
}

/// Compute the root of the default (empty) block body, so that the genesis
/// block header is well-formed before any block exists.
pub fn default_body_root(cfg: &ChainConfiguration) -> (r: Vec<u8>)
    requires
        cfg.wf(),
    ensures
        r@ == default_body_root_of(*cfg),
        r@.len() == 32,
{
    proof {
        lemma2_to64();
    }
    let randao_reveal_root = zero_signature_root();
    let eth1_default_root = {
        let mut fields: Vec<Vec<u8>> = Vec::new();
        fields.push(make_zero_chunk());
        fields.push(make_u64_chunk(0));
        fields.push(make_zero_chunk());
        let r = window_subtree_root(&fields, 0, 3, 2);
        proof {
            assert(views_of(fields@).subrange(0, 3) =~= seq![
                zero_chunk(),
                u64_le_chunk(0),
                zero_chunk(),
            ]);
        }
        r
    };
    let mut fields: Vec<Vec<u8>> = Vec::new();
    fields.push(randao_reveal_root);
    fields.push(eth1_default_root);
    fields.push(make_zero_chunk());
    fields.push(empty_list_root(cfg.max_proposer_slashings));
    fields.push(empty_list_root(cfg.max_attester_slashings));
    fields.push(empty_list_root(cfg.max_attestations));
    fields.push(empty_list_root(cfg.max_deposits));
    fields.push(empty_list_root(cfg.max_voluntary_exits));
    fields.push(default_sync_aggregate_root(cfg.sync_committee_size));
    let r = window_subtree_root(&fields, 0, 9, 4);
    proof {
        assert(views_of(fields@).subrange(0, 9) =~= seq![
            subtree_root(pack_chunks(zero_bytes(96)), 2),
            subtree_root(seq![zero_chunk(), u64_le_chunk(0), zero_chunk()], 2),
            zero_chunk(),
            mix_in_length(zero_subtree_root(log2_ceil(cfg.max_proposer_slashings as nat)), 0),
            mix_in_length(zero_subtree_root(log2_ceil(cfg.max_attester_slashings as nat)), 0),
            mix_in_length(zero_subtree_root(log2_ceil(cfg.max_attestations as nat)), 0),
            mix_in_length(zero_subtree_root(log2_ceil(cfg.max_deposits as nat)), 0),
            mix_in_length(zero_subtree_root(log2_ceil(cfg.max_voluntary_exits as nat)), 0),
            default_sync_aggregate_root_of(cfg.sync_committee_size as nat),
        ]);
    }
    r
}

} // verus!
