//! The record types of the node's query surface: status, peer, duty and
//! validator summaries, and the identifiers that select a state or block.

use vstd::prelude::*;
use vstd::string::{StrSliceExecFns, StringExecFns};

use crate::encoding::{
    dec_chars, dec_value, hex_bytes_of, hex_prefixed_chars, is_dec_string, is_hex_string,
    parse_hex_bytes, parse_u64_decimal, str_eq_chars, to_hex_string, u64_to_dec_string,
};
use crate::types::{BeaconBlockHeader, Validator};

verus! {

/// A slot number.
pub type Slot = u64;

/// An epoch number.
pub type Epoch = u64;

/// An amount in gwei.
pub type Gwei = u64;

/// A validator's position in the registry.
pub type ValidatorIndex = usize;

/// A committee's position within a slot.
pub type CommitteeIndex = usize;

/// An error reported by the query surface in place of data.
pub struct ApiError {
    pub code: u16,
    pub message: String,
}

/// Either the requested data or the error the service reported. Decodes from
/// an untagged wire shape: whichever of the two matches.
pub enum ApiResult<T> {
    Data(T),
    Failure(ApiError),
}

/// The node's software version string.
pub struct VersionData {
    pub version: String,
}

/// The deposit contract's chain and address.
pub struct DepositContract {
    pub chain_id: u64,
    pub address: Vec<u8>,
}

/// A snapshot of the deposit tree.
pub struct DepositSnapshot {
    pub finalized: Vec<Vec<u8>>,
    pub deposit_root: Vec<u8>,
    pub deposit_count: u64,
    pub execution_block_hash: Vec<u8>,
    pub execution_block_height: u64,
}

/// The chain's genesis summary.
pub struct GenesisDetails {
    pub genesis_time: u64,
    pub genesis_validators_root: Vec<u8>,
    pub genesis_fork_version: Vec<u8>,
}

/// A state root wrapper.
pub struct RootData {
    pub root: Vec<u8>,
}

/// A finality checkpoint: an epoch boundary block.
pub struct Checkpoint {
    pub epoch: Epoch,
    pub root: Vec<u8>,
}

/// The three checkpoints that summarize finality.
pub struct FinalityCheckpoints {
    pub previous_justified: Checkpoint,
    pub current_justified: Checkpoint,
    pub finalized: Checkpoint,
}

/// Selects the state a query speaks of.
#[derive(Clone, Debug)]
pub enum StateId {
    Head,
    Genesis,
    Finalized,
    Justified,
    Slot(Slot),
    Root(Vec<u8>),
}

/// The text form of a state selector.
pub open spec fn state_id_chars(s: StateId) -> Seq<char> {
    match s {
        StateId::Finalized => "finalized"@,
        StateId::Justified => "justified"@,
        StateId::Head => "head"@,
        StateId::Genesis => "genesis"@,
        StateId::Slot(slot) => dec_chars(slot as nat),
        StateId::Root(root) => hex_prefixed_chars(root@),
    }
}

/// The hexadecimal digits of a root selector, its 0x prefix stripped when
/// present.
pub open spec fn hex_part(s: Seq<char>) -> Seq<char> {
    if s.len() >= 2 && s[0] == '0' && s[1] == 'x' {
        s.skip(2)
    } else {
        s
    }
}

/// Text that decodes to a 32-byte root, with or without a 0x prefix.
pub open spec fn is_root_chars(s: Seq<char>) -> bool {
    is_hex_string(hex_part(s)) && hex_part(s).len() == 64
}

/// Text that names a state by keyword.
pub open spec fn is_state_keyword(s: Seq<char>) -> bool {
    s == "finalized"@ || s == "justified"@ || s == "head"@ || s == "genesis"@
}

impl StateId {
    /// Render the selector as its canonical text.
    pub fn display_string(&self) -> (r: String)
        ensures
            r@ == state_id_chars(*self),
    {
        match self {
            StateId::Finalized => String::from_str("finalized"),
            StateId::Justified => String::from_str("justified"),
            StateId::Head => String::from_str("head"),
            StateId::Genesis => String::from_str("genesis"),
            StateId::Slot(slot) => u64_to_dec_string(*slot),
            StateId::Root(root) => to_hex_string(root),
        }
    }

    /// Parse a selector from text: one of the four keywords, a decimal slot
    /// number, or a 32-byte root in hexadecimal (0x prefix optional), tried
    /// in that order.
    pub fn parse(s: &str) -> (r: Result<StateId, String>)
        ensures
            s@ == "finalized"@ ==> r == Ok::<StateId, String>(StateId::Finalized),
            s@ != "finalized"@ && s@ == "justified"@ ==> r == Ok::<StateId, String>(
                StateId::Justified,
            ),
            s@ != "finalized"@ && s@ != "justified"@ && s@ == "head"@ ==> r == Ok::<
                StateId,
                String,
            >(StateId::Head),
            s@ != "finalized"@ && s@ != "justified"@ && s@ != "head"@ && s@ == "genesis"@ ==> r
                == Ok::<StateId, String>(StateId::Genesis),
            !is_state_keyword(s@) && is_dec_string(s@) && dec_value(s@) <= u64::MAX ==> (r matches
                Ok(id) && id matches StateId::Slot(v) && v as int == dec_value(s@)),
            !is_state_keyword(s@) && !(is_dec_string(s@) && dec_value(s@) <= u64::MAX)
                && is_root_chars(s@) ==> (r matches Ok(id) && id matches StateId::Root(b) && b@
                == hex_bytes_of(hex_part(s@))),
            !is_state_keyword(s@) && !(is_dec_string(s@) && dec_value(s@) <= u64::MAX)
                && !is_root_chars(s@) ==> r is Err,
    {
        if str_eq_chars(s, "finalized") {
            return Ok(StateId::Finalized);
        }
        if str_eq_chars(s, "justified") {
            return Ok(StateId::Justified);
        }
        if str_eq_chars(s, "head") {
            return Ok(StateId::Head);
        }
        if str_eq_chars(s, "genesis") {
            return Ok(StateId::Genesis);
        }
        match parse_u64_decimal(s) {
            Some(v) => {
                return Ok(StateId::Slot(v));
            },
            None => {},
        }
        let n = s.unicode_len();
        let stripped: &str = if n >= 2 && s.get_char(0) == '0' && s.get_char(1) == 'x' {
            s.substring_char(2, n)
        } else {
            s
        };
        proof {
            assert(stripped@ =~= hex_part(s@));
        }
        match parse_hex_bytes(stripped) {
            Some(b) => {
                if b.len() == 32 {
                    Ok(StateId::Root(b))
                } else {
                    Err(String::from_str("could not parse state identifier by root from the provided argument").concat(s))
                }
            },
            None => Err(
                String::from_str("could not parse state identifier by root from the provided argument").concat(s),
            ),
        }
    }
}

impl core::str::FromStr for StateId {
    type Err = String;

    fn from_str(s: &str) -> Result<Self, String> {
        StateId::parse(s)
    }
}

/// Selects the block a query speaks of.
#[derive(Clone, Debug)]
pub enum BlockId {
    Head,
    Genesis,
    Finalized,
    Slot(Slot),
    Root(Vec<u8>),
}

/// The text form of a block selector.
pub open spec fn block_id_chars(s: BlockId) -> Seq<char> {
    match s {
        BlockId::Finalized => "finalized"@,
        BlockId::Head => "head"@,
        BlockId::Genesis => "genesis"@,
        BlockId::Slot(slot) => dec_chars(slot as nat),
        BlockId::Root(root) => hex_prefixed_chars(root@),
    }
}

impl BlockId {
    /// Render the selector as its canonical text.
    pub fn display_string(&self) -> (r: String)
        ensures
            r@ == block_id_chars(*self),
    {
        match self {
            BlockId::Finalized => String::from_str("finalized"),
            BlockId::Head => String::from_str("head"),
            BlockId::Genesis => String::from_str("genesis"),
            BlockId::Slot(slot) => u64_to_dec_string(*slot),
            BlockId::Root(root) => to_hex_string(root),
        }
    }
}

/// Where a validator stands in its lifecycle.
#[derive(Clone, Copy, Debug, PartialEq, Eq, Structural)]
pub enum ValidatorStatus {
    PendingInitialized,
    PendingQueued,
    ActiveOngoing,
    ActiveExiting,
    ActiveSlashed,
    ExitedUnslashed,
    ExitedSlashed,
    WithdrawalPossible,
    WithdrawalDone,
    Active,
    Pending,
    Exited,
    Withdrawal,
}

/// The text form of a validator status.
pub open spec fn validator_status_chars(s: ValidatorStatus) -> Seq<char> {
    match s {
        ValidatorStatus::PendingInitialized => "pending_initialized"@,
        ValidatorStatus::PendingQueued => "pending_queued"@,
        ValidatorStatus::ActiveOngoing => "active_ongoing"@,
        ValidatorStatus::ActiveExiting => "active_exiting"@,
        ValidatorStatus::ActiveSlashed => "active_slashed"@,
        ValidatorStatus::ExitedUnslashed => "exited_unslashed"@,
        ValidatorStatus::ExitedSlashed => "exited_slashed"@,
        ValidatorStatus::WithdrawalPossible => "withdrawal_possible"@,
        ValidatorStatus::WithdrawalDone => "withdrawal_done"@,
        ValidatorStatus::Active => "active"@,
        ValidatorStatus::Pending => "pending"@,
        ValidatorStatus::Exited => "exited"@,
        ValidatorStatus::Withdrawal => "withdrawal"@,
    }
}

impl ValidatorStatus {
    /// Render the status as its snake-case text.
    pub fn display_string(&self) -> (r: String)
        ensures
            r@ == validator_status_chars(*self),
    {
        match self {
            ValidatorStatus::PendingInitialized => String::from_str("pending_initialized"),
            ValidatorStatus::PendingQueued => String::from_str("pending_queued"),
            ValidatorStatus::ActiveOngoing => String::from_str("active_ongoing"),
            ValidatorStatus::ActiveExiting => String::from_str("active_exiting"),
            ValidatorStatus::ActiveSlashed => String::from_str("active_slashed"),
            ValidatorStatus::ExitedUnslashed => String::from_str("exited_unslashed"),
            ValidatorStatus::ExitedSlashed => String::from_str("exited_slashed"),
            ValidatorStatus::WithdrawalPossible => String::from_str("withdrawal_possible"),
            ValidatorStatus::WithdrawalDone => String::from_str("withdrawal_done"),
            ValidatorStatus::Active => String::from_str("active"),
            ValidatorStatus::Pending => String::from_str("pending"),
            ValidatorStatus::Exited => String::from_str("exited"),
            ValidatorStatus::Withdrawal => String::from_str("withdrawal"),
        }
    }
}

/// A validator named either by key or by registry index.
#[derive(Clone, Debug)]
pub enum PublicKeyOrIndex {
    PublicKey(Vec<u8>),
    Index(ValidatorIndex),
}

/// The text form of a validator name.
pub open spec fn public_key_or_index_chars(s: PublicKeyOrIndex) -> Seq<char> {
    match s {
        PublicKeyOrIndex::PublicKey(pk) => hex_prefixed_chars(pk@),
        PublicKeyOrIndex::Index(i) => dec_chars(i as nat),
    }
}

impl PublicKeyOrIndex {
    /// Render the name as its canonical text.
    pub fn display_string(&self) -> (r: String)
        ensures
            r@ == public_key_or_index_chars(*self),
    {
        match self {
            PublicKeyOrIndex::PublicKey(pk) => to_hex_string(pk),
            PublicKeyOrIndex::Index(i) => u64_to_dec_string(*i as u64),
        }
    }
}

impl From<ValidatorIndex> for PublicKeyOrIndex {
    fn from(index: ValidatorIndex) -> (r: Self) {
        PublicKeyOrIndex::Index(index)
    }
}

impl vstd::std_specs::convert::FromSpecImpl<ValidatorIndex> for PublicKeyOrIndex {
    open spec fn obeys_from_spec() -> bool {
        true
    }

    open spec fn from_spec(index: ValidatorIndex) -> Self {
        PublicKeyOrIndex::Index(index)
    }
}

impl From<Vec<u8>> for PublicKeyOrIndex {
    fn from(public_key: Vec<u8>) -> (r: Self) {
        PublicKeyOrIndex::PublicKey(public_key)
    }
}

impl vstd::std_specs::convert::FromSpecImpl<Vec<u8>> for PublicKeyOrIndex {
    open spec fn obeys_from_spec() -> bool {
        true
    }

    open spec fn from_spec(public_key: Vec<u8>) -> Self {
        PublicKeyOrIndex::PublicKey(public_key)
    }
}

/// One row of the validator table.
pub struct ValidatorSummary {
    pub index: ValidatorIndex,
    pub balance: Gwei,
    pub status: ValidatorStatus,
    pub validator: Validator,
}

/// One row of the balance table.
pub struct BalanceSummary {
    pub index: ValidatorIndex,
    pub balance: Gwei,
}

/// Narrows a committee query.
pub struct CommitteeFilter {
    pub epoch: Option<Epoch>,
    pub index: Option<CommitteeIndex>,
    pub slot: Option<Slot>,
}

/// The validator indices of one committee.
pub struct Committee(pub Vec<ValidatorIndex>);

/// One committee assignment.
pub struct CommitteeSummary {
    pub index: CommitteeIndex,
    pub slot: Slot,
    pub validators: Committee,
}

/// A sync committee's members and their aggregation subsets.
pub struct SyncCommitteeSummary {
    pub validators: Vec<ValidatorIndex>,
    pub validator_aggregates: Vec<Committee>,
}

/// A signed beacon block header.
pub struct SignedBeaconBlockHeader {
    pub message: BeaconBlockHeader,
    pub signature: Vec<u8>,
}

/// One row of the block header table.
pub struct BeaconHeaderSummary {
    pub root: Vec<u8>,
    pub canonical: bool,
    pub signed_header: SignedBeaconBlockHeader,
}

/// How far a submitted block must validate before it is gossiped.
#[derive(Clone, Copy, Debug, PartialEq, Eq, Structural)]
pub enum BroadcastValidation {
    Gossip,
    Consensus,
    ConsensusAndEquivocation,
}

/// The text form of a broadcast validation level.
pub open spec fn broadcast_validation_chars(s: BroadcastValidation) -> Seq<char> {
    match s {
        BroadcastValidation::Gossip => "gossip"@,
        BroadcastValidation::Consensus => "consensus"@,
        BroadcastValidation::ConsensusAndEquivocation => "consensus_and_equivocation"@,
    }
}

impl BroadcastValidation {
    /// Render the level as its snake-case text.
    pub fn display_string(&self) -> (r: String)
        ensures
            r@ == broadcast_validation_chars(*self),
    {
        match self {
            BroadcastValidation::Gossip => String::from_str("gossip"),
            BroadcastValidation::Consensus => String::from_str("consensus"),
            BroadcastValidation::ConsensusAndEquivocation => String::from_str(
                "consensus_and_equivocation",
            ),
        }
    }
}

/// The event streams a client can subscribe to.
#[derive(Clone, Copy, Debug, PartialEq, Eq, Structural)]
pub enum EventTopic {
    Head,
    Block,
    Attestation,
    VoluntaryExit,
    FinalizedCheckpoint,
    ChainReorg,
    ContributionAndProof,
}

/// The node's networking self-description.
pub struct MetaData {
    pub sequence_number: u64,
    pub attestation_subnets: Vec<bool>,
    pub sync_subnets: Vec<bool>,
}

/// The node's network identity.
pub struct NetworkIdentity {
    pub peer_id: String,
    pub enr: String,
    pub p2p_addresses: Vec<String>,
    pub discovery_addresses: Vec<String>,
    pub metadata: MetaData,
}

/// A peer connection's lifecycle stage.
#[derive(Clone, Copy, Debug, PartialEq, Eq, Structural)]
pub enum PeerState {
    Disconnected,
    Connecting,
    Connected,
    Disconnecting,
}

/// The text form of a peer state.
pub open spec fn peer_state_chars(s: PeerState) -> Seq<char> {
    match s {
        PeerState::Disconnected => "disconnected"@,
        PeerState::Connecting => "connecting"@,
        PeerState::Connected => "connected"@,
        PeerState::Disconnecting => "disconnecting"@,
    }
}

impl PeerState {
    /// Render the state as its lower-case text.
    pub fn display_string(&self) -> (r: String)
        ensures
            r@ == peer_state_chars(*self),
    {
        match self {
            PeerState::Disconnected => String::from_str("disconnected"),
            PeerState::Connecting => String::from_str("connecting"),
            PeerState::Connected => String::from_str("connected"),
            PeerState::Disconnecting => String::from_str("disconnecting"),
        }
    }
}

/// Which side opened a peer connection.
#[derive(Clone, Copy, Debug, PartialEq, Eq, Structural)]
pub enum ConnectionOrientation {
    Inbound,
    Outbound,
}

/// The text form of a connection orientation.
pub open spec fn connection_orientation_chars(s: ConnectionOrientation) -> Seq<char> {
    match s {
        ConnectionOrientation::Inbound => "inbound"@,
        ConnectionOrientation::Outbound => "outbound"@,
    }
}

impl ConnectionOrientation {
    /// Render the orientation as its lower-case text.
    pub fn display_string(&self) -> (r: String)
        ensures
            r@ == connection_orientation_chars(*self),
    {
        match self {
            ConnectionOrientation::Inbound => String::from_str("inbound"),
            ConnectionOrientation::Outbound => String::from_str("outbound"),
        }
    }
}

/// A peer's connection state and direction.
pub struct PeerDescriptor {
    pub state: PeerState,
    pub direction: ConnectionOrientation,
}

/// One row of the peer table.
pub struct PeerDescription {
    pub peer_id: String,
    pub enr: String,
    pub last_seen_p2p_address: String,
    pub state: PeerState,
    pub direction: ConnectionOrientation,
}

/// Peer counts by connection state.
pub struct PeerSummary {
    pub disconnected: usize,
    pub connecting: usize,
    pub connected: usize,
    pub disconnecting: usize,
}

/// The node's sync progress.
pub struct SyncStatus {
    pub head_slot: Slot,
    pub sync_distance: usize,
    pub is_syncing: bool,
}

/// The node's readiness.
#[derive(Clone, Copy, Debug, PartialEq, Eq, Structural)]
pub enum HealthStatus {
    Ready,
    Syncing,
    NotInitialized,
    Unknown,
}

/// One attestation duty assignment.
pub struct AttestationDuty {
    pub public_key: Vec<u8>,
    pub validator_index: ValidatorIndex,
    pub committee_index: CommitteeIndex,
    pub committee_length: usize,
    pub committees_at_slot: usize,
    pub validator_committee_index: usize,
    pub slot: Slot,
}

/// One block proposal duty assignment.
pub struct ProposerDuty {
    pub public_key: Vec<u8>,
    pub validator_index: ValidatorIndex,
    pub slot: Slot,
}

/// One sync committee duty assignment.
pub struct SyncCommitteeDuty {
    pub public_key: Vec<u8>,
    pub validator_index: ValidatorIndex,
    pub validator_sync_committee_indices: Vec<usize>,
}

/// A validator's committee membership, as it subscribes to aggregation.
pub struct CommitteeDescriptor {
    pub validator_index: ValidatorIndex,
    pub committee_index: CommitteeIndex,
    pub committees_at_slot: usize,
    pub slot: Slot,
    pub is_aggregator: bool,
}

/// A validator's sync committee membership.
pub struct SyncCommitteeDescriptor {
    pub validator_index: ValidatorIndex,
    pub sync_committee_indices: Vec<usize>,
    pub until_epoch: Epoch,
}

/// A proposer's fee recipient registration.
pub struct BeaconProposerRegistration {
    pub validator_index: ValidatorIndex,
    pub fee_recipient: Vec<u8>,
}

/// Whether a validator was live in an epoch.
pub struct ValidatorLiveness {
    pub index: ValidatorIndex,
    pub is_live: bool,
}

} // verus!
