//! The execution-payload gate: the capability a consensus node runs before
//! treating an execution-layer block as valid, and its deterministic
//! reference implementation.

use vstd::prelude::*;

verus! {

/// The three ways a payload can be rejected, one per check.
#[derive(Clone, Copy, Debug, PartialEq, Eq, Structural)]
pub enum ExecutionEngineError {
    InvalidBlockHash,
    InvalidVersionedHashes,
    InvalidPayload,
}

/// An execution-layer block body, as the consensus layer carries it: opaque
/// to every check of the reference engine.
pub struct ExecutionPayload {
    pub parent_hash: Vec<u8>,
    pub block_number: u64,
    pub timestamp: u64,
    pub block_hash: Vec<u8>,
    pub transactions: Vec<Vec<u8>>,
    pub blob_kzg_commitments: Vec<Vec<u8>>,
}

/// A commitment-derived identifier linking a blob to the payload that
/// references it.
pub type VersionedHash = Vec<u8>;

/// One candidate execution block, submitted for validation.
pub struct NewPayloadRequest {
    pub execution_payload: ExecutionPayload,
    pub versioned_hashes: Vec<VersionedHash>,
    pub parent_beacon_block_root: Vec<u8>,
}

/// The payload-validation capability. An implementation must run three
/// checks in this fixed order, short-circuiting at the first failure:
/// the payload's self-reported block hash (rejects with `InvalidBlockHash`),
/// the correspondence of its blob commitments to the supplied versioned
/// hashes (rejects with `InvalidVersionedHashes`), and the notification of
/// the payload to the execution logic (rejects with `InvalidPayload`).
/// A production implementation reaches an external engine and may block or
/// time out; a timeout or transport failure maps to `InvalidPayload`, never
/// to a silent retry.
pub trait ExecutionEngine {
    fn verify_and_notify_new_payload(&self, request: &NewPayloadRequest) -> (r: Result<
        (),
        ExecutionEngineError,
    >);
}

/// The deterministic reference engine: it performs no external operation,
/// and every check succeeds or fails uniformly according to
/// `execution_is_valid`.
#[derive(Clone, Copy, Debug, PartialEq, Eq, Structural)]
pub struct DefaultExecutionEngine {
    pub execution_is_valid: bool,
}

impl DefaultExecutionEngine {
    /// A reference engine whose checks all report the given verdict.
    pub fn new(execution_is_valid: bool) -> (r: Self)
        ensures
            r.execution_is_valid == execution_is_valid,
    {
        DefaultExecutionEngine { execution_is_valid }
    }

    /// The first check: the payload's self-reported block hash.
    fn is_valid_block_hash(
        &self,
        _payload: &ExecutionPayload,
        _parent_beacon_block_root: &Vec<u8>,
    ) -> (r: Result<(), ExecutionEngineError>)
        ensures
            self.execution_is_valid ==> r is Ok,
            !self.execution_is_valid ==> r == Err::<(), ExecutionEngineError>(
                ExecutionEngineError::InvalidBlockHash,
            ),
    {
        if !self.execution_is_valid {
            Err(ExecutionEngineError::InvalidBlockHash)
        } else {
            Ok(())
        }
    }

    /// The second check: blob commitments against the supplied versioned
    /// hashes.
    fn is_valid_versioned_hashes(&self, _new_payload_request: &NewPayloadRequest) -> (r: Result<
        (),
        ExecutionEngineError,
    >)
        ensures
            self.execution_is_valid ==> r is Ok,
            !self.execution_is_valid ==> r == Err::<(), ExecutionEngineError>(
                ExecutionEngineError::InvalidVersionedHashes,
            ),
    {
        if !self.execution_is_valid {
            Err(ExecutionEngineError::InvalidVersionedHashes)
        } else {
            Ok(())
        }
    }

    /// The third check: hand the payload to the execution logic.
    fn notify_new_payload(
        &self,
        _payload: &ExecutionPayload,
        _parent_beacon_block_root: &Vec<u8>,
    ) -> (r: Result<(), ExecutionEngineError>)
        ensures
            self.execution_is_valid ==> r is Ok,
            !self.execution_is_valid ==> r == Err::<(), ExecutionEngineError>(
                ExecutionEngineError::InvalidPayload,
            ),
    {
        if !self.execution_is_valid {
            Err(ExecutionEngineError::InvalidPayload)
        } else {
            Ok(())
        }
    }
}

impl ExecutionEngine for DefaultExecutionEngine {
    /// Run the three checks in their mandated order. Because the first check
    /// runs first and short-circuits, a false verdict always surfaces as
    /// `InvalidBlockHash`, never as a later variant, whatever the request
    /// holds; a true verdict accepts every request.
    fn verify_and_notify_new_payload(&self, request: &NewPayloadRequest) -> (r: Result<
        (),
        ExecutionEngineError,
    >)
        ensures
            self.execution_is_valid <==> r is Ok,
            !self.execution_is_valid ==> r == Err::<(), ExecutionEngineError>(
                ExecutionEngineError::InvalidBlockHash,
            ),
    {
        let first = self.is_valid_block_hash(
            &request.execution_payload,
            &request.parent_beacon_block_root,
        );
        match first {
            Err(e) => Err(e),
            Ok(()) => {
                let second = self.is_valid_versioned_hashes(request);
                match second {
                    Err(e) => Err(e),
                    Ok(()) => self.notify_new_payload(
                        &request.execution_payload,
                        &request.parent_beacon_block_root,
                    ),
                }
            },
        }
    }
}

} // verus!
