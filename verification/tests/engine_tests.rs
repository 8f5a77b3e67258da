use beacon_genesis::engine::{
    DefaultExecutionEngine, ExecutionEngine, ExecutionEngineError, ExecutionPayload,
    NewPayloadRequest,
};

fn sample_request(seed: u8) -> NewPayloadRequest {
    NewPayloadRequest {
        execution_payload: ExecutionPayload {
            parent_hash: vec![seed; 32],
            block_number: seed as u64,
            timestamp: 12_000 + seed as u64,
            block_hash: vec![seed.wrapping_add(1); 32],
            transactions: vec![vec![seed, 2, 3]],
            blob_kzg_commitments: vec![vec![seed; 48]],
        },
        versioned_hashes: vec![vec![seed; 32]],
        parent_beacon_block_root: vec![seed.wrapping_add(2); 32],
    }
}

#[test]
fn invalid_engine_reports_first_check_regardless_of_request() {
    let engine = DefaultExecutionEngine::new(false);
    // Whatever the request holds, a false verdict surfaces as the first
    // check's variant, never a later one.
    for seed in [0u8, 1, 7, 250] {
        let result = engine.verify_and_notify_new_payload(&sample_request(seed));
        assert_eq!(result, Err(ExecutionEngineError::InvalidBlockHash));
    }
}

#[test]
fn valid_engine_accepts_any_request() {
    let engine = DefaultExecutionEngine::new(true);
    for seed in [0u8, 3, 9, 200] {
        let result = engine.verify_and_notify_new_payload(&sample_request(seed));
        assert_eq!(result, Ok(()));
    }
}

#[test]
fn engine_constructor_records_verdict() {
    assert!(DefaultExecutionEngine::new(true).execution_is_valid);
    assert!(!DefaultExecutionEngine::new(false).execution_is_valid);
}
