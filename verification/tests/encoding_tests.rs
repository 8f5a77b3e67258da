use beacon_genesis::api::{
    BlockId, BroadcastValidation, ConnectionOrientation, PeerState, PublicKeyOrIndex, StateId,
    ValidatorStatus,
};
use beacon_genesis::encoding::{
    parse_hex_bytes, parse_u64_decimal, to_hex_string, u64_to_dec_string,
};
use beacon_genesis::hash::sha256;

#[test]
fn decimal_rendering() {
    assert_eq!(u64_to_dec_string(0), "0");
    assert_eq!(u64_to_dec_string(7), "7");
    assert_eq!(u64_to_dec_string(12345), "12345");
    assert_eq!(u64_to_dec_string(u64::MAX), "18446744073709551615");
}

#[test]
fn decimal_parsing() {
    assert_eq!(parse_u64_decimal("0"), Some(0));
    assert_eq!(parse_u64_decimal("00042"), Some(42));
    assert_eq!(parse_u64_decimal("18446744073709551615"), Some(u64::MAX));
    assert_eq!(parse_u64_decimal("18446744073709551616"), None);
    assert_eq!(parse_u64_decimal(""), None);
    assert_eq!(parse_u64_decimal("12a"), None);
    assert_eq!(parse_u64_decimal("-3"), None);
}

#[test]
fn hex_rendering() {
    let empty: Vec<u8> = vec![];
    assert_eq!(to_hex_string(&empty), "0x");
    assert_eq!(to_hex_string(&vec![0xde, 0xad, 0xbe, 0xef]), "0xdeadbeef");
    assert_eq!(to_hex_string(&vec![0x00, 0x0f]), "0x000f");
}

#[test]
fn hex_parsing() {
    assert_eq!(parse_hex_bytes("dead"), Some(vec![0xde, 0xad]));
    assert_eq!(parse_hex_bytes("DEAD"), Some(vec![0xde, 0xad]));
    assert_eq!(parse_hex_bytes(""), Some(vec![]));
    assert_eq!(parse_hex_bytes("abc"), None);
    assert_eq!(parse_hex_bytes("zz"), None);
}

#[test]
fn sha256_matches_reference_vector() {
    // The digest of "hello world", as the SHA-256 standard gives it.
    let digest = sha256(&b"hello world".to_vec());
    let expected =
        parse_hex_bytes("b94d27b9934d3e08a52e52d7da7dabfac484efe37a5380ee9088f7ace2efcde9")
            .unwrap();
    assert_eq!(digest, expected);
}

#[test]
fn state_id_keywords_round_trip() {
    assert!(matches!(StateId::parse("finalized"), Ok(StateId::Finalized)));
    assert!(matches!(StateId::parse("justified"), Ok(StateId::Justified)));
    assert!(matches!(StateId::parse("head"), Ok(StateId::Head)));
    assert!(matches!(StateId::parse("genesis"), Ok(StateId::Genesis)));
    assert_eq!(StateId::Finalized.display_string(), "finalized");
    assert_eq!(StateId::Justified.display_string(), "justified");
    assert_eq!(StateId::Head.display_string(), "head");
    assert_eq!(StateId::Genesis.display_string(), "genesis");
}

#[test]
fn state_id_slot_round_trip() {
    match StateId::parse("12345") {
        Ok(StateId::Slot(v)) => assert_eq!(v, 12345),
        other => panic!("expected a slot, got {:?}", other),
    }
    assert_eq!(StateId::Slot(98765).display_string(), "98765");
}

#[test]
fn state_id_root_round_trip() {
    let text = "0x00112233445566778899aabbccddeeff00112233445566778899aabbccddeeff";
    match StateId::parse(text) {
        Ok(StateId::Root(b)) => {
            assert_eq!(b.len(), 32);
            assert_eq!(b[0], 0x00);
            assert_eq!(b[1], 0x11);
            assert_eq!(b[31], 0xff);
            assert_eq!(StateId::Root(b).display_string(), text);
        },
        other => panic!("expected a root, got {:?}", other),
    }
    // The prefix is optional, and upper case is accepted.
    let bare = "00112233445566778899AABBCCDDEEFF00112233445566778899AABBCCDDEEFF";
    assert!(matches!(StateId::parse(bare), Ok(StateId::Root(_))));
}

#[test]
fn state_id_rejects_malformed_text() {
    assert!(StateId::parse("").is_err());
    assert!(StateId::parse("0xzz").is_err());
    assert!(StateId::parse("0x1234").is_err());
    assert!(StateId::parse("finalised").is_err());
}

#[test]
fn block_id_rendering() {
    assert_eq!(BlockId::Finalized.display_string(), "finalized");
    assert_eq!(BlockId::Head.display_string(), "head");
    assert_eq!(BlockId::Genesis.display_string(), "genesis");
    assert_eq!(BlockId::Slot(42).display_string(), "42");
    assert_eq!(BlockId::Root(vec![0xab; 2]).display_string(), "0xabab");
}

#[test]
fn enum_labels() {
    assert_eq!(
        ValidatorStatus::PendingInitialized.display_string(),
        "pending_initialized"
    );
    assert_eq!(ValidatorStatus::ActiveOngoing.display_string(), "active_ongoing");
    assert_eq!(ValidatorStatus::WithdrawalDone.display_string(), "withdrawal_done");
    assert_eq!(PeerState::Disconnecting.display_string(), "disconnecting");
    assert_eq!(ConnectionOrientation::Inbound.display_string(), "inbound");
    assert_eq!(
        BroadcastValidation::ConsensusAndEquivocation.display_string(),
        "consensus_and_equivocation"
    );
}

#[test]
fn public_key_or_index_conversions() {
    let by_index = PublicKeyOrIndex::from(3usize);
    assert_eq!(by_index.display_string(), "3");
    let by_key = PublicKeyOrIndex::from(vec![0xab, 0xcd]);
    assert_eq!(by_key.display_string(), "0xabcd");
}
