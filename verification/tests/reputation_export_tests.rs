use sorosusu::reputation_export::{
    ExportError, ExportStore, InvestigationStatus, EXPORT_COOLDOWN_SECONDS, EXPORT_PROTOCOL_FEE,
    WORMHOLE_ETHEREUM_CHAIN_ID, WORMHOLE_SOLANA_CHAIN_ID, WORMHOLE_STELLAR_CHAIN_ID,
};
use sha2::{Digest, Sha256};

const WORMHOLE: u64 = 77;

fn setup() -> ExportStore {
    let mut s = ExportStore::new();
    s.init_wormhole_config(WORMHOLE, vec![WORMHOLE_STELLAR_CHAIN_ID, WORMHOLE_ETHEREUM_CHAIN_ID, WORMHOLE_SOLANA_CHAIN_ID]);
    s
}

fn export(s: &mut ExportStore, user: u64, chain: u16, fee: i128, now: u64) -> Result<(u64, Vec<u8>), ExportError> {
    s.export_reputation(user, chain, fee, 8000, 10, 0, 9000, 1_000_000_000, now)
}

#[test]
fn test_wormhole_config_initialization() {
    let s = setup();
    let config = s.get_wormhole_config();
    assert!(config.is_some());
    let config = config.unwrap();
    assert!(config.enabled);
    assert_eq!(config.supported_chains.len(), 3);
}

#[test]
fn test_export_reputation_success() {
    let mut s = setup();
    let user = 5;
    let result = s.export_reputation(user, WORMHOLE_ETHEREUM_CHAIN_ID, EXPORT_PROTOCOL_FEE, 8500, 12, 0, 9500, 1_000_000_000, 0);
    assert!(result.is_ok());
    let (export_id, _payload_hash) = result.unwrap();
    assert_eq!(export_id, 1);
    let metadata = s.get_export_metadata(export_id);
    assert!(metadata.is_some());
    let metadata = metadata.unwrap();
    assert_eq!(metadata.export_id, export_id);
    assert_eq!(metadata.user_address, user);
    assert_eq!(metadata.destination_chain, WORMHOLE_ETHEREUM_CHAIN_ID);
    assert_eq!(metadata.fee_paid, EXPORT_PROTOCOL_FEE);
}

#[test]
fn test_insufficient_protocol_fee() {
    let mut s = setup();
    let result = export(&mut s, 5, WORMHOLE_ETHEREUM_CHAIN_ID, EXPORT_PROTOCOL_FEE - 1, 0);
    assert!(result.is_err());
    assert_eq!(result.unwrap_err(), ExportError::InsufficientProtocolFee);
}

#[test]
fn test_pending_default_investigation() {
    let mut s = setup();
    let user = 5;
    s.record_default_investigation(user, 123, 0);
    let result = export(&mut s, user, WORMHOLE_ETHEREUM_CHAIN_ID, EXPORT_PROTOCOL_FEE, 0);
    assert!(result.is_err());
    assert_eq!(result.unwrap_err(), ExportError::PendingDefaultInvestigation);
    s.resolve_default_investigation(user, InvestigationStatus::Resolved);
    let result = export(&mut s, user, WORMHOLE_ETHEREUM_CHAIN_ID, EXPORT_PROTOCOL_FEE, 0);
    assert!(result.is_ok());
}

#[test]
fn test_export_cooldown() {
    let mut s = setup();
    let user = 5;
    let _ = export(&mut s, user, WORMHOLE_ETHEREUM_CHAIN_ID, EXPORT_PROTOCOL_FEE, 0);
    let result = s.export_reputation(user, WORMHOLE_ETHEREUM_CHAIN_ID, EXPORT_PROTOCOL_FEE, 8500, 11, 0, 9500, 1_100_000_000, 0);
    assert!(result.is_err());
    assert_eq!(result.unwrap_err(), ExportError::ExportCooldownNotMet);
    let later = EXPORT_COOLDOWN_SECONDS + 1;
    let result = s.export_reputation(user, WORMHOLE_ETHEREUM_CHAIN_ID, EXPORT_PROTOCOL_FEE, 8500, 11, 0, 9500, 1_100_000_000, later);
    assert!(result.is_ok());
}

#[test]
fn test_duplicate_export_detection() {
    let mut s = setup();
    let user = 5;
    let result1 = export(&mut s, user, WORMHOLE_ETHEREUM_CHAIN_ID, EXPORT_PROTOCOL_FEE, 0);
    assert!(result1.is_ok());
    let result2 = export(&mut s, user, WORMHOLE_ETHEREUM_CHAIN_ID, EXPORT_PROTOCOL_FEE, EXPORT_COOLDOWN_SECONDS + 1);
    // the nonce changed, so the payload hash differs
    assert!(result2.is_ok());
}

#[test]
fn test_unsupported_chain() {
    let mut s = setup();
    let result = export(&mut s, 5, 99, EXPORT_PROTOCOL_FEE, 0);
    assert!(result.is_err());
    assert_eq!(result.unwrap_err(), ExportError::UnsupportedChain);
}

#[test]
fn test_wormhole_not_configured() {
    let mut s = ExportStore::new();
    let result = export(&mut s, 5, WORMHOLE_ETHEREUM_CHAIN_ID, EXPORT_PROTOCOL_FEE, 0);
    assert!(result.is_err());
    assert_eq!(result.unwrap_err(), ExportError::WormholeNotConfigured);
}

#[test]
fn test_can_export() {
    let mut s = setup();
    let user = 5;
    assert!(s.can_export(user, 0));
    s.record_default_investigation(user, 123, 0);
    assert!(!s.can_export(user, 0));
    s.resolve_default_investigation(user, InvestigationStatus::Resolved);
    assert!(s.can_export(user, 0));
    let _ = export(&mut s, user, WORMHOLE_ETHEREUM_CHAIN_ID, EXPORT_PROTOCOL_FEE, 0);
    assert!(!s.can_export(user, 0));
}

#[test]
fn test_wormhole_disabled() {
    let mut s = setup();
    s.wormhole_config.as_mut().unwrap().enabled = false;
    let result = export(&mut s, 5, WORMHOLE_ETHEREUM_CHAIN_ID, EXPORT_PROTOCOL_FEE, 0);
    assert!(result.is_err());
    assert_eq!(result.unwrap_err(), ExportError::WormholeDisabled);
}

#[test]
fn test_multiple_users_exports() {
    let mut s = setup();
    let (user1, user2) = (5, 6);
    let (export_id1, _) = export(&mut s, user1, WORMHOLE_ETHEREUM_CHAIN_ID, EXPORT_PROTOCOL_FEE, 0).unwrap();
    assert_eq!(export_id1, 1);
    let (export_id2, _) = s
        .export_reputation(user2, WORMHOLE_SOLANA_CHAIN_ID, EXPORT_PROTOCOL_FEE, 8500, 12, 0, 9500, 1_200_000_000, 0)
        .unwrap();
    assert_eq!(export_id2, 2);
    assert_eq!(s.get_export_nonce(user1), 1);
    assert_eq!(s.get_export_nonce(user2), 1);
}

#[test]
fn export_payload_hash_exact() {
    let mut s = setup();
    let (_, hash) = s.export_reputation(5, WORMHOLE_SOLANA_CHAIN_ID, EXPORT_PROTOCOL_FEE, 8500, 12, 1, 9500, -42, 1000).unwrap();
    let mut bytes = Vec::new();
    bytes.extend_from_slice(&5u64.to_be_bytes());
    bytes.extend_from_slice(&8500u32.to_be_bytes());
    bytes.extend_from_slice(&12u32.to_be_bytes());
    bytes.extend_from_slice(&1u32.to_be_bytes());
    bytes.extend_from_slice(&9500u32.to_be_bytes());
    bytes.extend_from_slice(&(-42i128).to_be_bytes());
    bytes.extend_from_slice(&0u64.to_be_bytes());
    bytes.extend_from_slice(&1000u64.to_be_bytes());
    bytes.extend_from_slice(&WORMHOLE_SOLANA_CHAIN_ID.to_be_bytes());
    assert_eq!(hash, Sha256::digest(&bytes).to_vec());
    let m = s.get_export_metadata(1).unwrap();
    assert_eq!(m.payload_hash, hash);
    assert_eq!(m.export_timestamp, 1000);
    assert_eq!(m.wormhole_sequence, None);
    assert!(s.get_export_metadata(2).is_none());
}

#[test]
fn export_cooldown_boundary_and_refusals_change_nothing() {
    let mut s = setup();
    export(&mut s, 5, WORMHOLE_ETHEREUM_CHAIN_ID, EXPORT_PROTOCOL_FEE, 100).unwrap();
    assert_eq!(export(&mut s, 5, WORMHOLE_ETHEREUM_CHAIN_ID, EXPORT_PROTOCOL_FEE, 100 + EXPORT_COOLDOWN_SECONDS - 1),
        Err(ExportError::ExportCooldownNotMet));
    assert_eq!(s.get_export_nonce(5), 1);
    assert_eq!(s.global_sequence, 1);
    assert!(export(&mut s, 5, WORMHOLE_ETHEREUM_CHAIN_ID, EXPORT_PROTOCOL_FEE, 100 + EXPORT_COOLDOWN_SECONDS).is_ok());
    assert_eq!(s.get_export_nonce(5), 2);
    // a dismissed investigation does not block either
    s.record_default_investigation(6, 1, 0);
    s.resolve_default_investigation(6, InvestigationStatus::Dismissed);
    assert!(s.can_export(6, 0));
}

#[test]
fn export_refusals_need_no_room_in_the_counters() {
    let mut s = setup();
    s.export_nonces.insert(5, u64::MAX);
    s.global_sequence = u64::MAX;
    let before_seq = s.global_sequence;
    assert_eq!(export(&mut s, 5, WORMHOLE_ETHEREUM_CHAIN_ID, EXPORT_PROTOCOL_FEE - 1, 0), Err(ExportError::InsufficientProtocolFee));
    assert_eq!(export(&mut s, 5, 9999, EXPORT_PROTOCOL_FEE, 0), Err(ExportError::UnsupportedChain));
    assert_eq!(s.global_sequence, before_seq);
    assert_eq!(s.export_nonces[&5], u64::MAX);
}
