use sorosusu::contribution_security::{
    ContributionSecurity, ContributionSecurityError, ContributionLeaf, ContributionMerkleProof, TransactionState,
};
use sha2::{Digest, Sha256};

const CIRCLE: u64 = 1;

fn setup(users: &[u64]) -> ContributionSecurity {
    let mut s = ContributionSecurity::new();
    s.circle_bitmaps.insert(CIRCLE, 0);
    for u in users {
        s.member_contribution_counts.insert(*u, 0);
    }
    s
}

fn contribute(s: &mut ContributionSecurity, user: u64, circle: u64, now: u64) {
    let tx = s.start_contribution_transaction(user, circle, 1000, 1, now).unwrap();
    s.commit_contribution_transaction(&tx, now).unwrap();
}

fn sha(bytes: &[u8]) -> Vec<u8> {
    Sha256::digest(bytes).to_vec()
}

fn leaf_hash(l: &ContributionLeaf) -> Vec<u8> {
    let mut v = l.user.to_string().into_bytes();
    v.extend_from_slice(&l.circle_id.to_le_bytes());
    v.extend_from_slice(&l.amount.to_le_bytes());
    v.extend_from_slice(&l.round.to_le_bytes());
    v.extend_from_slice(&l.timestamp.to_le_bytes());
    v.extend_from_slice(&l.nonce.to_le_bytes());
    sha(&v)
}

#[test]
fn test_atomic_contribution_transaction() {
    let user = 7;
    let mut s = setup(&[user]);
    let tx_id = s.start_contribution_transaction(user, CIRCLE, 1000, 1, 0).unwrap();
    assert_eq!(s.get_transaction_state(&tx_id), Some(TransactionState::Pending));
    s.commit_contribution_transaction(&tx_id, 0).unwrap();
    assert_eq!(s.get_transaction_state(&tx_id), Some(TransactionState::Committed));
}

#[test]
fn test_transaction_rollback() {
    let user = 7;
    let mut s = setup(&[user]);
    let initial_count = s.member_contribution_counts[&user];
    let initial_bitmap = s.circle_bitmaps[&CIRCLE];
    let tx_id = s.start_contribution_transaction(user, CIRCLE, 1000, 1, 0).unwrap();
    // what a deposit would change meanwhile
    *s.member_contribution_counts.get_mut(&user).unwrap() += 1;
    *s.circle_bitmaps.get_mut(&CIRCLE).unwrap() |= 1u64 << 0;
    let refund = s.rollback_contribution_transaction(&tx_id, 0).unwrap();
    assert_eq!(refund, 1000);
    assert_eq!(s.member_contribution_counts[&user], initial_count);
    assert_eq!(s.circle_bitmaps[&CIRCLE], initial_bitmap);
    assert_eq!(s.get_transaction_state(&tx_id), Some(TransactionState::RolledBack));
}

#[test]
fn test_merkle_proof_generation() {
    let (user1, user2) = (7, 8);
    let mut s = setup(&[user1, user2]);
    contribute(&mut s, user1, CIRCLE, 0);
    contribute(&mut s, user2, CIRCLE, 0);
    let proof = s.generate_contribution_proof(user1, CIRCLE, 0).unwrap();
    let is_valid = ContributionSecurity::verify_contribution_proof(&proof).unwrap();
    assert!(is_valid);
    let root = s.get_circle_merkle_root(CIRCLE);
    assert!(root.is_some());
    assert_eq!(root.unwrap(), proof.root);
}

#[test]
fn test_merkle_proof_invalid_user() {
    let (user1, user2) = (7, 8);
    let mut s = setup(&[user1, user2]);
    contribute(&mut s, user1, CIRCLE, 0);
    let result = s.generate_contribution_proof(user2, CIRCLE, 0);
    assert!(result.is_err());
}

#[test]
fn contribution_unknown_circle_or_member_refused() {
    let mut s = setup(&[7]);
    assert_eq!(s.start_contribution_transaction(7, 99, 10, 1, 0), Err(ContributionSecurityError::ContributionNotFound));
    assert_eq!(s.start_contribution_transaction(8, CIRCLE, 10, 1, 0), Err(ContributionSecurityError::ContributionNotFound));
    assert_eq!(s.transaction_counter, 0);
    assert!(s.transactions.is_empty());
}

#[test]
fn contribution_transaction_id_and_leaf_hash_exact() {
    let mut s = setup(&[7]);
    let tx = s.start_contribution_transaction(7, CIRCLE, 1000, 2, 55).unwrap();
    let mut expected = b"7".to_vec();
    expected.extend_from_slice(&CIRCLE.to_le_bytes());
    expected.extend_from_slice(&0u64.to_le_bytes());
    expected.extend_from_slice(&55u64.to_le_bytes());
    assert_eq!(tx, sha(&expected));
    s.commit_contribution_transaction(&tx, 60).unwrap();
    let rec = &s.records[0];
    let leaf = ContributionLeaf { user: 7, circle_id: CIRCLE, amount: 1000, round: 0, timestamp: 55, nonce: 0 };
    assert_eq!(rec.leaf, leaf);
    assert_eq!(rec.leaf_hash, leaf_hash(&leaf));
    // a single leaf is its own root
    assert_eq!(s.get_circle_merkle_root(CIRCLE).unwrap(), rec.leaf_hash);
    assert_eq!(s.nonces[&(7, CIRCLE)], 1);
}

#[test]
fn contribution_commit_twice_and_rollback_after_commit_refused() {
    let mut s = setup(&[7]);
    let tx = s.start_contribution_transaction(7, CIRCLE, 1000, 1, 0).unwrap();
    s.commit_contribution_transaction(&tx, 0).unwrap();
    assert_eq!(s.commit_contribution_transaction(&tx, 0), Err(ContributionSecurityError::InvalidTransactionState));
    assert_eq!(s.rollback_contribution_transaction(&tx, 0), Err(ContributionSecurityError::TransactionAlreadyCommitted));
    assert_eq!(s.get_transaction_state(&tx), Some(TransactionState::Committed));
    let unknown = vec![0u8; 32];
    assert_eq!(s.get_transaction_state(&unknown), None);
    assert_eq!(s.commit_contribution_transaction(&unknown, 0), Err(ContributionSecurityError::ContributionNotFound));
    assert_eq!(s.rollback_contribution_transaction(&unknown, 0), Err(ContributionSecurityError::ContributionNotFound));
}

#[test]
fn test_double_spend_prevention() {
    let user = 7;
    let mut s = setup(&[user]);
    let tx_id1 = s.start_contribution_transaction(user, CIRCLE, 1000, 1, 0).unwrap();
    let result = s.start_contribution_transaction(user, CIRCLE, 1000, 1, 0);
    assert!(matches!(result, Err(ContributionSecurityError::DoubleSpendAttempt)));
    s.commit_contribution_transaction(&tx_id1, 0).unwrap();
    let tx_id2 = s.start_contribution_transaction(user, CIRCLE, 1000, 1, 0).unwrap();
    assert_ne!(tx_id1, tx_id2);
}

#[test]
fn test_transaction_state_transitions() {
    let user = 7;
    let mut s = setup(&[user]);
    let tx_id = s.start_contribution_transaction(user, CIRCLE, 1000, 1, 0).unwrap();
    assert_eq!(s.get_transaction_state(&tx_id), Some(TransactionState::Pending));
    s.commit_contribution_transaction(&tx_id, 0).unwrap();
    assert_eq!(s.get_transaction_state(&tx_id), Some(TransactionState::Committed));
    let result = s.rollback_contribution_transaction(&tx_id, 0);
    assert!(matches!(result, Err(ContributionSecurityError::TransactionAlreadyCommitted)));
}

#[test]
fn contribution_different_amount_is_no_double_spend() {
    let mut s = setup(&[7]);
    s.start_contribution_transaction(7, CIRCLE, 1000, 1, 0).unwrap();
    assert!(s.start_contribution_transaction(7, CIRCLE, 1000, 2, 0).is_ok());
    assert!(s.start_contribution_transaction(7, CIRCLE, 999, 1, 0).is_ok());
}

#[test]
fn contribution_rollback_overflowing_refund_refused() {
    let mut s = setup(&[7]);
    let tx = s.start_contribution_transaction(7, CIRCLE, u64::MAX, 2, 0).unwrap();
    assert_eq!(s.rollback_contribution_transaction(&tx, 0), Err(ContributionSecurityError::InsufficientRollbackBalance));
    assert_eq!(s.get_transaction_state(&tx), Some(TransactionState::Pending));
}

#[test]
fn contribution_merkle_root_of_three_leaves() {
    let mut s = setup(&[1, 2, 3]);
    contribute(&mut s, 1, CIRCLE, 10);
    contribute(&mut s, 2, CIRCLE, 11);
    contribute(&mut s, 3, CIRCLE, 12);
    let h: Vec<Vec<u8>> = s.records.iter().map(|r| r.leaf_hash.clone()).collect();
    let pair = |a: &Vec<u8>, b: &Vec<u8>| {
        let mut v = a.clone();
        v.extend_from_slice(b);
        sha(&v)
    };
    let root = pair(&pair(&h[0], &h[1]), &pair(&h[2], &h[2]));
    assert_eq!(s.get_circle_merkle_root(CIRCLE).unwrap(), root);
    // every leaf verifies, the unpaired last one against its own copy
    for user in [1, 2, 3] {
        let p = s.generate_contribution_proof(user, CIRCLE, 0).unwrap();
        assert!(ContributionSecurity::verify_contribution_proof(&p).unwrap());
    }
    let p = s.generate_contribution_proof(3, CIRCLE, 0).unwrap();
    assert_eq!(p.proof_path, vec![h[2].clone(), pair(&h[0], &h[1])]);
    assert_eq!(p.proof_indices, vec![false, true]);
}

#[test]
fn contribution_proofs_across_interleaved_circles() {
    let mut s = setup(&[1, 2, 3]);
    s.circle_bitmaps.insert(2, 0);
    contribute(&mut s, 1, 2, 10);
    contribute(&mut s, 1, CIRCLE, 11);
    contribute(&mut s, 2, 2, 12);
    contribute(&mut s, 2, CIRCLE, 13);
    contribute(&mut s, 3, CIRCLE, 14);
    for (user, circle) in [(1, 2), (2, 2), (1, CIRCLE), (2, CIRCLE), (3, CIRCLE)] {
        let p = s.generate_contribution_proof(user, circle, 0).unwrap();
        assert_eq!(Some(p.root.clone()), s.get_circle_merkle_root(circle));
        assert!(ContributionSecurity::verify_contribution_proof(&p).unwrap());
    }
}

#[test]
fn contribution_tampered_proof_rejected() {
    let mut s = setup(&[1, 2]);
    contribute(&mut s, 1, CIRCLE, 10);
    contribute(&mut s, 2, CIRCLE, 11);
    let p = s.generate_contribution_proof(1, CIRCLE, 0).unwrap();
    let mut tampered: ContributionMerkleProof = p.clone();
    tampered.leaf.amount += 1;
    assert!(!ContributionSecurity::verify_contribution_proof(&tampered).unwrap());
}

#[test]
fn contribution_start_then_rollback_restores_all_bitmaps_and_counts() {
    let mut s = setup(&[7, 8]);
    s.circle_bitmaps.insert(CIRCLE, 0b1010);
    s.circle_bitmaps.insert(2, 0b1);
    s.member_contribution_counts.insert(7, 3);
    let bitmaps = s.circle_bitmaps.clone();
    let counts = s.member_contribution_counts.clone();
    let tx_id = s.start_contribution_transaction(7, CIRCLE, 250, 4, 10).unwrap();
    assert_eq!(s.rollback_contribution_transaction(&tx_id, 20), Ok(1000));
    assert_eq!(s.circle_bitmaps, bitmaps);
    assert_eq!(s.member_contribution_counts, counts);
    assert_eq!(s.get_transaction_state(&tx_id), Some(TransactionState::RolledBack));
}
