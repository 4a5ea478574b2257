use sorosusu::grant_governance::{
    calculate_drip_settlement, create_voting_snapshot, GrantError, GrantStore, MilestoneProgress, Payment, Vote,
};
use sha2::{Digest, Sha256};

fn vote(voter: u64, weight: u32, choice: &str) -> Vote {
    Vote { voter, weight, choice: choice.to_string() }
}

#[test]
fn grant_drip_settlement_pro_rata() {
    let s = calculate_drip_settlement(1, 9, 1_000, 100, 50, 80).unwrap();
    assert_eq!(s.amount_dripped, 300);
    assert_eq!(s.work_in_progress_pay, 300);
    assert_eq!(s.treasury_return, 700);
    assert_eq!(s.settlement_timestamp, 80);
    assert_eq!(s.cancellation_reason, "Project pivoted");
    assert!(!s.is_malicious);
    // past the end: capped at the grant; before the start: nothing earned
    assert_eq!(calculate_drip_settlement(1, 9, 1_000, 100, 0, 500).unwrap().amount_dripped, 1_000);
    assert_eq!(calculate_drip_settlement(1, 9, 1_000, 100, 90, 10).unwrap().amount_dripped, 0);
    // no duration: everything is earned
    assert_eq!(calculate_drip_settlement(1, 9, 1_000, 0, 90, 10).unwrap().treasury_return, 0);
}

#[test]
fn grant_terminate_requires_admin_and_pays_both_sides() {
    let mut g = GrantStore::new(None);
    assert_eq!(g.terminate_grant_amicably(1, 1, 9, 1_000, 100, 0, 77, 25).err(), Some(GrantError::AdminNotSet));
    let mut g2 = GrantStore::new(Some(1));
    // only account 1 may terminate: any other caller aborts
    assert_eq!(g2.admin, Some(1));
    let (s, pays) = g2.terminate_grant_amicably(1, 1, 9, 1_000, 100, 0, 77, 25).unwrap();
    assert_eq!(s.amount_dripped, 250);
    assert_eq!(pays, vec![Payment { to: 9, amount: 250 }, Payment { to: 77, amount: 750 }]);
    assert!(g2.settlements.contains_key(&1));
    let (_, pays) = g2.terminate_grant_amicably(1, 2, 9, 1_000, 100, 0, 77, 0).unwrap();
    assert_eq!(pays, vec![Payment { to: 77, amount: 1_000 }]);
    assert!(g.settlements.is_empty());
}

#[test]
fn grant_voting_snapshot_tally_and_hash() {
    let votes = vec![vote(1, 10, "For"), vote(2, 4, "Against"), vote(3, 3, "Maybe")];
    let snap = create_voting_snapshot(8, &votes, 15, 1234);
    assert_eq!((snap.for_votes, snap.against_votes, snap.abstain_votes, snap.total_votes), (10, 4, 3, 17));
    assert!(snap.quorum_met);
    assert_eq!(snap.result, "APPROVED");
    let mut bytes = Vec::new();
    for x in [8u64.to_be_bytes().to_vec(), 17u32.to_be_bytes().to_vec(), 10u32.to_be_bytes().to_vec(),
        4u32.to_be_bytes().to_vec(), 3u32.to_be_bytes().to_vec(), 15u32.to_be_bytes().to_vec(), 1234u64.to_be_bytes().to_vec()] {
        bytes.extend(x);
    }
    for v in &votes {
        bytes.extend(v.voter.to_string().into_bytes());
        bytes.extend(v.weight.to_be_bytes());
        bytes.extend(v.choice.as_bytes());
    }
    assert_eq!(snap.vote_hash, Sha256::digest(&bytes).to_vec());
    assert_eq!(create_voting_snapshot(8, &votes, 18, 0).result, "QUORUM_NOT_MET");
    assert_eq!(create_voting_snapshot(8, &vec![vote(1, 5, "For"), vote(2, 6, "Against")], 0, 0).result, "REJECTED");
    assert_eq!(create_voting_snapshot(8, &vec![vote(1, 5, "For"), vote(2, 5, "Against")], 0, 0).result, "TIED");
    assert!(GrantStore::new(None).get_voting_snapshot_for_audit(8).is_none());
}

#[test]
fn grant_impact_certificate_lifecycle() {
    let mut g = GrantStore::new(Some(1));
    assert_eq!(g.update_impact_certificate_metadata(5, 1, 3, 100, 0).err(), Some(GrantError::CertificateNotFound));
    let c = g.initialize_impact_certificate(9, 5, 3, "ipfs://start", 10);
    assert_eq!(c.impact_score, 5000);
    assert_eq!(c.on_chain_badge, "NEWCOMER");
    assert_eq!(c.metadata_uri, "ipfs://start");
    let c = g.update_impact_certificate_metadata(5, 1, 3, 2500, 20).unwrap();
    assert_eq!(c.milestone_status, MilestoneProgress::InProgress);
    assert_eq!(c.impact_score, 7500);
    assert_eq!(c.on_chain_badge, "IN_PROGRESS");
    assert_eq!(c.metadata_uri, "https://metadata.sorosusu.com/impact/5/phase1");
    let bar = g.get_progress_bar_data(5).unwrap();
    assert_eq!((bar.progress.as_str(), bar.badge.as_str(), bar.tier.as_str()), ("33", "IN_PROGRESS", "GOLD"));
    let c = g.update_impact_certificate_metadata(5, 3, 3, 9000, 30).unwrap();
    assert_eq!(c.milestone_status, MilestoneProgress::Completed);
    assert_eq!(c.impact_score, 10000);
    assert_eq!(c.on_chain_badge, "IMPACT_MASTER");
    assert_eq!(g.get_progress_bar_data(5).unwrap().tier, "PLATINUM");
    let c = g.update_impact_certificate_metadata(5, 0, 3, -20000, 40).unwrap();
    assert_eq!(c.milestone_status, MilestoneProgress::NotStarted);
    assert_eq!(c.impact_score, 0);
    assert_eq!(g.get_progress_bar_data(5).unwrap().tier, "BRONZE");
    assert!(g.get_progress_bar_data(6).is_none());
}
