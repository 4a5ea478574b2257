use sorosusu::dispute::{
    BondMovement, CircleSummary, DisputeError, DisputeEvent, DisputeStatus, DisputeStore, DISPUTE_BOND_STROOPS,
    THIRTY_DAYS_SECS, ZOMBIE_PRUNE_WINDOW_SECS,
};

#[test]
fn dispute_lock_is_not_reentrant() {
    let mut s = DisputeStore::new();
    assert!(!s.non_reentrant);
    s.acquire_lock();
    // a second acquisition now would be a reentrant call
    assert!(s.non_reentrant);
    s.release_lock();
    assert!(!s.non_reentrant);
    s.acquire_lock();
    assert!(s.non_reentrant);
}

#[test]
fn dispute_cleanup_after_thirty_days() {
    let mut s = DisputeStore::new();
    assert_eq!(s.cleanup_check(3, 0), Some(DisputeError::CircleNotCompleted));
    s.circle_completed_at.insert(3, 1_000);
    s.circles.insert(3, CircleSummary { is_active: false, member_count: 2 });
    assert_eq!(s.cleanup_check(3, 1_000 + THIRTY_DAYS_SECS - 1), Some(DisputeError::CleanupWindowNotElapsed));
    assert_eq!(s.cleanup_check(3, 1_000 + THIRTY_DAYS_SECS), None);
    assert_eq!(s.cleanup_group(3, 1_000 + THIRTY_DAYS_SECS), DisputeEvent::GroupCleaned { circle_id: 3, meta_hash: 3 });
    assert_eq!(s.archived_group_hash[&3], 3);
    assert!(!s.circles.contains_key(&3));
    assert!(!s.circle_completed_at.contains_key(&3));
    assert_eq!(s.group_reserve, 1);
}

#[test]
fn dispute_prune_zombie_group() {
    let mut s = DisputeStore::new();
    assert_eq!(s.prune_zombie_group(4, 0), Err(404));
    s.circle_completed_at.insert(4, 10);
    assert_eq!(s.prune_zombie_group(4, 0), Err(405));
    s.mark_circle_drained(4, 20);
    assert_eq!(s.prune_check(4, 10 + ZOMBIE_PRUNE_WINDOW_SECS - 1), Some(406));
    assert_eq!(s.prune_check(4, 10 + ZOMBIE_PRUNE_WINDOW_SECS), Some(407));
    s.circles.insert(4, CircleSummary { is_active: true, member_count: 3 });
    let now = 20 + ZOMBIE_PRUNE_WINDOW_SECS;
    assert_eq!(s.prune_check(4, now), Some(408));
    s.circles.insert(4, CircleSummary { is_active: false, member_count: 3 });
    for i in 0..4u64 {
        s.circle_members.insert((4, i), 100 + i);
    }
    s.circle_members.insert((5, 0), 7);
    s.group_reserve = 10_000_000;
    // 700 + 300 bytes: one kilobyte, a year of rent at 12,500 a day, 5% of it
    assert_eq!(s.prune_check(4, now), None);
    assert_eq!(s.prune_check(9, now), Some(404));
    let bounty = s.prune_zombie_group(4, now).unwrap();
    assert_eq!(bounty, 228_125);
    assert_eq!(s.group_reserve, 10_000_000 - 228_125);
    assert_eq!(s.archived_group_hash[&4], (4u64 + 10).wrapping_mul(21));
    assert!(!s.circles.contains_key(&4));
    assert!(!s.circle_drained_at.contains_key(&4));
    // member positions 0..3 removed, the one past the count and other circles kept
    assert_eq!(s.circle_members.len(), 2);
    assert!(s.circle_members.contains_key(&(4, 3)));
    assert!(s.circle_members.contains_key(&(5, 0)));
}

#[test]
fn dispute_bond_lifecycle() {
    let mut s = DisputeStore::new();
    let (id, bond, ev) = s.raise_dispute(1, 2, 9, 50);
    assert_eq!(id, 1);
    assert_eq!(bond, BondMovement::Lock { from: 1, amount: DISPUTE_BOND_STROOPS });
    assert_eq!(ev, DisputeEvent::DisputeRaised { dispute_id: 1, circle_id: 9, accuser: 1, accused: 2 });
    assert_eq!(s.submit_evidence(1, 1, 0xabc), DisputeEvent::EvidenceSubmitted { dispute_id: 1, submitter: 1, evidence_hash: 0xabc });
    assert_eq!(s.juror_vote(7, 1, true), DisputeEvent::JurorVoted { dispute_id: 1, juror: 7, vote_guilty: true });
    assert_eq!(s.open_dispute(2).unwrap_err(), DisputeError::DisputeNotFound);
    let (m, _) = s.execute_verdict(1, true);
    assert_eq!(m, BondMovement::Release { to: 2, amount: DISPUTE_BOND_STROOPS });
    assert_eq!(s.disputes[&1].status, DisputeStatus::Baseless);
    assert_eq!(s.open_dispute(1).unwrap_err(), DisputeError::DisputeNotOpen);
    let (id2, _, _) = s.raise_dispute(3, 4, 9, 60);
    assert_eq!(id2, 2);
    let (m2, ev2) = s.execute_verdict(2, false);
    assert_eq!(m2, BondMovement::Release { to: 3, amount: DISPUTE_BOND_STROOPS });
    assert_eq!(ev2, DisputeEvent::VerdictExecuted { dispute_id: 2, baseless: false, accuser: 3, accused: 4 });
    assert_eq!(s.disputes[&2].status, DisputeStatus::Resolved);
}
