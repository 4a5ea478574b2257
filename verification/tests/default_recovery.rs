use sorosusu::default_recovery::{RecoveryStore, RepaymentStatus};

#[test]
fn recovery_default_owes_penalty_and_is_repaid() {
    let mut s = RecoveryStore::new();
    let r = s.record_default(1, 2, 1_000, 600, 5);
    assert_eq!((r.penalty_amount, r.total_owed, r.status), (150, 1_150, RepaymentStatus::Pending));
    assert!(s.get_repayment_record(1, 3).is_none());
    let r = s.repay_default(1, 2, 1_000, 6);
    assert_eq!((r.amount_paid, r.status, r.repaid_at), (1_000, RepaymentStatus::Pending, None));
    let r = s.repay_default(1, 2, 150, 7);
    assert_eq!((r.amount_paid, r.status, r.repaid_at), (1_150, RepaymentStatus::Repaid, Some(7)));
    // a further payment would find no pending default
    assert_eq!(s.get_repayment_record(1, 2).unwrap().status, RepaymentStatus::Repaid);
    assert_eq!(s.get_repayment_record(1, 2).unwrap().amount_paid, 1_150);
}

#[test]
fn recovery_ri_is_gradual() {
    let mut s = RecoveryStore::new();
    assert!(s.get_recovery_progress(1, 2).is_none());
    s.record_default(1, 2, 100, 600, 0);
    // the score never fell, yet three rounds are needed
    let p = s.advance_ri_recovery(1, 2);
    assert_eq!((p.current_ri_score, p.recovery_rounds_completed, p.fully_reinstated), (625, 1, false));
    s.advance_ri_recovery(1, 2);
    let p = s.advance_ri_recovery(1, 2);
    assert_eq!((p.current_ri_score, p.recovery_rounds_completed, p.fully_reinstated), (675, 3, true));
    assert!(s.get_recovery_progress(1, 2).unwrap().fully_reinstated);
    // the score is capped at 1000
    s.record_default(3, 2, 100, 990, 0);
    assert_eq!(s.advance_ri_recovery(3, 2).current_ri_score, 1000);
    assert_eq!(s.get_recovery_progress(3, 2).unwrap().current_ri_score, 1000);
}
