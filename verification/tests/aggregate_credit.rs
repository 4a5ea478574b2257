use sorosusu::aggregate_credit::{AggregateCredit, AggregateCreditError, CollectiveLoanStatus};

fn setup(n: u64, ri: u32) -> AggregateCredit {
    let mut c = AggregateCredit::new();
    for m in 1..=n {
        c.register_identity(m, 1000 + m);
        c.set_member_ri(m, ri);
    }
    c
}

#[test]
fn aggregate_loan_granted_and_repaid() {
    let mut c = setup(25, 400);
    let members: Vec<u64> = (1..=25).collect();
    let loan = c.request_collective_loan(7, members.clone(), 50_000, 99);
    assert_eq!(loan.aggregate_ri, 10_000);
    assert_eq!(loan.status, CollectiveLoanStatus::Active);
    assert!(c.is_vault_locked(7));
    assert_eq!(c.collective_loan_check(7, &members).unwrap_err(), AggregateCreditError::LoanAlreadyActive);
    let partial = c.repay_collective_loan(7, 20_000);
    assert_eq!(partial.status, CollectiveLoanStatus::Active);
    let done = c.repay_collective_loan(7, 30_000);
    assert_eq!(done.status, CollectiveLoanStatus::Repaid);
    assert!(!c.is_vault_locked(7));
    assert_eq!(c.get_loan(7).unwrap().status, CollectiveLoanStatus::Repaid);
}

#[test]
fn aggregate_loan_refusals() {
    let mut c = setup(3, 500);
    assert!(c.is_identity_verified(1));
    assert_eq!(c.collective_loan_check(1, &vec![1, 2, 3]).unwrap_err(), AggregateCreditError::AggregateRiTooLow);
    assert_eq!(c.collective_loan_check(1, &vec![1, 9]).unwrap_err(), AggregateCreditError::MemberNotVerified);
    c.register_identity(4, 1001);
    assert_eq!(c.collective_loan_check(1, &vec![1, 4]).unwrap_err(), AggregateCreditError::DuplicateIdentity);
    c.register_identity(5, 77);
    c.set_member_ri(5, 399);
    assert_eq!(c.collective_loan_check(1, &vec![5]).unwrap_err(), AggregateCreditError::MemberRiTooLow);
    let many: Vec<u64> = (1..=51).collect();
    assert_eq!(c.collective_loan_check(1, &many).unwrap_err(), AggregateCreditError::TooManyMembers);
    assert!(c.get_loan(1).is_none());
    assert!(!c.is_vault_locked(1));
    assert!(c.is_identity_verified(5));
    assert!(!c.is_identity_verified(6));
}

#[test]
fn aggregate_group_default_penalizes_every_member() {
    let mut c = setup(20, 550);
    let members: Vec<u64> = (1..=20).collect();
    c.request_collective_loan(3, members, 1_000, 0);
    let loan = c.trigger_group_default(3);
    assert_eq!(loan.status, CollectiveLoanStatus::Defaulted);
    for m in 1..=20 {
        assert_eq!(c.get_member_ri(m), 350);
    }
    assert_eq!(c.get_loan(3).unwrap().status, CollectiveLoanStatus::Defaulted);
    assert!(c.is_vault_locked(3));
}
