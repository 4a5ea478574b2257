use sorosusu::social_vouching::{
    calculate_risk_score, CollateralVouchStatus, ReductionEventType, VouchError, VouchStatus,
    VouchStore, VOUCH_EXPIRY_SECONDS,
};

#[test]
fn vouching_risk_score_formula() {
    assert_eq!(calculate_risk_score(800, 5000), 60);
    assert_eq!(calculate_risk_score(1000, 0), 0);
    assert_eq!(calculate_risk_score(0, 5000), 100);
}

#[test]
fn vouching_capital_vouch_and_slash() {
    let mut s = VouchStore::new();
    assert_eq!(s.vouch_check(1, 2, 100, 699), Some(VouchError::RiScoreTooLow));
    assert_eq!(s.vouch_check(1, 2, 0, 700), Some(VouchError::LockedAmountNotPositive));
    assert_eq!(s.vouch_check(1, 1, 100, 700), Some(VouchError::SelfVouch));
    assert_eq!(s.vouch_check(1, 2, 10_000, 750), None);
    let r = s.vouch_for_user(1, 2, 9, 10_000, 750, 1_000);
    assert_eq!(r.expires_at, 1_000 + VOUCH_EXPIRY_SECONDS);
    assert_eq!(s.get_active_vouch_count(1), 1);
    s.vouch_for_user(1, 3, 9, 10, 750, 0);
    s.vouch_for_user(1, 4, 9, 10, 750, 0);
    assert_eq!(s.vouch_check(1, 5, 10, 750), Some(VouchError::MaxActiveVouches));
    let slashed = s.slash_voucher(1, 2);
    assert_eq!(slashed.slash_amount, 2_000);
    assert_eq!(slashed.status, VouchStatus::Slashed);
    assert_eq!(s.get_active_vouch_count(1), 2);
    assert_eq!(s.get_vouch_record(1, 2).unwrap().status, VouchStatus::Slashed);
    assert!(s.get_vouch_record(2, 1).is_none());
}

#[test]
fn vouching_collateral_reduction_lifecycle() {
    let mut s = VouchStore::new();
    assert_eq!(s.collateral_vouch_check(1, 2, 5, 1000, 500, 799, Some(3000)), Some(VouchError::InsufficientReputation));
    assert_eq!(s.collateral_vouch_check(1, 2, 5, 5001, 500, 900, Some(3000)), Some(VouchError::InvalidReductionAmount));
    assert_eq!(s.collateral_vouch_check(1, 2, 5, 1000, 0, 900, Some(3000)), Some(VouchError::InvalidReductionAmount));
    assert_eq!(s.collateral_vouch_check(2, 2, 5, 1000, 500, 900, Some(3000)), Some(VouchError::SelfVouch));
    assert_eq!(s.collateral_vouch_check(1, 2, 5, 1000, 500, 900, None), Some(VouchError::CircleNotFound));
    assert_eq!(s.collateral_vouch_check(1, 2, 5, 0, 500, 900, Some(3000)), None);
    let v = s.create_collateral_vouch(1, 2, 5, 1000, 500, 900, Some(3000), 10);
    assert_eq!(v.risk_score, 15);
    assert_eq!(v.status, CollateralVouchStatus::Active);
    assert_eq!(s.collateral_vouch_check(1, 2, 5, 1000, 500, 900, Some(3000)), Some(VouchError::VouchAlreadyExists));
    let r = s.get_collateral_reduction(5, 2).unwrap();
    assert_eq!(r.current_collateral_bps, 2000);
    assert_eq!(r.active_vouches, vec![1]);
    assert!(r.is_active);
    assert_eq!(s.collateral_vouch_check(3, 2, 5, 2500, 500, 1000, None), None);
    s.create_collateral_vouch(3, 2, 5, 2500, 500, 1000, None, 11);
    assert_eq!(s.get_collateral_reduction(5, 2).unwrap().current_collateral_bps, 0);
    assert_eq!(s.utilize_check(2, 5, 1, 600), Some(VouchError::ExceedsMaximum));
    assert_eq!(s.utilize_check(2, 5, 9, 1), Some(VouchError::VouchNotFound));
    assert_eq!(s.utilize_collateral_vouch(2, 5, 1, 200, 12), 0);
    assert_eq!(s.utilize_check(2, 5, 1, 1), Some(VouchError::VouchNotActive));
    assert_eq!(s.cancel_check(1, 2, 5, None), Some(VouchError::VouchInUse));
    assert_eq!(s.cancel_check(9, 2, 5, None), Some(VouchError::VouchNotFound));
    assert_eq!(s.cancel_check(3, 2, 5, None), None);
    s.cancel_collateral_vouch(3, 2, 5, None, 14);
    let after_cancel = s.get_collateral_reduction(5, 2).unwrap();
    assert_eq!(after_cancel.total_reduction_bps, 1000);
    assert_eq!(after_cancel.active_vouches, vec![1]);
    assert_eq!(s.slash_collateral_vouch(2, 5, 1, 15), 100);
    let reset = s.get_collateral_reduction(5, 2).unwrap();
    assert_eq!(reset.total_reduction_bps, 0);
    assert_eq!(reset.current_collateral_bps, 3000);
    assert!(reset.active_vouches.is_empty());
    assert_eq!(s.slash_collateral_vouch(2, 5, 1, 16), 0);
    let history = &s.reduction_history[&(5, 2)];
    assert_eq!(history.len(), 5);
    assert_eq!(history[4].event_type, ReductionEventType::VouchSlashed);
    assert_eq!(history[3].event_type, ReductionEventType::MemberDefault);
    assert_eq!(history[3].reduction_change, -3000);
    assert!(s.get_active_collateral_vouches(5, 1).is_empty());
}

#[test]
fn vouching_accepts_any_circle_requirement_until_a_default() {
    let mut s = VouchStore::new();
    let big = 0x8000_0000u32;
    let v = s.create_collateral_vouch(1, 2, 5, 1000, 500, 900, Some(big), 0);
    assert_eq!(v.status, CollateralVouchStatus::Active);
    let r = s.get_collateral_reduction(5, 2).unwrap();
    assert_eq!(r.original_collateral_bps, big);
    assert_eq!(r.total_reduction_bps, 1000);
    s.cancel_collateral_vouch(1, 2, 5, Some(big), 1);
    assert_eq!(s.get_collateral_reduction(5, 2).unwrap().total_reduction_bps, 0);
}

#[test]
fn vouching_five_active_collateral_vouches_at_most() {
    let mut s = VouchStore::new();
    for member in 10..15u64 {
        assert_eq!(s.collateral_vouch_check(1, member, 5, 100, 50, 900, Some(3000)), None);
        s.create_collateral_vouch(1, member, 5, 100, 50, 900, Some(3000), 0);
    }
    assert_eq!(s.collateral_vouch_check(1, 20, 5, 100, 50, 900, Some(3000)), Some(VouchError::TooManyActiveVouches));
}
