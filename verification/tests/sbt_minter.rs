use sorosusu::sbt_minter::{
    compute_reliability_score, default_metrics, is_locked_status, metadata_for_status,
    status_for_tier, tier_for_score, ReputationTier, SbtError, SbtStatus, SoroSusuSbtMinter,
};

const ADMIN: u64 = 1;
const USER: u64 = 2;

fn minter() -> SoroSusuSbtMinter {
    let mut m = SoroSusuSbtMinter::new();
    m.init_sbt_minter(ADMIN);
    m
}

#[test]
fn sbt_tier_thresholds() {
    assert_eq!(tier_for_score(9_500), ReputationTier::Diamond);
    assert_eq!(tier_for_score(9_499), ReputationTier::Platinum);
    assert_eq!(tier_for_score(8_500), ReputationTier::Platinum);
    assert_eq!(tier_for_score(7_500), ReputationTier::Gold);
    assert_eq!(tier_for_score(6_500), ReputationTier::Silver);
    assert_eq!(tier_for_score(6_499), ReputationTier::Bronze);
    assert_eq!(status_for_tier(&ReputationTier::Gold), SbtStatus::Guardian);
    assert_eq!(status_for_tier(&ReputationTier::Diamond), SbtStatus::SusuLegend);
}

#[test]
fn sbt_reliability_formula() {
    assert_eq!(compute_reliability_score(0, 0, 3), 5_000);
    assert_eq!(compute_reliability_score(12, 12, 0), 10_000);
    assert_eq!(compute_reliability_score(12, 9, 0), 7_500);
    assert_eq!(compute_reliability_score(12, 9, 1), 6_000);
    assert_eq!(compute_reliability_score(10, 20, 0), 10_000);
    assert_eq!(compute_reliability_score(10, 5, 4), 0);
}

#[test]
fn sbt_defaults_and_locks() {
    let m = default_metrics(77);
    assert_eq!(m.reliability_score, 5_000);
    assert_eq!(m.social_capital_score, 5_000);
    assert_eq!(m.last_updated, 77);
    assert!(is_locked_status(&SbtStatus::Revoked));
    assert!(is_locked_status(&SbtStatus::Burned));
    assert!(is_locked_status(&SbtStatus::Delinquent));
    assert!(!is_locked_status(&SbtStatus::Guardian));
    assert_eq!(metadata_for_status(&SbtStatus::Luminary), "ipfs://sorosusu/reputation/platinum");
}

#[test]
fn sbt_cycle_completion_issues_credential() {
    let mut m = minter();
    let token = m.record_cycle_completion(ADMIN, USER, 7, 1_000, 12, 12, 500);
    assert_eq!(token, 1);
    let c = m.get_credential(token, 500);
    assert_eq!(c.user, USER);
    assert_eq!(c.reputation_score, 10_000);
    assert_eq!(c.status, SbtStatus::SusuLegend);
    assert_eq!(c.metadata_uri, "ipfs://sorosusu/reputation/diamond");
    assert_eq!(
        m.cycle_completion_check(ADMIN, USER, 7, 1_000, 12, 12),
        Some(SbtError::CycleAlreadyRecorded)
    );
    assert_eq!(
        m.cycle_completion_check(USER, USER, 8, 1_000, 12, 12),
        Some(SbtError::Unauthorized)
    );
    assert_eq!(
        m.cycle_completion_check(ADMIN, USER, 8, 0, 12, 12),
        Some(SbtError::ZeroValueCycles)
    );
    assert_eq!(
        m.cycle_completion_check(ADMIN, USER, 8, 5, 11, 11),
        Some(SbtError::MinimumCyclesRequired)
    );
    assert_eq!(
        m.cycle_completion_check(ADMIN, USER, 8, 5, 12, 13),
        Some(SbtError::InvalidOnTimeCycleCount)
    );
    assert_eq!(m.get_user_reputation_score(USER, 0), (10_000, 5_000, 7_500));
}

#[test]
fn sbt_milestone_badge_flow() {
    let mut m = minter();
    let id = m.create_reputation_milestone(USER, 12, String::from("a year"), ReputationTier::Gold);
    assert_eq!(id, 1);
    assert_eq!(m.get_reputation_milestone(id).description, "a year");
    assert_eq!(m.issue_check(USER, id, 10), Some(SbtError::MilestoneNotComplete));
    assert_eq!(m.issue_check(3, id, 10), Some(SbtError::MilestoneUserMismatch));
    assert_eq!(m.issue_check(USER, 9, 10), Some(SbtError::MilestoneNotFound));
    m.update_user_reputation_metrics(ADMIN, USER, 8_000, 6_000, 12, 11, 500, 10);
    assert_eq!(m.issue_check(USER, id, 11), None);
    let token = m.issue_credential(USER, id, String::new(), 11);
    let c = m.get_credential(token, 11);
    assert_eq!(c.issue_date, 11);
    assert!(m.get_reputation_milestone(id).is_completed);
    assert_eq!(m.issue_check(USER, id, 12), Some(SbtError::MilestoneAlreadyCompleted));
    assert_eq!(m.get_current_tier(token, 12), ReputationTier::Gold);
}

#[test]
fn sbt_default_revoke_burn_are_locked() {
    let mut m = minter();
    let token = m.record_cycle_completion(ADMIN, USER, 1, 100, 12, 12, 1);
    m.mark_defaulted(USER, 2);
    let c = m.get_credential(token, 3);
    assert_eq!(c.status, SbtStatus::Delinquent);
    assert_eq!(c.reputation_score, 8_500);
    assert_eq!(m.get_current_tier(token, 3), ReputationTier::Bronze);
    m.revoke_credential(token, String::from("fraud"));
    assert_eq!(m.get_credential(token, 3).status, SbtStatus::Revoked);
    m.burn_credential(token);
    assert_eq!(m.refresh_metadata(token, 4), "ipfs://sorosusu/reputation/burned");
    assert!(!m.credentials.contains_key(&99));
    assert!(!m.user_credential.contains_key(&42));
}

#[test]
fn sbt_is_soulbound() {
    let m = minter();
    assert_eq!(m.transfer(USER, 3, 1), Err(SbtError::NonTransferable));
    assert_eq!(m.transfer_from(ADMIN, USER, 3, 1), Err(SbtError::NonTransferable));
    assert_eq!(m.approve(USER, 3, 1), Err(SbtError::ApprovalsDisabled));
}

#[test]
fn sbt_admin_handover_and_uninitialized() {
    let fresh = SoroSusuSbtMinter::new();
    assert_eq!(fresh.admin, None);
    assert_eq!(fresh.cycle_completion_check(ADMIN, USER, 1, 100, 12, 12), Some(SbtError::NotInitialized));
    let mut m = minter();
    m.set_sbt_minter_admin(ADMIN, USER);
    assert_eq!(m.admin, Some(USER));
    assert_eq!(m.cycle_completion_check(ADMIN, USER, 1, 100, 12, 12), Some(SbtError::Unauthorized));
    m.update_user_reputation_metrics(USER, 5, 10_000, 0, 0, 0, 0, 0);
    assert_eq!(m.get_user_reputation_score(5, 0), (10_000, 0, 5_000));
}

#[test]
fn sbt_user_credential_lookup() {
    let mut m = minter();
    assert_eq!(m.get_user_credential(USER, 0).is_none(), true);
    let token = m.record_cycle_completion(ADMIN, USER, 1, 100, 12, 6, 1);
    let c = m.get_user_credential(USER, 2).unwrap();
    assert_eq!(c.token_id, token);
    assert_eq!(c.reputation_score, 5_000);
    assert_eq!(c.status, SbtStatus::Discovery);
    assert_eq!(m.metadata_uri(token, 2), "ipfs://sorosusu/reputation/bronze");
}
