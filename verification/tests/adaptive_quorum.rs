use sorosusu::adaptive_quorum::{
    apply_silent_sabotage_protection, calculate_adaptive_quorum, create_adaptive_quorum_state,
    get_dynamic_quorum_adjustment, initialize_adaptive_quorum_settings, is_proposal_expired,
    is_quorum_met, record_participation, register_contest_vote, update_velocity_tracking,
    AdaptiveQuorumState, ParticipationVelocity, ProposalType, EMERGENCY_DECAY_SECONDS,
    MIN_QUORUM_FLOOR_BPS,
};

// The ledger clock these scenarios run at.
const NOW: u64 = 10_000_000;

fn create_test_state(proposal_id: u64, proposal_type: ProposalType, total_voters: u32, decay_duration: u64) -> AdaptiveQuorumState {
    let settings = initialize_adaptive_quorum_settings();
    create_adaptive_quorum_state(proposal_id, 1, proposal_type, total_voters, decay_duration, &settings, NOW)
}

#[test]
fn test_decay_reaches_minimum_after_48_hours() {
    let mut state = create_test_state(1, ProposalType::Emergency, 100, EMERGENCY_DECAY_SECONDS);
    state.config.decay_start_timestamp = NOW - EMERGENCY_DECAY_SECONDS;
    let quorum = calculate_adaptive_quorum(&state, NOW);
    assert_eq!(quorum, state.config.minimum_quorum_bps);
}

#[test]
fn test_decay_starts_at_initial() {
    let state = create_test_state(1, ProposalType::Emergency, 100, EMERGENCY_DECAY_SECONDS);
    let quorum = calculate_adaptive_quorum(&state, NOW);
    assert_eq!(quorum, state.config.initial_quorum_bps);
}

#[test]
fn test_contest_resets_decay_timer() {
    let mut state = create_test_state(1, ProposalType::Emergency, 100, EMERGENCY_DECAY_SECONDS);
    let voter = 77u64;
    let current_timestamp = NOW;
    state.config.decay_start_timestamp = current_timestamp - 86400;
    let quorum_before = calculate_adaptive_quorum(&state, current_timestamp);
    assert_eq!(quorum_before, 3750);
    for _ in 0..15 {
        register_contest_vote(&mut state, &voter, current_timestamp);
    }
    assert_eq!(state.config.decay_start_timestamp, current_timestamp);
    assert!(state.contest_tracker.decay_reset_count > 0);
    let quorum_after = calculate_adaptive_quorum(&state, current_timestamp);
    assert_eq!(quorum_after, state.config.initial_quorum_bps);
}

#[test]
fn test_quorum_never_below_silent_sabotage_threshold() {
    let mut state = create_test_state(1, ProposalType::Emergency, 100, EMERGENCY_DECAY_SECONDS);
    state.config.decay_start_timestamp = NOW - 1_000_000;
    let quorum = calculate_adaptive_quorum(&state, NOW);
    assert!(quorum >= MIN_QUORUM_FLOOR_BPS);
}

#[test]
fn test_participation_record_creation() {
    let record = record_participation(1, 100, 50, NOW);
    assert_eq!(record.proposal_id, 1);
    assert_eq!(record.total_eligible_voters, 100);
    assert_eq!(record.actual_participants, 50);
    assert_eq!(record.participation_rate_bps, 5000);
}

#[test]
fn test_velocity_tracking_max_records() {
    let mut velocity = ParticipationVelocity { vote_records: Vec::new(), average_participation: 0, velocity_trend: 0 };
    for i in 0..15 {
        let record = record_participation(i as u64, 100, 50, NOW + i);
        update_velocity_tracking(&mut velocity, record);
    }
    assert_eq!(velocity.vote_records.len(), 10);
}

#[test]
fn quorum_halfway_through_decay() {
    let mut state = create_test_state(1, ProposalType::Emergency, 100, EMERGENCY_DECAY_SECONDS);
    state.config.decay_start_timestamp = NOW - 86_400;
    assert_eq!(calculate_adaptive_quorum(&state, NOW), 3750);
    state.config.decay_start_timestamp = NOW + 5;
    assert_eq!(calculate_adaptive_quorum(&state, NOW), 5000);
}

#[test]
fn quorum_standard_is_fixed_and_met() {
    let mut state = create_test_state(2, ProposalType::Standard, 10, 100);
    assert_eq!(calculate_adaptive_quorum(&state, NOW + 1_000_000), 7000);
    state.current_participants = 6;
    assert!(!is_quorum_met(&state, NOW));
    state.current_participants = 7;
    assert!(is_quorum_met(&state, NOW));
    assert!(!is_proposal_expired(&state, NOW + 100));
    assert!(is_proposal_expired(&state, NOW + 101));
}

#[test]
fn quorum_floor_applies_while_decaying() {
    let mut state = create_test_state(3, ProposalType::Emergency, 100, EMERGENCY_DECAY_SECONDS);
    state.config.initial_quorum_bps = 800;
    state.config.minimum_quorum_bps = 200;
    assert_eq!(calculate_adaptive_quorum(&state, NOW), MIN_QUORUM_FLOOR_BPS);
    state.config.decay_start_timestamp = NOW - EMERGENCY_DECAY_SECONDS;
    assert_eq!(calculate_adaptive_quorum(&state, NOW), 200);
    assert_eq!(apply_silent_sabotage_protection(1500, 3), 1500);
}

#[test]
fn quorum_contest_below_threshold_does_not_reset() {
    let mut state = create_test_state(4, ProposalType::Emergency, 100, EMERGENCY_DECAY_SECONDS);
    state.config.decay_start_timestamp = NOW - 500;
    assert!(!register_contest_vote(&mut state, &1u64, NOW));
    assert_eq!(state.contest_tracker.contest_count, 1);
    assert_eq!(state.config.decay_start_timestamp, NOW - 500);
}

#[test]
fn quorum_velocity_average_trend_and_adjustment() {
    let settings = initialize_adaptive_quorum_settings();
    let mut velocity = ParticipationVelocity { vote_records: Vec::new(), average_participation: 0, velocity_trend: 0 };
    let rates = [60u32, 60, 60, 30, 30, 30];
    for (i, p) in rates.iter().enumerate() {
        update_velocity_tracking(&mut velocity, record_participation(i as u64, 100, *p, NOW));
    }
    assert_eq!(velocity.average_participation, 4500);
    assert_eq!(velocity.velocity_trend, -3000);
    assert_eq!(get_dynamic_quorum_adjustment(&velocity, 5000, &settings), 4500);
    let quiet = ParticipationVelocity {
        vote_records: vec![record_participation(0, 100, 1, NOW); 3],
        average_participation: 100,
        velocity_trend: 0,
    };
    assert_eq!(get_dynamic_quorum_adjustment(&quiet, 5000, &settings), 4000);
    assert_eq!(get_dynamic_quorum_adjustment(&quiet, 1000, &settings), 1000);
    let few = ParticipationVelocity { vote_records: Vec::new(), average_participation: 0, velocity_trend: -9999 };
    assert_eq!(get_dynamic_quorum_adjustment(&few, 5000, &settings), 5000);
    assert_eq!(record_participation(1, 0, 5, NOW).participation_rate_bps, 0);
}
