//! Adaptive quorum for protocol governance: emergency proposals start at a
//! high quorum that decays linearly to a floor, contests reset the decay, and
//! participation velocity can lower the quorum of habitually quiet groups.
use vstd::prelude::*;
use crate::AccountId;

verus! {

/// Kind of proposal; only emergency proposals decay.
#[derive(Clone, Copy, Debug, PartialEq, Eq, Structural)]
pub enum ProposalType {
    Emergency,
    Standard,
}

/// Lifecycle status of a proposal.
#[derive(Clone, Copy, Debug, PartialEq, Eq, Structural)]
pub enum ProposalStatus {
    Active,
    Approved,
    Rejected,
    Expired,
    Executed,
}

/// Quorum parameters of one proposal.
#[derive(Clone, Copy, Debug, PartialEq, Eq, Structural)]
pub struct AdaptiveQuorumConfig {
    pub proposal_type: ProposalType,
    pub initial_quorum_bps: u32,
    pub minimum_quorum_bps: u32,
    pub decay_start_timestamp: u64,
    pub decay_duration_seconds: u64,
    pub current_quorum_bps: u32,
    pub is_decayed: bool,
}

/// Participation of one past vote.
#[derive(Clone, Copy, Debug, PartialEq, Eq, Structural)]
pub struct ParticipationRecord {
    pub proposal_id: u64,
    pub total_eligible_voters: u32,
    pub actual_participants: u32,
    pub participation_rate_bps: u32,
    pub timestamp: u64,
}

/// The last successful votes' participation and its trend.
#[derive(Clone, Debug)]
pub struct ParticipationVelocity {
    pub vote_records: Vec<ParticipationRecord>,
    pub average_participation: u32,
    pub velocity_trend: i32,
}

/// Contest votes against a decaying proposal.
#[derive(Clone, Copy, Debug, PartialEq, Eq, Structural)]
pub struct ContestTracker {
    pub contest_count: u32,
    pub contest_threshold: u32,
    pub last_contest_timestamp: u64,
    pub decay_reset_count: u32,
}

/// Quorum state of one proposal.
#[derive(Clone, Copy, Debug, PartialEq, Eq, Structural)]
pub struct AdaptiveQuorumState {
    pub proposal_id: u64,
    pub circle_id: u64,
    pub config: AdaptiveQuorumConfig,
    pub contest_tracker: ContestTracker,
    pub total_eligible_voters: u32,
    pub current_participants: u32,
    pub created_timestamp: u64,
    pub voting_end_timestamp: u64,
}

/// Protocol-wide quorum settings.
#[derive(Clone, Copy, Debug, PartialEq, Eq, Structural)]
pub struct AdaptiveQuorumSettings {
    pub emergency_initial_quorum_bps: u32,
    pub emergency_minimum_quorum_bps: u32,
    pub emergency_decay_duration_seconds: u64,
    pub standard_quorum_bps: u32,
    pub contest_reset_threshold_bps: u32,
    pub min_velocity_samples: u32,
    pub silent_sabotage_threshold: u32,
}

/// Forty-eight hours, the decay period of emergency proposals.
pub const EMERGENCY_DECAY_SECONDS: u64 = 172_800;
/// Fixed-point scale (10000 = 1.0).
pub const FIXED_POINT_SCALE: u128 = 10000;
/// Participation records kept for velocity tracking.
pub const MAX_VELOCITY_SAMPLES: u32 = 10;
/// The quorum a decaying proposal never goes below (10%).
pub const MIN_QUORUM_FLOOR_BPS: u32 = 1000;

/// The default settings.
pub open spec fn spec_default_settings() -> AdaptiveQuorumSettings {
    AdaptiveQuorumSettings {
        emergency_initial_quorum_bps: 5000,
        emergency_minimum_quorum_bps: 2500,
        emergency_decay_duration_seconds: EMERGENCY_DECAY_SECONDS,
        standard_quorum_bps: 7000,
        contest_reset_threshold_bps: 1500,
        min_velocity_samples: 3,
        silent_sabotage_threshold: 1000,
    }
}

/// The default settings: 50% decaying to 25% over 48 hours for emergencies,
/// 70% for standard proposals, 15% contests reset the decay.
pub fn initialize_adaptive_quorum_settings() -> (r: AdaptiveQuorumSettings)
    ensures
        r == spec_default_settings(),
{
    AdaptiveQuorumSettings {
        emergency_initial_quorum_bps: 5000,
        emergency_minimum_quorum_bps: 2500,
        emergency_decay_duration_seconds: EMERGENCY_DECAY_SECONDS,
        standard_quorum_bps: 7000,
        contest_reset_threshold_bps: 1500,
        min_velocity_samples: 3,
        silent_sabotage_threshold: 1000,
    }
}

/// Seconds of decay elapsed at `now`.
pub open spec fn elapsed_at(config: AdaptiveQuorumConfig, now: u64) -> int {
    if now > config.decay_start_timestamp { now - config.decay_start_timestamp } else { 0 }
}

/// Whether the decay is still running at `now` (emergency, not marked
/// decayed, period not over).
pub open spec fn mid_decay(config: AdaptiveQuorumConfig, now: u64) -> bool {
    config.proposal_type == ProposalType::Emergency && !config.is_decayed
        && elapsed_at(config, now) < config.decay_duration_seconds
}

/// The quorum in force at `now`.
pub open spec fn spec_adaptive_quorum(state: AdaptiveQuorumState, now: u64) -> u32 {
    let c = state.config;
    if c.proposal_type == ProposalType::Standard {
        c.initial_quorum_bps
    } else if c.is_decayed {
        c.minimum_quorum_bps
    } else if elapsed_at(c, now) >= c.decay_duration_seconds {
        c.minimum_quorum_bps
    } else {
        let progress = elapsed_at(c, now) * 10000 / (c.decay_duration_seconds as int);
        let current = c.initial_quorum_bps - (c.initial_quorum_bps - c.minimum_quorum_bps) * progress / 10000;
        let clamped = if current > c.minimum_quorum_bps { current } else { c.minimum_quorum_bps as int };
        if clamped > MIN_QUORUM_FLOOR_BPS { clamped as u32 } else { MIN_QUORUM_FLOOR_BPS }
    }
}

/// What computing the quorum needs: a decay that never rises.
pub open spec fn quorum_computable(state: AdaptiveQuorumState, now: u64) -> bool {
    mid_decay(state.config, now) ==> state.config.minimum_quorum_bps <= state.config.initial_quorum_bps
}

/// The quorum in force at `current_timestamp`: fixed for standard
/// proposals; for emergency ones, linear decay from the initial to the
/// minimum quorum over the decay period, never below 10% while decaying.
pub fn calculate_adaptive_quorum(state: &AdaptiveQuorumState, current_timestamp: u64) -> (r: u32)
    requires
        quorum_computable(*state, current_timestamp),
    ensures
        r == spec_adaptive_quorum(*state, current_timestamp),
{
    let config = &state.config;
    if config.proposal_type == ProposalType::Standard {
        return config.initial_quorum_bps;
    }
    if config.is_decayed {
        return config.minimum_quorum_bps;
    }
    let elapsed: u64 = if current_timestamp > config.decay_start_timestamp {
        current_timestamp - config.decay_start_timestamp
    } else {
        0
    };
    if elapsed >= config.decay_duration_seconds {
        return config.minimum_quorum_bps;
    }
    let decay_progress: u128 = (elapsed as u128) * FIXED_POINT_SCALE / (config.decay_duration_seconds as u128);
    proof {
        assert(decay_progress <= 10000) by (nonlinear_arith)
            requires decay_progress == (elapsed as int) * 10000 / (config.decay_duration_seconds as int),
                elapsed < config.decay_duration_seconds;
    }
    let initial_quorum = config.initial_quorum_bps as u128;
    let minimum_quorum = config.minimum_quorum_bps as u128;
    let decay_range = initial_quorum - minimum_quorum;
    proof {
        assert(decay_range * decay_progress / 10000 <= decay_range) by (nonlinear_arith)
            requires decay_progress <= 10000, decay_range >= 0;
        assert(decay_range * decay_progress <= 0xffff_ffff * 10000) by (nonlinear_arith)
            requires decay_progress <= 10000, decay_range <= 0xffff_ffff;
    }
    let current_quorum = initial_quorum - (decay_range * decay_progress / FIXED_POINT_SCALE);
    let clamped_quorum = if current_quorum > minimum_quorum { current_quorum } else { minimum_quorum };
    let velocity_adjusted = apply_velocity_adjustment(clamped_quorum as u32);
    apply_silent_sabotage_protection(velocity_adjusted, state.total_eligible_voters)
}

/// The velocity adjustment of the decay path: the base quorum unchanged.
pub fn apply_velocity_adjustment(base_quorum: u32) -> (r: u32)
    ensures
        r == base_quorum,
{
    base_quorum
}

/// Raises a quorum to the 10% floor.
pub fn apply_silent_sabotage_protection(quorum: u32, _total_voters: u32) -> (r: u32)
    ensures
        r == if quorum > MIN_QUORUM_FLOOR_BPS { quorum } else { MIN_QUORUM_FLOOR_BPS },
{
    if quorum > MIN_QUORUM_FLOOR_BPS { quorum } else { MIN_QUORUM_FLOOR_BPS }
}

/// Votes needed at `now`: the quorum share of the eligible voters, rounded down.
pub open spec fn required_votes(state: AdaptiveQuorumState, now: u64) -> int {
    state.total_eligible_voters * spec_adaptive_quorum(state, now) / 10000
}

/// Whether enough voters took part to meet the quorum in force.
pub fn is_quorum_met(state: &AdaptiveQuorumState, current_timestamp: u64) -> (r: bool)
    requires
        quorum_computable(*state, current_timestamp),
    ensures
        r == (state.current_participants >= required_votes(*state, current_timestamp)),
        r == (state.current_participants * 10000 >= state.total_eligible_voters * spec_adaptive_quorum(*state,
            current_timestamp) - state.total_eligible_voters * spec_adaptive_quorum(*state, current_timestamp) % 10000),
{
    let current_quorum_bps = calculate_adaptive_quorum(state, current_timestamp);
    proof {
        let a = state.total_eligible_voters as int;
        let b = current_quorum_bps as int;
        assert(a * b <= 0xffff_ffff * 0xffff_ffff) by (nonlinear_arith)
            requires 0 <= a <= 0xffff_ffff, 0 <= b <= 0xffff_ffff;
    }
    let required_votes: u128 = (state.total_eligible_voters as u128 * current_quorum_bps as u128) / 10000;
    state.current_participants as u128 >= required_votes
}

/// The state after its decay restarts at `now`.
pub open spec fn spec_reset(state: AdaptiveQuorumState, now: u64) -> AdaptiveQuorumState {
    AdaptiveQuorumState {
        config: AdaptiveQuorumConfig { decay_start_timestamp: now, is_decayed: false, ..state.config },
        contest_tracker: ContestTracker {
            decay_reset_count: (state.contest_tracker.decay_reset_count + 1) as u32,
            ..state.contest_tracker
        },
        ..state
    }
}

/// Restarts the decay of a contested proposal at `current_timestamp`.
pub fn reset_quorum_decay(state: &mut AdaptiveQuorumState, current_timestamp: u64)
    requires
        old(state).contest_tracker.decay_reset_count < u32::MAX,
    ensures
        *final(state) == spec_reset(*old(state), current_timestamp),
{
    state.config.decay_start_timestamp = current_timestamp;
    state.config.is_decayed = false;
    state.contest_tracker.decay_reset_count = state.contest_tracker.decay_reset_count + 1;
}

/// Contest share (bps of eligible voters, at least one) after one more contest.
pub open spec fn contest_bps_after(state: AdaptiveQuorumState) -> int {
    (state.contest_tracker.contest_count + 1) * 10000
        / (if state.total_eligible_voters > 1 { state.total_eligible_voters as int } else { 1 })
}

/// Registers one contest vote; when contests reach the threshold share,
/// the decay restarts. Returns whether it restarted.
pub fn register_contest_vote(state: &mut AdaptiveQuorumState, _voter: &AccountId, current_timestamp: u64) -> (r: bool)
    requires
        old(state).contest_tracker.contest_count < u32::MAX,
        old(state).contest_tracker.decay_reset_count < u32::MAX,
    ensures
        ({
            let counted = AdaptiveQuorumState {
                contest_tracker: ContestTracker {
                    contest_count: (old(state).contest_tracker.contest_count + 1) as u32,
                    last_contest_timestamp: current_timestamp,
                    ..old(state).contest_tracker
                },
                ..*old(state)
            };
            &&& r == (contest_bps_after(*old(state)) >= old(state).contest_tracker.contest_threshold)
            &&& *final(state) == if r { spec_reset(counted, current_timestamp) } else { counted }
        }),
{
    state.contest_tracker.contest_count = state.contest_tracker.contest_count + 1;
    state.contest_tracker.last_contest_timestamp = current_timestamp;
    let voters: u128 = if state.total_eligible_voters as u128 > 1 { state.total_eligible_voters as u128 } else { 1 };
    let contest_bps = (state.contest_tracker.contest_count as u128 * 10000) / voters;
    if contest_bps >= state.contest_tracker.contest_threshold as u128 {
        reset_quorum_decay(state, current_timestamp);
        return true;
    }
    false
}

/// Participation rate in bps (truncated to 32 bits), 0 with no eligible voters.
pub open spec fn participation_rate(total_eligible: u32, actual_participants: u32) -> u32 {
    if total_eligible > 0 { (actual_participants * 10000 / (total_eligible as int)) as u32 } else { 0 }
}

/// The participation record of a finished vote.
pub fn record_participation(
    proposal_id: u64,
    total_eligible: u32,
    actual_participants: u32,
    timestamp: u64,
) -> (r: ParticipationRecord)
    ensures
        r == (ParticipationRecord {
            proposal_id,
            total_eligible_voters: total_eligible,
            actual_participants,
            participation_rate_bps: participation_rate(total_eligible, actual_participants),
            timestamp,
        }),
{
    let rate: u128 = if total_eligible > 0 {
        (actual_participants as u128 * 10000) / (total_eligible as u128)
    } else {
        0
    };
    ParticipationRecord {
        proposal_id,
        total_eligible_voters: total_eligible,
        actual_participants,
        participation_rate_bps: rate as u32,
        timestamp,
    }
}

/// Sum of the participation rates of `records`.
pub open spec fn sum_rates(records: Seq<ParticipationRecord>) -> int
    decreases records.len(),
{
    if records.len() == 0 {
        0
    } else {
        sum_rates(records.drop_last()) + records.last().participation_rate_bps
    }
}

/// The kept records after `new_record` arrives: the newest ten.
pub open spec fn kept_records(old_records: Seq<ParticipationRecord>, new_record: ParticipationRecord) -> Seq<ParticipationRecord> {
    let all = old_records.push(new_record);
    if all.len() > 10 { all.subrange(all.len() - 10, all.len() as int) } else { all }
}

/// The trend: mean of the last three rates minus mean of the three before,
/// each mean truncated to 32 signed bits.
pub open spec fn trend_of(records: Seq<ParticipationRecord>) -> int {
    let len = records.len() as int;
    let recent = sum_rates(records.subrange(len - 3, len)) / 3;
    let older = sum_rates(records.subrange(len - 6, len - 3)) / 3;
    (recent as i32) - (older as i32)
}

proof fn lemma_sum_rates_bound(records: Seq<ParticipationRecord>)
    ensures
        0 <= sum_rates(records) <= records.len() * 0xffff_ffff,
    decreases records.len(),
{
    if records.len() > 0 {
        lemma_sum_rates_bound(records.drop_last());
    }
}

proof fn lemma_sum_rates_push(records: Seq<ParticipationRecord>, i: int)
    requires
        0 <= i < records.len(),
    ensures
        sum_rates(records.subrange(0, i + 1)) == sum_rates(records.subrange(0, i)) + records[i].participation_rate_bps,
{
    assert(records.subrange(0, i + 1).drop_last() =~= records.subrange(0, i));
}

proof fn lemma_sum_rates_window(records: Seq<ParticipationRecord>, lo: int, hi: int)
    requires
        0 <= lo <= hi <= records.len(),
    ensures
        sum_rates(records.subrange(lo, hi)) == sum_rates(records.subrange(0, hi)) - sum_rates(records.subrange(0, lo)),
    decreases hi - lo,
{
    if hi > lo {
        lemma_sum_rates_window(records, lo, hi - 1);
        assert(records.subrange(lo, hi).drop_last() =~= records.subrange(lo, hi - 1));
        lemma_sum_rates_push(records, hi - 1);
    } else {
        assert(records.subrange(lo, hi).len() == 0);
    }
}

fn sum_range(records: &Vec<ParticipationRecord>, lo: usize, hi: usize) -> (r: u128)
    requires
        lo <= hi <= records@.len() <= 0xffff_ffff,
    ensures
        r == sum_rates(records@.subrange(lo as int, hi as int)),
{
    let mut sum: u128 = 0;
    let mut i = lo;
    while i < hi
        invariant
            lo <= i <= hi <= records@.len() <= 0xffff_ffff,
            sum == sum_rates(records@.subrange(lo as int, i as int)),
        decreases hi - i,
    {
        proof {
            assert(records@.subrange(lo as int, i + 1).drop_last() =~= records@.subrange(lo as int, i as int));
            lemma_sum_rates_bound(records@.subrange(lo as int, i as int));
            assert((i - lo) * 0xffff_ffff <= 0xffff_ffff * 0xffff_ffff) by (nonlinear_arith)
                requires i - lo <= 0xffff_ffff, i >= lo;
        }
        sum = sum + records[i].participation_rate_bps as u128;
        i = i + 1;
    }
    sum
}

/// Adds a participation record, keeps the newest ten, and recomputes the
/// mean rate and (with at least six records) the trend.
pub fn update_velocity_tracking(velocity: &mut ParticipationVelocity, new_record: ParticipationRecord)
    requires
        old(velocity).vote_records@.len() < 0xffff_ffff,
        kept_records(old(velocity).vote_records@, new_record).len() >= 6 ==> {
            let t = trend_of(kept_records(old(velocity).vote_records@, new_record));
            i32::MIN <= t <= i32::MAX
        },
    ensures
        ({
            let kept = kept_records(old(velocity).vote_records@, new_record);
            &&& final(velocity).vote_records@ == kept
            &&& kept.last() == new_record
            &&& kept.len() == if old(velocity).vote_records@.len() >= 10 { 10 } else {
                old(velocity).vote_records@.len() + 1 }
            &&& forall|i: int| 0 <= i < kept.len() - 1 ==> #[trigger] kept[i]
                == old(velocity).vote_records@[old(velocity).vote_records@.len() - (kept.len() - 1) + i]
            &&& final(velocity).average_participation == (sum_rates(kept) / (kept.len() as int)) as u32
            &&& final(velocity).velocity_trend == if kept.len() >= 6 { trend_of(kept) as i32 } else {
                old(velocity).velocity_trend }
        }),
{
    proof {
        law_velocity_keeps_newest_records(old(velocity).vote_records@, new_record);
    }
    velocity.vote_records.push(new_record);
    let ghost all = velocity.vote_records@;
    if velocity.vote_records.len() > 10 {
        let excess = velocity.vote_records.len() - 10;
        let mut kept: Vec<ParticipationRecord> = Vec::new();
        let mut i = excess;
        while i < velocity.vote_records.len()
            invariant
                velocity.vote_records@ == all,
                excess <= i <= all.len(),
                all.len() > 10,
                excess == all.len() - 10,
                kept@ == all.subrange(excess as int, i as int),
            decreases all.len() - i,
        {
            kept.push(velocity.vote_records[i]);
            i = i + 1;
        }
        velocity.vote_records = kept;
    }
    let len = velocity.vote_records.len();
    let sum = sum_range(&velocity.vote_records, 0, len);
    proof {
        assert(velocity.vote_records@.subrange(0, len as int) =~= velocity.vote_records@);
        lemma_sum_rates_bound(velocity.vote_records@);
        assert((sum as int) / (len as int) <= 0xffff_ffff) by (nonlinear_arith)
            requires sum <= len * 0xffff_ffff, len >= 1;
    }
    velocity.average_participation = (sum / len as u128) as u32;
    if len >= 6 {
        let recent_sum = sum_range(&velocity.vote_records, len - 3, len);
        let recent_avg = recent_sum / 3;
        let older_sum = sum_range(&velocity.vote_records, len - 6, len - 3);
        let older_avg = older_sum / 3;
        velocity.velocity_trend = (recent_avg as i32) - (older_avg as i32);
    }
}

/// The quorum after the velocity adjustment.
pub open spec fn spec_dynamic_adjustment(
    records_len: int,
    average: u32,
    trend: i32,
    base_quorum: u32,
    settings: AdaptiveQuorumSettings,
) -> u32 {
    if records_len < settings.min_velocity_samples {
        base_quorum
    } else if average < 2000 {
        let a = base_quorum * 80 / 100;
        if a > settings.silent_sabotage_threshold { a as u32 } else { settings.silent_sabotage_threshold }
    } else if trend < -500 {
        let a = base_quorum * 90 / 100;
        if a > settings.silent_sabotage_threshold { a as u32 } else { settings.silent_sabotage_threshold }
    } else {
        base_quorum
    }
}

/// Lowers the quorum by 20% for groups averaging under 20% participation,
/// or by 10% when participation trends down more than 5%, never below the
/// sabotage threshold; unchanged with too few samples.
pub fn get_dynamic_quorum_adjustment(
    velocity: &ParticipationVelocity,
    base_quorum: u32,
    settings: &AdaptiveQuorumSettings,
) -> (r: u32)
    ensures
        r == spec_dynamic_adjustment(velocity.vote_records@.len() as int, velocity.average_participation,
            velocity.velocity_trend, base_quorum, *settings),
{
    if velocity.vote_records.len() < settings.min_velocity_samples as usize {
        return base_quorum;
    }
    let avg = velocity.average_participation;
    if avg < 2000 {
        let adjusted = (base_quorum as u128 * 80) / 100;
        return if adjusted > settings.silent_sabotage_threshold as u128 { adjusted as u32 } else { settings.silent_sabotage_threshold };
    }
    if velocity.velocity_trend < -500 {
        let adjusted = (base_quorum as u128 * 90) / 100;
        return if adjusted > settings.silent_sabotage_threshold as u128 { adjusted as u32 } else { settings.silent_sabotage_threshold };
    }
    base_quorum
}

/// The quorum state of a new proposal created at `now`.
pub open spec fn spec_new_state(
    proposal_id: u64,
    circle_id: u64,
    proposal_type: ProposalType,
    total_eligible_voters: u32,
    voting_duration_seconds: u64,
    settings: AdaptiveQuorumSettings,
    now: u64,
) -> AdaptiveQuorumState {
    let (initial, minimum, duration) = match proposal_type {
        ProposalType::Emergency => (settings.emergency_initial_quorum_bps, settings.emergency_minimum_quorum_bps,
            settings.emergency_decay_duration_seconds),
        ProposalType::Standard => (settings.standard_quorum_bps, settings.standard_quorum_bps, 0u64),
    };
    AdaptiveQuorumState {
        proposal_id,
        circle_id,
        config: AdaptiveQuorumConfig {
            proposal_type,
            initial_quorum_bps: initial,
            minimum_quorum_bps: minimum,
            decay_start_timestamp: now,
            decay_duration_seconds: duration,
            current_quorum_bps: initial,
            is_decayed: false,
        },
        contest_tracker: ContestTracker {
            contest_count: 0,
            contest_threshold: settings.contest_reset_threshold_bps,
            last_contest_timestamp: now,
            decay_reset_count: 0,
        },
        total_eligible_voters,
        current_participants: 0,
        created_timestamp: now,
        voting_end_timestamp: (now + voting_duration_seconds) as u64,
    }
}

/// Creates the quorum state of a new proposal at time `now`.
pub fn create_adaptive_quorum_state(
    proposal_id: u64,
    circle_id: u64,
    proposal_type: ProposalType,
    total_eligible_voters: u32,
    voting_duration_seconds: u64,
    settings: &AdaptiveQuorumSettings,
    now: u64,
) -> (r: AdaptiveQuorumState)
    requires
        now + voting_duration_seconds <= u64::MAX,
    ensures
        r == spec_new_state(proposal_id, circle_id, proposal_type, total_eligible_voters,
            voting_duration_seconds, *settings, now),
{
    let (initial_quorum, minimum_quorum, decay_duration) = match proposal_type {
        ProposalType::Emergency => (
            settings.emergency_initial_quorum_bps,
            settings.emergency_minimum_quorum_bps,
            settings.emergency_decay_duration_seconds,
        ),
        ProposalType::Standard => (settings.standard_quorum_bps, settings.standard_quorum_bps, 0),
    };
    let config = AdaptiveQuorumConfig {
        proposal_type,
        initial_quorum_bps: initial_quorum,
        minimum_quorum_bps: minimum_quorum,
        decay_start_timestamp: now,
        decay_duration_seconds: decay_duration,
        current_quorum_bps: initial_quorum,
        is_decayed: false,
    };
    AdaptiveQuorumState {
        proposal_id,
        circle_id,
        config,
        contest_tracker: ContestTracker {
            contest_count: 0,
            contest_threshold: settings.contest_reset_threshold_bps,
            last_contest_timestamp: now,
            decay_reset_count: 0,
        },
        total_eligible_voters,
        current_participants: 0,
        created_timestamp: now,
        voting_end_timestamp: now + voting_duration_seconds,
    }
}

/// Whether voting closed before `current_timestamp`.
pub fn is_proposal_expired(state: &AdaptiveQuorumState, current_timestamp: u64) -> (r: bool)
    ensures
        r == (current_timestamp > state.voting_end_timestamp),
{
    current_timestamp > state.voting_end_timestamp
}

/// While an emergency quorum decays it stays between the 10% floor (or the
/// minimum, if higher) and the initial quorum (or the floor, if higher).
pub proof fn law_decaying_quorum_bounds(state: AdaptiveQuorumState, now: u64)
    requires
        mid_decay(state.config, now),
        state.config.minimum_quorum_bps <= state.config.initial_quorum_bps,
    ensures
        spec_adaptive_quorum(state, now) >= state.config.minimum_quorum_bps,
        spec_adaptive_quorum(state, now) >= MIN_QUORUM_FLOOR_BPS,
        spec_adaptive_quorum(state, now) <= state.config.initial_quorum_bps
            || spec_adaptive_quorum(state, now) == MIN_QUORUM_FLOOR_BPS,
{
    let c = state.config;
    let progress = elapsed_at(c, now) * 10000 / (c.decay_duration_seconds as int);
    let range = c.initial_quorum_bps - c.minimum_quorum_bps;
    assert(range * progress / 10000 >= 0) by (nonlinear_arith)
        requires range >= 0, progress >= 0;
    assert(progress >= 0) by (nonlinear_arith)
        requires elapsed_at(c, now) >= 0, c.decay_duration_seconds > 0, progress == elapsed_at(c, now) * 10000 / (c.decay_duration_seconds as int);
}

/// The quorum of a proposal never rises as time passes (absent contests).
pub proof fn law_quorum_non_increasing_over_time(state: AdaptiveQuorumState, t1: u64, t2: u64)
    requires
        t1 <= t2,
        state.config.minimum_quorum_bps <= state.config.initial_quorum_bps,
    ensures
        spec_adaptive_quorum(state, t2) <= spec_adaptive_quorum(state, t1),
{
    let c = state.config;
    if c.proposal_type == ProposalType::Emergency && !c.is_decayed {
        let d = c.decay_duration_seconds as int;
        let e1 = elapsed_at(c, t1);
        let e2 = elapsed_at(c, t2);
        assert(e1 <= e2);
        let range = c.initial_quorum_bps - c.minimum_quorum_bps;
        if e1 < d {
            let p1 = e1 * 10000 / d;
            assert(p1 >= 0) by (nonlinear_arith) requires e1 >= 0, d > 0, p1 == e1 * 10000 / d;
            assert(range * p1 / 10000 >= 0) by (nonlinear_arith) requires range >= 0, p1 >= 0;
            if e2 < d {
                let p2 = e2 * 10000 / d;
                assert(p1 <= p2) by (nonlinear_arith)
                    requires e1 <= e2, d > 0, p1 == e1 * 10000 / d, p2 == e2 * 10000 / d;
                assert(range * p1 / 10000 <= range * p2 / 10000) by (nonlinear_arith)
                    requires p1 <= p2, range >= 0;
            }
        }
    }
}

/// Once the decay period is over, the quorum is exactly the minimum.
pub proof fn law_decay_reaches_minimum(state: AdaptiveQuorumState, now: u64)
    requires
        state.config.proposal_type == ProposalType::Emergency,
        elapsed_at(state.config, now) >= state.config.decay_duration_seconds,
    ensures
        spec_adaptive_quorum(state, now) == state.config.minimum_quorum_bps,
{
}

/// A contest reset brings the quorum back to where it starts: right after
/// it, an emergency proposal requires its initial quorum (or the floor).
pub proof fn law_reset_restores_initial_quorum(state: AdaptiveQuorumState, now: u64)
    requires
        state.config.proposal_type == ProposalType::Emergency,
        state.config.decay_duration_seconds > 0,
        state.config.minimum_quorum_bps <= state.config.initial_quorum_bps,
        state.contest_tracker.decay_reset_count < u32::MAX,
    ensures
        spec_adaptive_quorum(spec_reset(state, now), now) == if state.config.initial_quorum_bps > MIN_QUORUM_FLOOR_BPS {
            state.config.initial_quorum_bps
        } else {
            MIN_QUORUM_FLOOR_BPS
        },
{
    let s = spec_reset(state, now);
    assert(elapsed_at(s.config, now) == 0);
    assert(0int * 10000 / (s.config.decay_duration_seconds as int) == 0);
}

/// The votes a proposal needs are the share of its eligible voters given by
/// the quorum in force at that moment (rounded down): for an emergency
/// proposal whose decay period is over, the minimum quorum's share.
pub proof fn law_votes_needed_follow_quorum_in_force(state: AdaptiveQuorumState, now: u64)
    ensures
        required_votes(state, now) * 10000 <= state.total_eligible_voters * spec_adaptive_quorum(state, now),
        state.total_eligible_voters * spec_adaptive_quorum(state, now) < (required_votes(state, now) + 1) * 10000,
        state.config.proposal_type == ProposalType::Emergency
            && elapsed_at(state.config, now) >= state.config.decay_duration_seconds
            ==> required_votes(state, now) * 10000 <= state.total_eligible_voters * state.config.minimum_quorum_bps
                < (required_votes(state, now) + 1) * 10000,
{
    let x = state.total_eligible_voters * spec_adaptive_quorum(state, now);
    assert(x >= 0) by (nonlinear_arith)
        requires x == state.total_eligible_voters * spec_adaptive_quorum(state, now);
    assert(required_votes(state, now) == x / 10000);
}

/// As time passes, a proposal never needs more votes (absent contests).
pub proof fn law_votes_needed_never_rise(state: AdaptiveQuorumState, t1: u64, t2: u64)
    requires
        t1 <= t2,
        state.config.minimum_quorum_bps <= state.config.initial_quorum_bps,
    ensures
        required_votes(state, t2) <= required_votes(state, t1),
{
    law_quorum_non_increasing_over_time(state, t1, t2);
    let v = state.total_eligible_voters as int;
    let q1 = spec_adaptive_quorum(state, t1) as int;
    let q2 = spec_adaptive_quorum(state, t2) as int;
    assert(v * q2 / 10000 <= v * q1 / 10000) by (nonlinear_arith)
        requires q2 <= q1, v >= 0, q2 >= 0;
}

/// After a vote is recorded, the history holds the newest records: the new
/// record last, preceded by the most recent earlier records in their order,
/// at most ten in all (the oldest ones drop out first).
pub proof fn law_velocity_keeps_newest_records(old_records: Seq<ParticipationRecord>, new_record: ParticipationRecord)
    ensures
        ({
            let kept = kept_records(old_records, new_record);
            &&& kept.len() == if old_records.len() >= 10 { 10 } else { old_records.len() + 1 }
            &&& kept.last() == new_record
            &&& forall|i: int| 0 <= i < kept.len() - 1 ==> #[trigger] kept[i]
                == old_records[old_records.len() - (kept.len() - 1) + i]
        }),
{
}

} // verus!
