//! Soulbound reputation credentials: tiers from reliability scores,
//! milestone badges, delinquency marking, and non-transferability.
use vstd::prelude::*;
use std::collections::{BTreeMap, BTreeSet};
use crate::AccountId;

verus! {

broadcast use {vstd::std_specs::btree::group_btree_axioms, vstd::laws_cmp::group_laws_cmp};

/// Cycles a milestone must span before it can mint a badge.
pub const MIN_REPUTATION_BADGE_CYCLES: u32 = 12;
/// Reliability score of a user with no history.
pub const DEFAULT_RELIABILITY_SCORE: u32 = 5_000;
/// Social-capital score of a user with no history.
pub const DEFAULT_SOCIAL_CAPITAL_SCORE: u32 = 5_000;

/// Status of a soulbound credential.
#[derive(Clone, Copy, Debug, PartialEq, Eq, Structural)]
pub enum SbtStatus {
    Discovery,
    Pathfinder,
    Guardian,
    Luminary,
    SusuLegend,
    Delinquent,
    Revoked,
    Burned,
}

/// Reputation tier derived from a reliability score.
#[derive(Clone, Copy, Debug, PartialEq, Eq, Structural)]
pub enum ReputationTier {
    Bronze,
    Silver,
    Gold,
    Platinum,
    Diamond,
}

/// A soulbound credential.
#[derive(Clone, Copy, Debug)]
pub struct SoroSusuCredential {
    pub token_id: u128,
    pub user: AccountId,
    pub status: SbtStatus,
    pub reputation_score: u32,
    pub metadata_uri: &'static str,
    pub issue_date: u64,
}

/// Reputation metrics of a user.
#[derive(Clone, Copy, Debug, PartialEq, Eq, Structural)]
pub struct UserReputationMetrics {
    pub reliability_score: u32,
    pub social_capital_score: u32,
    pub total_cycles: u32,
    pub perfect_cycles: u32,
    pub total_volume_saved: i128,
    pub defaults_count: u32,
    pub last_updated: u64,
}

/// A milestone an administrator sets for a user.
#[derive(Clone, Debug)]
pub struct ReputationMilestone {
    pub user: AccountId,
    pub required_cycles: u32,
    pub description: String,
    pub tier: ReputationTier,
    pub is_completed: bool,
}

/// Why a credential operation is refused.
#[derive(Clone, Copy, Debug, PartialEq, Eq, Structural)]
pub enum SbtError {
    NotInitialized,
    Unauthorized,
    MilestoneNotFound,
    MilestoneUserMismatch,
    MilestoneAlreadyCompleted,
    MinimumCyclesRequired,
    MilestoneNotComplete,
    ZeroValueCycles,
    InvalidOnTimeCycleCount,
    CycleAlreadyRecorded,
    NonTransferable,
    ApprovalsDisabled,
}

/// Metrics of a user without history, as of `now`.
pub open spec fn spec_default_metrics(now: u64) -> UserReputationMetrics {
    UserReputationMetrics {
        reliability_score: DEFAULT_RELIABILITY_SCORE,
        social_capital_score: DEFAULT_SOCIAL_CAPITAL_SCORE,
        total_cycles: 0,
        perfect_cycles: 0,
        total_volume_saved: 0,
        defaults_count: 0,
        last_updated: now,
    }
}

/// Metrics of a user without history, as of `now`.
pub fn default_metrics(now: u64) -> (r: UserReputationMetrics)
    ensures
        r == spec_default_metrics(now),
{
    UserReputationMetrics {
        reliability_score: DEFAULT_RELIABILITY_SCORE,
        social_capital_score: DEFAULT_SOCIAL_CAPITAL_SCORE,
        total_cycles: 0,
        perfect_cycles: 0,
        total_volume_saved: 0,
        defaults_count: 0,
        last_updated: now,
    }
}

/// The tier of a reliability score.
pub open spec fn spec_tier_for_score(score: u32) -> ReputationTier {
    if score >= 9_500 {
        ReputationTier::Diamond
    } else if score >= 8_500 {
        ReputationTier::Platinum
    } else if score >= 7_500 {
        ReputationTier::Gold
    } else if score >= 6_500 {
        ReputationTier::Silver
    } else {
        ReputationTier::Bronze
    }
}

/// The tier of a reliability score.
pub fn tier_for_score(score: u32) -> (r: ReputationTier)
    ensures
        r == spec_tier_for_score(score),
{
    if score >= 9_500 {
        ReputationTier::Diamond
    } else if score >= 8_500 {
        ReputationTier::Platinum
    } else if score >= 7_500 {
        ReputationTier::Gold
    } else if score >= 6_500 {
        ReputationTier::Silver
    } else {
        ReputationTier::Bronze
    }
}

/// The credential status that displays a tier.
pub open spec fn spec_status_for_tier(tier: ReputationTier) -> SbtStatus {
    match tier {
        ReputationTier::Bronze => SbtStatus::Discovery,
        ReputationTier::Silver => SbtStatus::Pathfinder,
        ReputationTier::Gold => SbtStatus::Guardian,
        ReputationTier::Platinum => SbtStatus::Luminary,
        ReputationTier::Diamond => SbtStatus::SusuLegend,
    }
}

/// The credential status that displays a tier.
pub fn status_for_tier(tier: &ReputationTier) -> (r: SbtStatus)
    ensures
        r == spec_status_for_tier(*tier),
{
    match tier {
        ReputationTier::Bronze => SbtStatus::Discovery,
        ReputationTier::Silver => SbtStatus::Pathfinder,
        ReputationTier::Gold => SbtStatus::Guardian,
        ReputationTier::Platinum => SbtStatus::Luminary,
        ReputationTier::Diamond => SbtStatus::SusuLegend,
    }
}

/// The metadata location of each status.
pub open spec fn spec_metadata_for_status(status: SbtStatus) -> Seq<char> {
    match status {
        SbtStatus::Discovery => "ipfs://sorosusu/reputation/bronze"@,
        SbtStatus::Pathfinder => "ipfs://sorosusu/reputation/silver"@,
        SbtStatus::Guardian => "ipfs://sorosusu/reputation/gold"@,
        SbtStatus::Luminary => "ipfs://sorosusu/reputation/platinum"@,
        SbtStatus::SusuLegend => "ipfs://sorosusu/reputation/diamond"@,
        SbtStatus::Delinquent => "ipfs://sorosusu/reputation/delinquent"@,
        SbtStatus::Revoked => "ipfs://sorosusu/reputation/revoked"@,
        SbtStatus::Burned => "ipfs://sorosusu/reputation/burned"@,
    }
}

/// The metadata location of each status.
pub fn metadata_for_status(status: &SbtStatus) -> (r: &'static str)
    ensures
        r@ == spec_metadata_for_status(*status),
{
    match status {
        SbtStatus::Discovery => { proof { reveal_strlit("ipfs://sorosusu/reputation/bronze"); } "ipfs://sorosusu/reputation/bronze" },
        SbtStatus::Pathfinder => { proof { reveal_strlit("ipfs://sorosusu/reputation/silver"); } "ipfs://sorosusu/reputation/silver" },
        SbtStatus::Guardian => { proof { reveal_strlit("ipfs://sorosusu/reputation/gold"); } "ipfs://sorosusu/reputation/gold" },
        SbtStatus::Luminary => { proof { reveal_strlit("ipfs://sorosusu/reputation/platinum"); } "ipfs://sorosusu/reputation/platinum" },
        SbtStatus::SusuLegend => { proof { reveal_strlit("ipfs://sorosusu/reputation/diamond"); } "ipfs://sorosusu/reputation/diamond" },
        SbtStatus::Delinquent => { proof { reveal_strlit("ipfs://sorosusu/reputation/delinquent"); } "ipfs://sorosusu/reputation/delinquent" },
        SbtStatus::Revoked => { proof { reveal_strlit("ipfs://sorosusu/reputation/revoked"); } "ipfs://sorosusu/reputation/revoked" },
        SbtStatus::Burned => { proof { reveal_strlit("ipfs://sorosusu/reputation/burned"); } "ipfs://sorosusu/reputation/burned" },
    }
}

/// Statuses that metric changes no longer move.
pub open spec fn spec_is_locked_status(status: SbtStatus) -> bool {
    status == SbtStatus::Delinquent || status == SbtStatus::Revoked || status == SbtStatus::Burned
}

/// Whether a status is locked (delinquent, revoked or burned).
pub fn is_locked_status(status: &SbtStatus) -> (r: bool)
    ensures
        r == spec_is_locked_status(*status),
{
    match status {
        SbtStatus::Delinquent | SbtStatus::Revoked | SbtStatus::Burned => true,
        _ => false,
    }
}

/// Whether the reliability score can be computed without overflow.
pub open spec fn reliability_computable(total_cycles: u32, perfect_cycles: u32) -> bool {
    total_cycles == 0 || (if perfect_cycles < total_cycles { perfect_cycles } else { total_cycles }) * 10_000
        <= u32::MAX
}

/// Reliability score: the share of on-time cycles in basis points, minus
/// 1500 per default (floored at zero); 5000 for a user without cycles.
pub open spec fn spec_reliability_score(total_cycles: u32, perfect_cycles: u32, defaults_count: u32) -> u32 {
    if total_cycles == 0 {
        DEFAULT_RELIABILITY_SCORE
    } else {
        let on_time = (if perfect_cycles < total_cycles { perfect_cycles } else { total_cycles }) * 10_000
            / (total_cycles as int);
        let penalty = if defaults_count * 1_500 > u32::MAX { u32::MAX as int } else { defaults_count * 1_500 };
        if on_time > penalty { (on_time - penalty) as u32 } else { 0 }
    }
}

/// Computes the reliability score.
pub fn compute_reliability_score(total_cycles: u32, perfect_cycles: u32, defaults_count: u32) -> (r: u32)
    requires
        reliability_computable(total_cycles, perfect_cycles),
    ensures
        r == spec_reliability_score(total_cycles, perfect_cycles, defaults_count),
        r <= 10_000,
{
    if total_cycles == 0 {
        return DEFAULT_RELIABILITY_SCORE;
    }
    let on_time_score = (perfect_cycles.min(total_cycles) * 10_000) / total_cycles;
    proof {
        let p = if perfect_cycles < total_cycles { perfect_cycles } else { total_cycles };
        assert(p * 10_000 / (total_cycles as int) <= 10_000) by (nonlinear_arith)
            requires p <= total_cycles, total_cycles > 0;
    }
    let default_penalty: u32 = if defaults_count > u32::MAX / 1_500 { u32::MAX } else { defaults_count * 1_500 };
    on_time_score.saturating_sub(default_penalty)
}

/// Credential storage of the minter.
pub struct SoroSusuSbtMinter {
    pub admin: Option<AccountId>,
    pub milestone_count: u64,
    pub credential_count: u128,
    pub milestones: BTreeMap<u64, ReputationMilestone>,
    pub credentials: BTreeMap<u128, SoroSusuCredential>,
    pub user_credential: BTreeMap<AccountId, u128>,
    pub user_reputation: BTreeMap<AccountId, UserReputationMetrics>,
    pub cycle_awards: BTreeSet<(AccountId, u64, u32)>,
}

/// A credential with its status and matching metadata replaced.
pub open spec fn with_status(c: SoroSusuCredential, status: SbtStatus) -> SoroSusuCredential {
    SoroSusuCredential { status, ..c }
}

/// Whether `c` carries the metadata location of its status.
pub open spec fn metadata_matches(c: SoroSusuCredential) -> bool {
    c.metadata_uri@ == spec_metadata_for_status(c.status)
}

impl SoroSusuSbtMinter {
    /// The minter's invariant: every stored score lies in `0..=10000`, and
    /// every credential is stored under its own token id.
    pub open spec fn wf(&self) -> bool {
        &&& forall|u: AccountId| #[trigger] self.user_reputation@.contains_key(u) ==> {
            &&& self.user_reputation@[u].reliability_score <= 10_000
            &&& self.user_reputation@[u].social_capital_score <= 10_000
        }
        &&& forall|t: u128| #[trigger] self.credentials@.contains_key(t) ==> self.credentials@[t].token_id == t
    }

    /// The metrics used for `user`: stored ones, else defaults as of `now`.
    pub open spec fn metrics_of(&self, user: AccountId, now: u64) -> UserReputationMetrics {
        if self.user_reputation@.contains_key(user) {
            self.user_reputation@[user]
        } else {
            spec_default_metrics(now)
        }
    }

    /// The credential as its metrics now show it: locked statuses only get
    /// their metadata refreshed; others take the user's reliability score
    /// and the status of its tier.
    pub open spec fn refreshed(&self, c: SoroSusuCredential, now: u64) -> SoroSusuCredential {
        if spec_is_locked_status(c.status) {
            c
        } else {
            let m = self.metrics_of(c.user, now);
            SoroSusuCredential {
                reputation_score: m.reliability_score,
                status: spec_status_for_tier(spec_tier_for_score(m.reliability_score)),
                ..c
            }
        }
    }

    /// An empty, uninitialized minter.
    pub fn new() -> (r: Self)
        ensures
            r.admin is None,
            r.milestone_count == 0,
            r.credential_count == 0,
            r.milestones@ == Map::<u64, ReputationMilestone>::empty(),
            r.credentials@ == Map::<u128, SoroSusuCredential>::empty(),
            r.user_credential@ == Map::<AccountId, u128>::empty(),
            r.user_reputation@ == Map::<AccountId, UserReputationMetrics>::empty(),
            r.cycle_awards@ == Set::<(AccountId, u64, u32)>::empty(),
            r.wf(),
    {
        SoroSusuSbtMinter {
            admin: None,
            milestone_count: 0,
            credential_count: 0,
            milestones: BTreeMap::new(),
            credentials: BTreeMap::new(),
            user_credential: BTreeMap::new(),
            user_reputation: BTreeMap::new(),
            cycle_awards: BTreeSet::new(),
        }
    }

    fn metrics_for(&self, user: AccountId, now: u64) -> (r: UserReputationMetrics)
        ensures
            r == self.metrics_of(user, now),
    {
        match self.user_reputation.get(&user) {
            Some(m) => *m,
            None => default_metrics(now),
        }
    }

    fn next_token_id(&mut self) -> (r: u128)
        requires
            old(self).credential_count < u128::MAX,
        ensures
            r == old(self).credential_count + 1,
            *final(self) == (SoroSusuSbtMinter { credential_count: r, ..*old(self) }),
    {
        self.credential_count = self.credential_count + 1;
        self.credential_count
    }

    fn store_credential(&mut self, credential: SoroSusuCredential)
        ensures
            final(self).credentials@ == old(self).credentials@.insert(credential.token_id, credential),
            final(self).user_credential@ == old(self).user_credential@.insert(credential.user, credential.token_id),
            final(self).admin == old(self).admin,
            final(self).milestone_count == old(self).milestone_count,
            final(self).credential_count == old(self).credential_count,
            final(self).milestones@ == old(self).milestones@,
            final(self).user_reputation@ == old(self).user_reputation@,
            final(self).cycle_awards@ == old(self).cycle_awards@,
    {
        self.credentials.insert(credential.token_id, credential);
        self.user_credential.insert(credential.user, credential.token_id);
    }

    fn refresh_credential_from_metrics(&self, credential: SoroSusuCredential, now: u64) -> (r: SoroSusuCredential)
        requires
            metadata_matches(credential) || !spec_is_locked_status(credential.status),
        ensures
            r.token_id == self.refreshed(credential, now).token_id,
            r.user == self.refreshed(credential, now).user,
            r.status == self.refreshed(credential, now).status,
            r.reputation_score == self.refreshed(credential, now).reputation_score,
            r.issue_date == self.refreshed(credential, now).issue_date,
            metadata_matches(r),
    {
        let mut credential = credential;
        if is_locked_status(&credential.status) {
            credential.metadata_uri = metadata_for_status(&credential.status);
            return credential;
        }
        let metrics = self.metrics_for(credential.user, now);
        credential.reputation_score = metrics.reliability_score;
        credential.status = status_for_tier(&tier_for_score(metrics.reliability_score));
        credential.metadata_uri = metadata_for_status(&credential.status);
        credential
    }

    /// Sets the administrator and resets the milestone and credential counters.
    pub fn init_sbt_minter(&mut self, admin: AccountId)
        ensures
            *final(self) == (SoroSusuSbtMinter { admin: Some(admin), milestone_count: 0, credential_count: 0, ..*old(self) }),
    {
        self.admin = Some(admin);
        self.milestone_count = 0;
        self.credential_count = 0;
    }

    /// Hands administration to `new_admin`; only the current administrator
    /// may (any other caller aborts the call).
    pub fn set_sbt_minter_admin(&mut self, admin: AccountId, new_admin: AccountId)
        requires
            old(self).admin == Some(admin),
        ensures
            *final(self) == (SoroSusuSbtMinter { admin: Some(new_admin), ..*old(self) }),
    {
        self.admin = Some(new_admin);
    }

    /// Why issuing the badge of `milestone_id` to `user` is refused, if it
    /// is: no such milestone, a milestone of another user or already
    /// completed, one of fewer than 12 cycles, a user who has not completed
    /// its cycles, or no volume saved (the first that applies).
    pub open spec fn issue_refusal(&self, user: AccountId, milestone_id: u64, now: u64) -> Option<SbtError> {
        let m = self.milestones@[milestone_id];
        let metrics = self.metrics_of(user, now);
        if !self.milestones@.contains_key(milestone_id) {
            Some(SbtError::MilestoneNotFound)
        } else if m.user != user {
            Some(SbtError::MilestoneUserMismatch)
        } else if m.is_completed {
            Some(SbtError::MilestoneAlreadyCompleted)
        } else if m.required_cycles < MIN_REPUTATION_BADGE_CYCLES {
            Some(SbtError::MinimumCyclesRequired)
        } else if metrics.total_cycles < m.required_cycles {
            Some(SbtError::MilestoneNotComplete)
        } else if metrics.total_volume_saved <= 0 {
            Some(SbtError::ZeroValueCycles)
        } else {
            None
        }
    }

    /// Checks a badge issue: its refusal, if any.
    pub fn issue_check(&self, user: AccountId, milestone_id: u64, now: u64) -> (r: Option<SbtError>)
        ensures
            r == self.issue_refusal(user, milestone_id, now),
    {
        match self.milestones.get(&milestone_id) {
            None => Some(SbtError::MilestoneNotFound),
            Some(m) => {
                let metrics = self.metrics_for(user, now);
                if m.user != user {
                    Some(SbtError::MilestoneUserMismatch)
                } else if m.is_completed {
                    Some(SbtError::MilestoneAlreadyCompleted)
                } else if m.required_cycles < MIN_REPUTATION_BADGE_CYCLES {
                    Some(SbtError::MinimumCyclesRequired)
                } else if metrics.total_cycles < m.required_cycles {
                    Some(SbtError::MilestoneNotComplete)
                } else if metrics.total_volume_saved <= 0 {
                    Some(SbtError::ZeroValueCycles)
                } else {
                    None
                }
            },
        }
    }

    /// Mints (or re-issues) the user's badge for a completed milestone. An
    /// issue that [`SoroSusuSbtMinter::issue_check`] refuses aborts the call.
    pub fn issue_credential(&mut self, user: AccountId, milestone_id: u64, _metadata_uri: String, now: u64)
        -> (r: u128)
        requires
            old(self).wf(),
            old(self).issue_refusal(user, milestone_id, now) is None,
            old(self).credential_count < u128::MAX,
        ensures
            final(self).wf(),
            ({
                let s = *old(self);
                let m = s.milestones@[milestone_id];
                let metrics = s.metrics_of(user, now);
                let existing = s.user_credential@.contains_key(user);
                let token_id = if existing { s.user_credential@[user] } else { (s.credential_count + 1) as u128 };
                let status = spec_status_for_tier(m.tier);
                &&& r == token_id
                &&& final(self).credential_count == if existing { s.credential_count } else { token_id }
                &&& final(self).credentials@.contains_key(token_id)
                &&& final(self).credentials@ == s.credentials@.insert(token_id, final(self).credentials@[token_id])
                &&& final(self).credentials@[token_id].token_id == token_id
                &&& final(self).credentials@[token_id].user == user
                &&& final(self).credentials@[token_id].status == status
                &&& final(self).credentials@[token_id].reputation_score == metrics.reliability_score
                &&& final(self).credentials@[token_id].issue_date == now
                &&& metadata_matches(final(self).credentials@[token_id])
                &&& final(self).user_credential@ == s.user_credential@.insert(user, token_id)
                &&& final(self).milestones@.dom() == s.milestones@.dom()
                &&& final(self).milestones@[milestone_id].is_completed
                &&& final(self).milestones@[milestone_id].user == m.user
                &&& final(self).milestones@[milestone_id].tier == m.tier
                &&& final(self).milestones@[milestone_id].required_cycles == m.required_cycles
                &&& final(self).milestones@[milestone_id].description == m.description
                &&& forall|k: u64| k != milestone_id && s.milestones@.contains_key(k)
                    ==> final(self).milestones@[k] == s.milestones@[k]
                &&& final(self).user_reputation@ == s.user_reputation@
                &&& final(self).cycle_awards@ == s.cycle_awards@
                &&& final(self).admin == s.admin
                &&& final(self).milestone_count == s.milestone_count
            }),
    {
        let m_tier = self.milestones.get(&milestone_id).unwrap().tier;
        let metrics = self.metrics_for(user, now);
        let reputation_score = metrics.reliability_score;
        let token_id = match self.user_credential.get(&user) {
            Some(existing) => *existing,
            None => self.next_token_id(),
        };
        let status = status_for_tier(&m_tier);
        let credential = SoroSusuCredential {
            token_id,
            user,
            status,
            reputation_score,
            metadata_uri: metadata_for_status(&status),
            issue_date: now,
        };
        self.store_credential(credential);
        let ghost before = self.milestones@;
        let mut milestone = self.milestones.remove(&milestone_id).unwrap();
        milestone.is_completed = true;
        self.milestones.insert(milestone_id, milestone);
        proof {
            assert(self.milestones@.dom() =~= before.dom());
        }
        token_id
    }

    fn set_status(&mut self, token_id: u128, status: SbtStatus)
        requires
            old(self).wf(),
            old(self).credentials@.contains_key(token_id),
        ensures
            final(self).wf(),
            ({
                let c = with_status(old(self).credentials@[token_id], status);
                &&& final(self).credentials@.contains_key(token_id)
                &&& final(self).credentials@ == old(self).credentials@.insert(token_id, final(self).credentials@[token_id])
                &&& final(self).credentials@[token_id].status == status
                &&& final(self).credentials@[token_id].token_id == c.token_id
                &&& final(self).credentials@[token_id].user == c.user
                &&& final(self).credentials@[token_id].reputation_score == c.reputation_score
                &&& final(self).credentials@[token_id].issue_date == c.issue_date
                &&& metadata_matches(final(self).credentials@[token_id])
                &&& final(self).user_credential@ == old(self).user_credential@.insert(c.user, c.token_id)
                &&& final(self).user_reputation@ == old(self).user_reputation@
                &&& final(self).milestones@ == old(self).milestones@
                &&& final(self).cycle_awards@ == old(self).cycle_awards@
                &&& final(self).admin == old(self).admin
                &&& final(self).milestone_count == old(self).milestone_count
                &&& final(self).credential_count == old(self).credential_count
            }),
    {
        let mut credential = *self.credentials.get(&token_id).unwrap();
        credential.status = status;
        credential.metadata_uri = metadata_for_status(&credential.status);
        self.store_credential(credential);
    }

    /// Administrator sets a credential's status. Uninitialized storage or an
    /// unknown credential aborts the call.
    pub fn update_credential_status(&mut self, token_id: u128, new_status: SbtStatus)
        requires
            old(self).wf(),
            old(self).admin is Some,
            old(self).credentials@.contains_key(token_id),
        ensures
            final(self).wf(),
            final(self).credentials@.contains_key(token_id),
            final(self).credentials@[token_id].status == new_status,
            final(self).credentials@ == old(self).credentials@.insert(token_id, final(self).credentials@[token_id]),
            final(self).user_reputation@ == old(self).user_reputation@,
    {
        self.set_status(token_id, new_status);
    }

    /// Administrator revokes a credential; `reason` goes to the audit trail.
    /// Uninitialized storage or an unknown credential aborts the call.
    pub fn revoke_credential(&mut self, token_id: u128, reason: String)
        requires
            old(self).wf(),
            old(self).admin is Some,
            old(self).credentials@.contains_key(token_id),
        ensures
            final(self).wf(),
            final(self).credentials@.contains_key(token_id),
            final(self).credentials@[token_id].status == SbtStatus::Revoked,
            final(self).credentials@ == old(self).credentials@.insert(token_id, final(self).credentials@[token_id]),
            final(self).user_reputation@ == old(self).user_reputation@,
    {
        self.set_status(token_id, SbtStatus::Revoked);
    }

    /// Administrator burns a credential. Uninitialized storage or an unknown
    /// credential aborts the call.
    pub fn burn_credential(&mut self, token_id: u128)
        requires
            old(self).wf(),
            old(self).admin is Some,
            old(self).credentials@.contains_key(token_id),
        ensures
            final(self).wf(),
            final(self).credentials@.contains_key(token_id),
            final(self).credentials@[token_id].status == SbtStatus::Burned,
            final(self).credentials@ == old(self).credentials@.insert(token_id, final(self).credentials@[token_id]),
            final(self).user_reputation@ == old(self).user_reputation@,
    {
        self.set_status(token_id, SbtStatus::Burned);
    }

    /// Administrator marks a user as defaulted: one more default is counted,
    /// the reliability score is recomputed, and the credential becomes
    /// delinquent with that score. Uninitialized storage or a user without a
    /// credential aborts the call.
    pub fn mark_defaulted(&mut self, user: AccountId, now: u64)
        requires
            old(self).wf(),
            old(self).admin is Some,
            old(self).user_credential@.contains_key(user),
            old(self).credentials@.contains_key(old(self).user_credential@[user]),
            old(self).metrics_of(user, now).defaults_count < u32::MAX,
            reliability_computable(old(self).metrics_of(user, now).total_cycles,
                old(self).metrics_of(user, now).perfect_cycles),
        ensures
            final(self).wf(),
            ({
                let m = old(self).metrics_of(user, now);
                let score = spec_reliability_score(m.total_cycles, m.perfect_cycles, (m.defaults_count + 1) as u32);
                let t = old(self).user_credential@[user];
                &&& final(self).user_reputation@ == old(self).user_reputation@.insert(user,
                    UserReputationMetrics { defaults_count: (m.defaults_count + 1) as u32,
                        reliability_score: score, last_updated: now, ..m })
                &&& final(self).credentials@.contains_key(t)
                &&& final(self).credentials@[t].status == SbtStatus::Delinquent
                &&& final(self).credentials@[t].reputation_score == score
                &&& metadata_matches(final(self).credentials@[t])
                &&& final(self).credentials@ == old(self).credentials@.insert(t, final(self).credentials@[t])
            }),
    {
        let token_id = *self.user_credential.get(&user).unwrap();
        let mut credential = *self.credentials.get(&token_id).unwrap();
        let mut metrics = self.metrics_for(user, now);
        metrics.defaults_count = metrics.defaults_count + 1;
        metrics.reliability_score = compute_reliability_score(
            metrics.total_cycles,
            metrics.perfect_cycles,
            metrics.defaults_count,
        );
        metrics.last_updated = now;
        self.user_reputation.insert(user, metrics);
        credential.status = SbtStatus::Delinquent;
        credential.reputation_score = metrics.reliability_score;
        credential.metadata_uri = metadata_for_status(&credential.status);
        self.store_credential(credential);
    }

    /// Why recording a cycle completion is refused, if it is: storage not
    /// initialized, a caller who is not the administrator, a non-positive
    /// cycle value, fewer than 12 cycles, more on-time cycles than cycles,
    /// or a completion already recorded (the first that applies).
    pub open spec fn cycle_refusal(&self, admin: AccountId, user: AccountId, circle_id: u64, cycle_value: i128,
        cycles_completed: u32, on_time_cycles: u32) -> Option<SbtError> {
        if self.admin is None {
            Some(SbtError::NotInitialized)
        } else if self.admin != Some(admin) {
            Some(SbtError::Unauthorized)
        } else if cycle_value <= 0 {
            Some(SbtError::ZeroValueCycles)
        } else if cycles_completed < MIN_REPUTATION_BADGE_CYCLES {
            Some(SbtError::MinimumCyclesRequired)
        } else if on_time_cycles > cycles_completed {
            Some(SbtError::InvalidOnTimeCycleCount)
        } else if self.cycle_awards@.contains((user, circle_id, cycles_completed)) {
            Some(SbtError::CycleAlreadyRecorded)
        } else {
            None
        }
    }

    /// Checks a cycle completion: its refusal, if any.
    pub fn cycle_completion_check(&self, admin: AccountId, user: AccountId, circle_id: u64, cycle_value: i128,
        cycles_completed: u32, on_time_cycles: u32) -> (r: Option<SbtError>)
        ensures
            r == self.cycle_refusal(admin, user, circle_id, cycle_value, cycles_completed, on_time_cycles),
    {
        match self.admin {
            None => Some(SbtError::NotInitialized),
            Some(a) => {
                if admin != a {
                    Some(SbtError::Unauthorized)
                } else if cycle_value <= 0 {
                    Some(SbtError::ZeroValueCycles)
                } else if cycles_completed < MIN_REPUTATION_BADGE_CYCLES {
                    Some(SbtError::MinimumCyclesRequired)
                } else if on_time_cycles > cycles_completed {
                    Some(SbtError::InvalidOnTimeCycleCount)
                } else if self.cycle_awards.contains(&(user, circle_id, cycles_completed)) {
                    Some(SbtError::CycleAlreadyRecorded)
                } else {
                    None
                }
            },
        }
    }

    /// Administrator records that `user` completed `cycles_completed` cycles
    /// of `circle_id` (`on_time_cycles` of them on time) worth `cycle_value`,
    /// recomputes the user's reliability and (re)issues the credential. A
    /// completion that [`SoroSusuSbtMinter::cycle_completion_check`] refuses
    /// aborts the call.
    pub fn record_cycle_completion(
        &mut self,
        admin: AccountId,
        user: AccountId,
        circle_id: u64,
        cycle_value: i128,
        cycles_completed: u32,
        on_time_cycles: u32,
        now: u64,
    ) -> (r: u128)
        requires
            old(self).wf(),
            old(self).cycle_refusal(admin, user, circle_id, cycle_value, cycles_completed, on_time_cycles) is None,
            old(self).credential_count < u128::MAX,
            ({
                let m = old(self).metrics_of(user, now);
                let total = if m.total_cycles + cycles_completed > u32::MAX { u32::MAX as int } else { m.total_cycles + cycles_completed };
                let perfect = if m.perfect_cycles + on_time_cycles > u32::MAX { u32::MAX as int } else { m.perfect_cycles + on_time_cycles };
                reliability_computable(total as u32, perfect as u32)
            }),
        ensures
            final(self).wf(),
            ({
                let s = *old(self);
                let m = s.metrics_of(user, now);
                let total = (if m.total_cycles + cycles_completed > u32::MAX { u32::MAX as int } else { m.total_cycles + cycles_completed }) as u32;
                let perfect = (if m.perfect_cycles + on_time_cycles > u32::MAX { u32::MAX as int } else { m.perfect_cycles + on_time_cycles }) as u32;
                let volume = (if m.total_volume_saved + cycle_value > i128::MAX { i128::MAX as int } else { m.total_volume_saved + cycle_value }) as i128;
                let score = spec_reliability_score(total, perfect, m.defaults_count);
                let existing = s.user_credential@.contains_key(user);
                let token_id = if existing { s.user_credential@[user] } else { (s.credential_count + 1) as u128 };
                &&& r == token_id
                &&& final(self).cycle_awards@ == s.cycle_awards@.insert((user, circle_id, cycles_completed))
                &&& final(self).user_reputation@ == s.user_reputation@.insert(user, UserReputationMetrics {
                    total_cycles: total, perfect_cycles: perfect, total_volume_saved: volume,
                    reliability_score: score, last_updated: now, ..m })
                &&& final(self).credential_count == if existing { s.credential_count } else { token_id }
                &&& final(self).credentials@.contains_key(token_id)
                &&& final(self).credentials@ == s.credentials@.insert(token_id, final(self).credentials@[token_id])
                &&& final(self).credentials@[token_id].user == user
                &&& final(self).credentials@[token_id].reputation_score == score
                &&& final(self).credentials@[token_id].status == spec_status_for_tier(spec_tier_for_score(score))
                &&& final(self).credentials@[token_id].issue_date == now
                &&& metadata_matches(final(self).credentials@[token_id])
                &&& final(self).user_credential@ == s.user_credential@.insert(user, token_id)
                &&& final(self).milestones@ == s.milestones@
            }),
    {
        let award_key = (user, circle_id, cycles_completed);
        self.cycle_awards.insert(award_key);
        let mut metrics = self.metrics_for(user, now);
        metrics.total_cycles = metrics.total_cycles.saturating_add(cycles_completed);
        metrics.perfect_cycles = metrics.perfect_cycles.saturating_add(on_time_cycles);
        metrics.total_volume_saved = if metrics.total_volume_saved > i128::MAX - cycle_value {
            i128::MAX
        } else {
            metrics.total_volume_saved + cycle_value
        };
        metrics.reliability_score = compute_reliability_score(
            metrics.total_cycles,
            metrics.perfect_cycles,
            metrics.defaults_count,
        );
        metrics.last_updated = now;
        self.user_reputation.insert(user, metrics);
        let token_id = match self.user_credential.get(&user) {
            Some(t) => *t,
            None => self.next_token_id(),
        };
        let status = status_for_tier(&tier_for_score(metrics.reliability_score));
        let credential = SoroSusuCredential {
            token_id,
            user,
            status,
            reputation_score: metrics.reliability_score,
            metadata_uri: metadata_for_status(&status),
            issue_date: now,
        };
        self.store_credential(credential);
        token_id
    }

    /// Refreshes a credential from the current metrics, stores it and
    /// returns its metadata location. An unknown credential aborts the call.
    pub fn refresh_metadata(&mut self, token_id: u128, now: u64) -> (r: &'static str)
        requires
            old(self).wf(),
            old(self).credentials@.contains_key(token_id),
            metadata_matches(old(self).credentials@[token_id])
                || !spec_is_locked_status(old(self).credentials@[token_id].status),
        ensures
            final(self).wf(),
            ({
                let c = old(self).refreshed(old(self).credentials@[token_id], now);
                &&& r@ == spec_metadata_for_status(c.status)
                &&& final(self).credentials@.contains_key(token_id)
                &&& final(self).credentials@[token_id].status == c.status
                &&& final(self).credentials@[token_id].reputation_score == c.reputation_score
                &&& final(self).credentials@ == old(self).credentials@.insert(token_id, final(self).credentials@[token_id])
                &&& final(self).user_credential@ == old(self).user_credential@.insert(c.user, token_id)
                &&& final(self).user_reputation@ == old(self).user_reputation@
            }),
    {
        let credential = *self.credentials.get(&token_id).unwrap();
        let refreshed = self.refresh_credential_from_metrics(credential, now);
        self.store_credential(refreshed);
        refreshed.metadata_uri
    }

    /// The metadata location a credential would have after a refresh. An
    /// unknown credential aborts the call.
    pub fn metadata_uri(&self, token_id: u128, now: u64) -> (r: &'static str)
        requires
            self.credentials@.contains_key(token_id),
            metadata_matches(self.credentials@[token_id]) || !spec_is_locked_status(self.credentials@[token_id].status),
        ensures
            r@ == spec_metadata_for_status(self.refreshed(self.credentials@[token_id], now).status),
    {
        let credential = *self.credentials.get(&token_id).unwrap();
        self.refresh_credential_from_metrics(credential, now).metadata_uri
    }

    /// The tier a credential shows: bronze for locked credentials, else the
    /// tier of the user's current reliability score. An unknown credential
    /// aborts the call.
    pub fn get_current_tier(&self, token_id: u128, now: u64) -> (r: ReputationTier)
        requires
            self.credentials@.contains_key(token_id),
        ensures
            r == (if spec_is_locked_status(self.credentials@[token_id].status) {
                ReputationTier::Bronze
            } else {
                spec_tier_for_score(self.metrics_of(self.credentials@[token_id].user, now).reliability_score)
            }),
    {
        let credential = *self.credentials.get(&token_id).unwrap();
        if credential.status == SbtStatus::Delinquent
            || credential.status == SbtStatus::Revoked
            || credential.status == SbtStatus::Burned
        {
            return ReputationTier::Bronze;
        }
        tier_for_score(self.refresh_credential_from_metrics(credential, now).reputation_score)
    }

    /// A credential as its current metrics show it. An unknown credential
    /// aborts the call.
    pub fn get_credential(&self, token_id: u128, now: u64) -> (r: SoroSusuCredential)
        requires
            self.credentials@.contains_key(token_id),
            metadata_matches(self.credentials@[token_id]) || !spec_is_locked_status(self.credentials@[token_id].status),
        ensures
            ({
                let e = self.refreshed(self.credentials@[token_id], now);
                &&& r.token_id == e.token_id
                &&& r.user == e.user
                &&& r.status == e.status
                &&& r.reputation_score == e.reputation_score
                &&& r.issue_date == e.issue_date
                &&& metadata_matches(r)
            }),
    {
        let credential = *self.credentials.get(&token_id).unwrap();
        self.refresh_credential_from_metrics(credential, now)
    }

    /// The user's credential, if one was issued.
    pub fn get_user_credential(&self, user: AccountId, now: u64) -> (r: Option<SoroSusuCredential>)
        requires
            self.user_credential@.contains_key(user) ==> self.credentials@.contains_key(self.user_credential@[user]),
            forall|t: u128| #[trigger] self.credentials@.contains_key(t) ==> metadata_matches(self.credentials@[t])
                || !spec_is_locked_status(self.credentials@[t].status),
        ensures
            !self.user_credential@.contains_key(user) ==> r is None,
            self.user_credential@.contains_key(user) ==> (r matches Some(c) && {
                let e = self.refreshed(self.credentials@[self.user_credential@[user]], now);
                &&& c.token_id == e.token_id
                &&& c.user == e.user
                &&& c.status == e.status
                &&& c.reputation_score == e.reputation_score
                &&& metadata_matches(c)
            }),
    {
        match self.user_credential.get(&user) {
            None => None,
            Some(t) => Some(self.get_credential(*t, now)),
        }
    }

    /// Administrator creates a milestone of at least 12 cycles for `user`;
    /// returns its id. Uninitialized storage or fewer cycles abort the call.
    pub fn create_reputation_milestone(
        &mut self,
        user: AccountId,
        cycles: u32,
        desc: String,
        tier: ReputationTier,
    ) -> (r: u64)
        requires
            old(self).wf(),
            old(self).admin is Some,
            cycles >= MIN_REPUTATION_BADGE_CYCLES,
            old(self).milestone_count < u64::MAX,
        ensures
            final(self).wf(),
            ({
                let id = (old(self).milestone_count + 1) as u64;
                &&& r == id
                &&& final(self).milestone_count == id
                &&& final(self).milestones@.contains_key(id)
                &&& final(self).milestones@ == old(self).milestones@.insert(id, final(self).milestones@[id])
                &&& final(self).milestones@[id].user == user
                &&& final(self).milestones@[id].required_cycles == cycles
                &&& final(self).milestones@[id].description == desc
                &&& final(self).milestones@[id].tier == tier
                &&& !final(self).milestones@[id].is_completed
                &&& final(self).credentials@ == old(self).credentials@
                &&& final(self).user_reputation@ == old(self).user_reputation@
            }),
    {
        let count = self.milestone_count + 1;
        let milestone = ReputationMilestone {
            user,
            required_cycles: cycles,
            description: desc,
            tier,
            is_completed: false,
        };
        self.milestones.insert(count, milestone);
        self.milestone_count = count;
        count
    }

    /// A milestone by id. An unknown milestone aborts the call.
    pub fn get_reputation_milestone(&self, milestone_id: u64) -> (r: &ReputationMilestone)
        requires
            self.milestones@.contains_key(milestone_id),
        ensures
            *r == self.milestones@[milestone_id],
    {
        self.milestones.get(&milestone_id).unwrap()
    }

    /// Administrator overwrites a user's metrics (scores at most 10000);
    /// the default count restarts at zero. Another caller, uninitialized
    /// storage or a score above 10000 aborts the call.
    pub fn update_user_reputation_metrics(
        &mut self,
        admin: AccountId,
        user: AccountId,
        reliability_score: u32,
        social_capital_score: u32,
        total_cycles: u32,
        perfect_cycles: u32,
        total_volume_saved: i128,
        now: u64,
    )
        requires
            old(self).wf(),
            old(self).admin == Some(admin),
            reliability_score <= 10_000,
            social_capital_score <= 10_000,
        ensures
            final(self).wf(),
            *final(self) == (SoroSusuSbtMinter { user_reputation: final(self).user_reputation, ..*old(self) }),
            final(self).user_reputation@ == old(self).user_reputation@.insert(user, UserReputationMetrics {
                reliability_score, social_capital_score, total_cycles, perfect_cycles,
                total_volume_saved, defaults_count: 0, last_updated: now }),
    {
        let metrics = UserReputationMetrics {
            reliability_score,
            social_capital_score,
            total_cycles,
            perfect_cycles,
            total_volume_saved,
            defaults_count: 0,
            last_updated: now,
        };
        self.user_reputation.insert(user, metrics);
    }

    /// The user's reliability score, social-capital score, and their mean.
    pub fn get_user_reputation_score(&self, user: AccountId, now: u64) -> (r: (u32, u32, u32))
        requires
            self.wf(),
        ensures
            r.0 == self.metrics_of(user, now).reliability_score,
            r.1 == self.metrics_of(user, now).social_capital_score,
            r.2 == (r.0 + r.1) / 2,
    {
        let metrics = self.metrics_for(user, now);
        (
            metrics.reliability_score,
            metrics.social_capital_score,
            (metrics.reliability_score + metrics.social_capital_score) / 2,
        )
    }

    /// Credentials are soulbound: every transfer is refused.
    pub fn transfer(&self, _from: AccountId, _to: AccountId, _token_id: u128) -> (r: Result<(), SbtError>)
        ensures
            r == Err::<(), SbtError>(SbtError::NonTransferable),
    {
        Err(SbtError::NonTransferable)
    }

    /// Credentials are soulbound: every delegated transfer is refused.
    pub fn transfer_from(&self, _spender: AccountId, _from: AccountId, _to: AccountId, _token_id: u128)
        -> (r: Result<(), SbtError>)
        ensures
            r == Err::<(), SbtError>(SbtError::NonTransferable),
    {
        Err(SbtError::NonTransferable)
    }

    /// Approvals are disabled.
    pub fn approve(&self, _owner: AccountId, _spender: AccountId, _token_id: u128) -> (r: Result<(), SbtError>)
        ensures
            r == Err::<(), SbtError>(SbtError::ApprovalsDisabled),
    {
        Err(SbtError::ApprovalsDisabled)
    }
}

/// A higher reliability score never earns a lower tier.
pub open spec fn tier_rank(t: ReputationTier) -> int {
    match t {
        ReputationTier::Bronze => 0,
        ReputationTier::Silver => 1,
        ReputationTier::Gold => 2,
        ReputationTier::Platinum => 3,
        ReputationTier::Diamond => 4,
    }
}

/// Tiers are monotone in the reliability score.
pub proof fn law_tier_monotone_in_score(a: u32, b: u32)
    requires
        a <= b,
    ensures
        tier_rank(spec_tier_for_score(a)) <= tier_rank(spec_tier_for_score(b)),
{
}

/// Reliability scores always lie in `0..=10000`.
pub proof fn law_reliability_score_bounded(total_cycles: u32, perfect_cycles: u32, defaults_count: u32)
    requires
        reliability_computable(total_cycles, perfect_cycles),
    ensures
        spec_reliability_score(total_cycles, perfect_cycles, defaults_count) <= 10_000,
{
    if total_cycles > 0 {
        let p = if perfect_cycles < total_cycles { perfect_cycles } else { total_cycles };
        assert(p * 10_000 / (total_cycles as int) <= 10_000) by (nonlinear_arith)
            requires p <= total_cycles, total_cycles > 0;
    }
}

/// Another default never raises the reliability score.
pub proof fn law_default_never_raises_score(total_cycles: u32, perfect_cycles: u32, defaults_count: u32)
    requires
        defaults_count < u32::MAX,
    ensures
        spec_reliability_score(total_cycles, perfect_cycles, (defaults_count + 1) as u32)
            <= spec_reliability_score(total_cycles, perfect_cycles, defaults_count),
{
    if total_cycles > 0 {
        let p = if perfect_cycles < total_cycles { perfect_cycles } else { total_cycles };
        let on_time = p * 10_000 / (total_cycles as int);
        assert(0 <= on_time <= 10_000) by (nonlinear_arith)
            requires p <= total_cycles, total_cycles > 0, p >= 0, on_time == p * 10_000 / (total_cycles as int);
        let d1 = (defaults_count + 1) as u32;
        let pen0 = if defaults_count * 1_500 > u32::MAX { u32::MAX as int } else { defaults_count * 1_500 };
        let pen1 = if d1 * 1_500 > u32::MAX { u32::MAX as int } else { d1 * 1_500 };
        assert(pen1 >= pen0);
        assert(spec_reliability_score(total_cycles, perfect_cycles, d1)
            == (if on_time > pen1 { (on_time - pen1) as u32 } else { 0 }));
        assert(spec_reliability_score(total_cycles, perfect_cycles, defaults_count)
            == (if on_time > pen0 { (on_time - pen0) as u32 } else { 0 }));
    }
}

/// Refreshing a credential never unlocks a delinquent, revoked or burned one.
pub proof fn law_refresh_keeps_locked_status(s: SoroSusuSbtMinter, c: SoroSusuCredential, now: u64)
    requires
        spec_is_locked_status(c.status),
    ensures
        s.refreshed(c, now).status == c.status,
{
}

/// A refreshed unlocked credential always shows the tier of its score.
pub proof fn law_refresh_status_matches_tier(s: SoroSusuSbtMinter, c: SoroSusuCredential, now: u64)
    requires
        !spec_is_locked_status(c.status),
    ensures
        s.refreshed(c, now).status == spec_status_for_tier(spec_tier_for_score(s.refreshed(c, now).reputation_score)),
        !spec_is_locked_status(s.refreshed(c, now).status),
{
}

} // verus!
