//! Disputes and group clean-up: a reentrancy lock, the sweep of completed
//! groups after 30 days, the pruning of completed and drained "zombie" groups
//! after 180 days with a bounty for the relayer, and bonded disputes whose
//! verdict slashes or returns the bond.
//!
//! Token movements are returned to the caller, which performs them.
use vstd::prelude::*;
use std::collections::BTreeMap;
use vstd::wrapping::u64_specs;
use crate::AccountId;

verus! {

broadcast use vstd::std_specs::btree::group_btree_axioms;

/// Seconds a completed group waits before it can be cleaned up (30 days).
pub const THIRTY_DAYS_SECS: u64 = 2_592_000;
/// Seconds a completed and drained group waits before it can be pruned
/// (180 days).
pub const ZOMBIE_PRUNE_WINDOW_SECS: u64 = 15_552_000;
/// Relayer bounty, in basis points of the estimated reclaimed rent.
pub const RELAYER_BOUNTY_BPS: u32 = 500;
/// Bond an accuser locks to raise a dispute, in stroops (0.5 XLM).
pub const DISPUTE_BOND_STROOPS: i128 = 5_000_000;

/// Life cycle of a dispute.
#[derive(Clone, Copy, Debug, PartialEq, Eq, Structural)]
pub enum DisputeStatus {
    Open,
    Resolved,
    Baseless,
}

/// A dispute between two members of a circle.
#[derive(Clone, Copy, Debug, PartialEq, Eq, Structural)]
pub struct DisputeRecord {
    pub circle_id: u64,
    pub accuser: AccountId,
    pub accused: AccountId,
    pub bond_amount: i128,
    pub status: DisputeStatus,
    pub raised_at: u64,
}

/// What pruning needs to know of a circle that still exists.
#[derive(Clone, Copy, Debug, PartialEq, Eq, Structural)]
pub struct CircleSummary {
    pub is_active: bool,
    pub member_count: u32,
}

/// Why a dispute-module operation is refused.
#[derive(Clone, Copy, Debug, PartialEq, Eq, Structural)]
pub enum DisputeError {
    CircleNotCompleted,
    CleanupWindowNotElapsed,
    DisputeNotFound,
    DisputeNotOpen,
}

/// A movement of a dispute bond, performed by the caller with the circle's
/// token.
#[derive(Clone, Copy, Debug, PartialEq, Eq, Structural)]
pub enum BondMovement {
    /// From the account into the contract.
    Lock { from: AccountId, amount: i128 },
    /// From the contract to the account.
    Release { to: AccountId, amount: i128 },
}

/// The audit trail of the dispute life cycle and of group clean-up.
#[derive(Clone, Copy, Debug, PartialEq, Eq, Structural)]
pub enum DisputeEvent {
    DisputeRaised { dispute_id: u64, circle_id: u64, accuser: AccountId, accused: AccountId },
    EvidenceSubmitted { dispute_id: u64, submitter: AccountId, evidence_hash: u64 },
    JurorVoted { dispute_id: u64, juror: AccountId, vote_guilty: bool },
    VerdictExecuted { dispute_id: u64, baseless: bool, accuser: AccountId, accused: AccountId },
    GroupCleaned { circle_id: u64, meta_hash: u64 },
    ZombiePruned { circle_id: u64, bounty: u64, bytes_reclaimed: u64 },
}

/// Estimated bytes reclaimed by pruning a group of `member_count` members.
pub open spec fn reclaimed_bytes(member_count: u64) -> u64 {
    (700 + member_count * 100) as u64
}

/// The relayer's bounty: 5% of a year of rent on the reclaimed kilobytes
/// (500 stroops per kilobyte per ledger, 25 ledgers a day).
pub open spec fn prune_bounty(member_count: u64) -> u64 {
    ((((reclaimed_bytes(member_count) / 1000) * 12_500 * 365) * 500) / 10000) as u64
}

/// The tombstone kept for a pruned group.
pub open spec fn tombstone(circle_id: u64, completed_at: u64, drained_at: u64) -> u64 {
    u64_specs::wrapping_mul(u64_specs::wrapping_add(circle_id, completed_at), u64_specs::wrapping_add(drained_at, 1))
}

/// The member-position keys `(circle_id, i)` for `i < n`.
pub open spec fn member_keys(circle_id: u64, n: u64) -> Set<(u64, u64)> {
    Set::new(|k: (u64, u64)| k.0 == circle_id && k.1 < n)
}

/// The record of a dispute once decided: baseless, or upheld and closed.
pub open spec fn decided(d: DisputeRecord, baseless: bool) -> DisputeRecord {
    DisputeRecord { status: if baseless { DisputeStatus::Baseless } else { DisputeStatus::Resolved }, ..d }
}

/// The `DisputeRaised` event.
pub fn emit_dispute_raised(dispute_id: u64, circle_id: u64, accuser: AccountId, accused: AccountId) -> (r: DisputeEvent)
    ensures
        r == (DisputeEvent::DisputeRaised { dispute_id, circle_id, accuser, accused }),
{
    DisputeEvent::DisputeRaised { dispute_id, circle_id, accuser, accused }
}

/// The `EvidenceSubmitted` event.
pub fn emit_evidence_submitted(dispute_id: u64, submitter: AccountId, evidence_hash: u64) -> (r: DisputeEvent)
    ensures
        r == (DisputeEvent::EvidenceSubmitted { dispute_id, submitter, evidence_hash }),
{
    DisputeEvent::EvidenceSubmitted { dispute_id, submitter, evidence_hash }
}

/// The `JurorVoted` event.
pub fn emit_juror_voted(dispute_id: u64, juror: AccountId, vote_guilty: bool) -> (r: DisputeEvent)
    ensures
        r == (DisputeEvent::JurorVoted { dispute_id, juror, vote_guilty }),
{
    DisputeEvent::JurorVoted { dispute_id, juror, vote_guilty }
}

/// The `VerdictExecuted` event.
pub fn emit_verdict_executed(dispute_id: u64, baseless: bool, accuser: AccountId, accused: AccountId) -> (r: DisputeEvent)
    ensures
        r == (DisputeEvent::VerdictExecuted { dispute_id, baseless, accuser, accused }),
{
    DisputeEvent::VerdictExecuted { dispute_id, baseless, accuser, accused }
}

/// Storage of the dispute module and the circle entries it sweeps.
pub struct DisputeStore {
    pub non_reentrant: bool,
    pub circle_completed_at: BTreeMap<u64, u64>,
    pub circle_drained_at: BTreeMap<u64, u64>,
    pub archived_group_hash: BTreeMap<u64, u64>,
    pub circles: BTreeMap<u64, CircleSummary>,
    pub circle_members: BTreeMap<(u64, u64), AccountId>,
    pub group_reserve: u64,
    pub dispute_count: u64,
    pub disputes: BTreeMap<u64, DisputeRecord>,
}

impl DisputeStore {
    /// Empty storage, unlocked.
    pub fn new() -> (r: Self)
        ensures
            !r.non_reentrant,
            r.circle_completed_at@ == Map::<u64, u64>::empty(),
            r.circle_drained_at@ == Map::<u64, u64>::empty(),
            r.archived_group_hash@ == Map::<u64, u64>::empty(),
            r.circles@ == Map::<u64, CircleSummary>::empty(),
            r.circle_members@ == Map::<(u64, u64), AccountId>::empty(),
            r.group_reserve == 0,
            r.dispute_count == 0,
            r.disputes@ == Map::<u64, DisputeRecord>::empty(),
    {
        DisputeStore {
            non_reentrant: false,
            circle_completed_at: BTreeMap::new(),
            circle_drained_at: BTreeMap::new(),
            archived_group_hash: BTreeMap::new(),
            circles: BTreeMap::new(),
            circle_members: BTreeMap::new(),
            group_reserve: 0,
            dispute_count: 0,
            disputes: BTreeMap::new(),
        }
    }

    /// Takes the reentrancy lock; a call while it is held (a reentrant call)
    /// aborts.
    pub fn acquire_lock(&mut self)
        requires
            !old(self).non_reentrant,
        ensures
            *final(self) == (DisputeStore { non_reentrant: true, ..*old(self) }),
    {
        self.non_reentrant = true;
    }

    /// Releases the reentrancy lock.
    pub fn release_lock(&mut self)
        ensures
            *final(self) == (DisputeStore { non_reentrant: false, ..*old(self) }),
    {
        self.non_reentrant = false;
    }

    /// Why sweeping `circle_id` at `now` is refused, if it is: a circle never
    /// completed, or completed less than 30 days ago.
    pub open spec fn cleanup_refusal(&self, circle_id: u64, now: u64) -> Option<DisputeError> {
        if !self.circle_completed_at@.contains_key(circle_id) {
            Some(DisputeError::CircleNotCompleted)
        } else if now < self.circle_completed_at@[circle_id] + THIRTY_DAYS_SECS {
            Some(DisputeError::CleanupWindowNotElapsed)
        } else {
            None
        }
    }

    /// Checks a sweep: its refusal, if any.
    pub fn cleanup_check(&self, circle_id: u64, now: u64) -> (r: Option<DisputeError>)
        requires
            self.circle_completed_at@.contains_key(circle_id) ==> self.circle_completed_at@[circle_id]
                + THIRTY_DAYS_SECS <= u64::MAX,
        ensures
            r == self.cleanup_refusal(circle_id, now),
    {
        match self.circle_completed_at.get(&circle_id) {
            None => Some(DisputeError::CircleNotCompleted),
            Some(t) => if now < *t + THIRTY_DAYS_SECS { Some(DisputeError::CleanupWindowNotElapsed) } else { None },
        }
    }

    /// Sweeps a group 30 days after its completion: archives its id as the
    /// metadata hash, removes the circle and its completion time, and
    /// credits one rent unit to the group reserve. A sweep that
    /// [`DisputeStore::cleanup_check`] refuses aborts the call.
    pub fn cleanup_group(&mut self, circle_id: u64, now: u64) -> (r: DisputeEvent)
        requires
            old(self).cleanup_refusal(circle_id, now) is None,
            old(self).group_reserve < u64::MAX,
        ensures
            r == (DisputeEvent::GroupCleaned { circle_id, meta_hash: circle_id }),
            final(self).archived_group_hash@ == old(self).archived_group_hash@.insert(circle_id, circle_id),
            final(self).circles@ == old(self).circles@.remove(circle_id),
            final(self).circle_completed_at@ == old(self).circle_completed_at@.remove(circle_id),
            final(self).group_reserve == old(self).group_reserve + 1,
            final(self).circle_drained_at == old(self).circle_drained_at,
            final(self).circle_members == old(self).circle_members,
            final(self).disputes == old(self).disputes,
            final(self).dispute_count == old(self).dispute_count,
            final(self).non_reentrant == old(self).non_reentrant,
    {
        let meta_hash: u64 = circle_id;
        self.archived_group_hash.insert(circle_id, meta_hash);
        self.circles.remove(&circle_id);
        self.circle_completed_at.remove(&circle_id);
        self.group_reserve = self.group_reserve + 1;
        DisputeEvent::GroupCleaned { circle_id, meta_hash }
    }

    /// Records that a circle paid out its last payout at `now`.
    pub fn mark_circle_drained(&mut self, circle_id: u64, now: u64)
        ensures
            *final(self) == (DisputeStore {
                circle_drained_at: final(self).circle_drained_at, ..*old(self) }),
            final(self).circle_drained_at@ == old(self).circle_drained_at@.insert(circle_id, now),
    {
        self.circle_drained_at.insert(circle_id, now);
    }

    /// Why pruning `circle_id` at `now` is refused, if it is, by its code:
    /// 404 (not completed), 405 (not drained), 406 (completion less than 180
    /// days ago), 407 (drain less than 180 days ago), 408 (circle still
    /// active).
    pub open spec fn prune_refusal(&self, circle_id: u64, now: u64) -> Option<u32> {
        if !self.circle_completed_at@.contains_key(circle_id) {
            Some(404)
        } else if !self.circle_drained_at@.contains_key(circle_id) {
            Some(405)
        } else if now < self.circle_completed_at@[circle_id] + ZOMBIE_PRUNE_WINDOW_SECS {
            Some(406)
        } else if now < self.circle_drained_at@[circle_id] + ZOMBIE_PRUNE_WINDOW_SECS {
            Some(407)
        } else if self.circles@.contains_key(circle_id) && self.circles@[circle_id].is_active {
            Some(408)
        } else {
            None
        }
    }

    /// Checks whether `circle_id` can be pruned at `now`: its refusal code, if
    /// any (see [`DisputeStore::prune_refusal`]).
    pub fn prune_check(&self, circle_id: u64, now: u64) -> (r: Option<u32>)
        requires
            self.circle_completed_at@.contains_key(circle_id) ==> self.circle_completed_at@[circle_id]
                + ZOMBIE_PRUNE_WINDOW_SECS <= u64::MAX,
            self.circle_drained_at@.contains_key(circle_id) ==> self.circle_drained_at@[circle_id]
                + ZOMBIE_PRUNE_WINDOW_SECS <= u64::MAX,
        ensures
            r == self.prune_refusal(circle_id, now),
    {
        let completed_at: u64 = match self.circle_completed_at.get(&circle_id) {
            Some(t) => *t,
            None => { return Some(404); },
        };
        let drained_at: u64 = match self.circle_drained_at.get(&circle_id) {
            Some(t) => *t,
            None => { return Some(405); },
        };
        if now < completed_at + ZOMBIE_PRUNE_WINDOW_SECS {
            Some(406)
        } else if now < drained_at + ZOMBIE_PRUNE_WINDOW_SECS {
            Some(407)
        } else {
            match self.circles.get(&circle_id) {
                Some(c) => if c.is_active { Some(408) } else { None },
                None => None,
            }
        }
    }

    /// Prunes a group completed and drained at least 180 days ago: keeps a
    /// tombstone, deletes the circle, its timestamps and its member
    /// positions, and pays the relayer's bounty from the group reserve when
    /// the reserve covers it. Returns the bounty, or the error code 404 (not
    /// completed) or 405 (not drained). A group still active or whose 180
    /// days have not elapsed (codes 406 to 408 of
    /// [`DisputeStore::prune_check`]) is never touched: the call aborts.
    pub fn prune_zombie_group(&mut self, circle_id: u64, now: u64) -> (r: Result<u64, u32>)
        requires
            old(self).circle_completed_at@.contains_key(circle_id) && old(self).circle_drained_at@.contains_key(circle_id)
                ==> old(self).prune_refusal(circle_id, now) is None,
        ensures
            !old(self).circle_completed_at@.contains_key(circle_id) ==> r == Err::<u64, u32>(404),
            old(self).circle_completed_at@.contains_key(circle_id) && !old(self).circle_drained_at@.contains_key(circle_id)
                ==> r == Err::<u64, u32>(405),
            r is Err ==> *final(self) == *old(self),
            old(self).circle_completed_at@.contains_key(circle_id) && old(self).circle_drained_at@.contains_key(circle_id) ==> {
                let completed = old(self).circle_completed_at@[circle_id];
                let drained = old(self).circle_drained_at@[circle_id];
                let exists = old(self).circles@.contains_key(circle_id);
                let members: u64 = if exists { old(self).circles@[circle_id].member_count as u64 } else { 0 };
                let bounty = prune_bounty(members);
                &&& r == Ok::<u64, u32>(bounty)
                &&& final(self).archived_group_hash@ == old(self).archived_group_hash@.insert(circle_id,
                    tombstone(circle_id, completed, drained))
                &&& final(self).circles@ == old(self).circles@.remove(circle_id)
                &&& final(self).circle_completed_at@ == old(self).circle_completed_at@.remove(circle_id)
                &&& final(self).circle_drained_at@ == old(self).circle_drained_at@.remove(circle_id)
                &&& final(self).circle_members@ == old(self).circle_members@.remove_keys(member_keys(circle_id, members))
                &&& final(self).group_reserve == (if old(self).group_reserve >= bounty {
                    (old(self).group_reserve - bounty) as u64
                } else {
                    old(self).group_reserve
                })
                &&& final(self).disputes == old(self).disputes
                &&& final(self).dispute_count == old(self).dispute_count
                &&& final(self).non_reentrant == old(self).non_reentrant
            },
    {
        let completed_at: u64 = match self.circle_completed_at.get(&circle_id) {
            Some(t) => *t,
            None => { return Err(404); },
        };
        let drained_at: u64 = match self.circle_drained_at.get(&circle_id) {
            Some(t) => *t,
            None => { return Err(405); },
        };
        let circle_exists = self.circles.contains_key(&circle_id);
        let member_count: u64 = match self.circles.get(&circle_id) {
            Some(c) => c.member_count as u64,
            None => 0,
        };
        let base_bytes: u64 = 700;
        let member_bytes: u64 = member_count * 100;
        let total_bytes_reclaimed = base_bytes + member_bytes;
        let rent_per_ledger_per_kb: u64 = 500;
        let ledgers_per_day: u64 = 25;
        let daily_rent_per_kb = rent_per_ledger_per_kb * ledgers_per_day;
        assert(member_count <= u32::MAX);
        assert((total_bytes_reclaimed / 1000) * 12_500 * 365 * 500 <= u64::MAX) by (nonlinear_arith)
            requires
                total_bytes_reclaimed == 700 + member_count * 100,
                member_count <= u32::MAX;
        let yearly_rent_estimate = (total_bytes_reclaimed / 1000) * daily_rent_per_kb * 365;
        let bounty = (yearly_rent_estimate * (RELAYER_BOUNTY_BPS as u64)) / 10000;
        let tombstone_hash = circle_id.wrapping_add(completed_at).wrapping_mul(drained_at.wrapping_add(1));
        self.archived_group_hash.insert(circle_id, tombstone_hash);
        if circle_exists {
            self.circles.remove(&circle_id);
        }
        self.circle_completed_at.remove(&circle_id);
        self.circle_drained_at.remove(&circle_id);
        let ghost members_before = self.circle_members@;
        let ghost before = *self;
        let mut i: u64 = 0;
        while i < member_count
            invariant
                i <= member_count,
                *self == (DisputeStore { circle_members: self.circle_members, ..before }),
                self.circle_members@ == members_before.remove_keys(member_keys(circle_id, i)),
            decreases member_count - i,
        {
            self.circle_members.remove(&(circle_id, i));
            i = i + 1;
            assert(self.circle_members@ =~= members_before.remove_keys(member_keys(circle_id, i)));
        }
        if self.group_reserve >= bounty {
            self.group_reserve = self.group_reserve - bounty;
        }
        assert(old(self).circles@.remove(circle_id) =~= self.circles@);
        Ok(bounty)
    }

    /// Raises a dispute in a circle: the accuser's bond is to be locked (the
    /// returned movement), the dispute gets the next id and starts open.
    pub fn raise_dispute(&mut self, accuser: AccountId, accused: AccountId, circle_id: u64, now: u64)
        -> (r: (u64, BondMovement, DisputeEvent))
        requires
            old(self).dispute_count < u64::MAX,
        ensures
            r.0 == old(self).dispute_count + 1,
            r.1 == (BondMovement::Lock { from: accuser, amount: DISPUTE_BOND_STROOPS }),
            r.2 == (DisputeEvent::DisputeRaised { dispute_id: r.0, circle_id, accuser, accused }),
            final(self).dispute_count == r.0,
            final(self).disputes@ == old(self).disputes@.insert(r.0, DisputeRecord {
                circle_id, accuser, accused, bond_amount: DISPUTE_BOND_STROOPS, status: DisputeStatus::Open, raised_at: now,
            }),
            *final(self) == (DisputeStore { dispute_count: final(self).dispute_count, disputes: final(self).disputes, ..*old(self) }),
    {
        let bond = BondMovement::Lock { from: accuser, amount: DISPUTE_BOND_STROOPS };
        let dispute_id = self.dispute_count + 1;
        self.dispute_count = dispute_id;
        let record = DisputeRecord {
            circle_id,
            accuser,
            accused,
            bond_amount: DISPUTE_BOND_STROOPS,
            status: DisputeStatus::Open,
            raised_at: now,
        };
        self.disputes.insert(dispute_id, record);
        (dispute_id, bond, emit_dispute_raised(dispute_id, circle_id, accuser, accused))
    }

    /// The dispute `dispute_id` if it is open, else why not: not found, or
    /// no longer open.
    pub fn open_dispute(&self, dispute_id: u64) -> (r: Result<DisputeRecord, DisputeError>)
        ensures
            !self.disputes@.contains_key(dispute_id) ==> r == Err::<DisputeRecord, DisputeError>(DisputeError::DisputeNotFound),
            self.disputes@.contains_key(dispute_id) && self.disputes@[dispute_id].status != DisputeStatus::Open
                ==> r == Err::<DisputeRecord, DisputeError>(DisputeError::DisputeNotOpen),
            self.disputes@.contains_key(dispute_id) && self.disputes@[dispute_id].status == DisputeStatus::Open
                ==> r == Ok::<DisputeRecord, DisputeError>(self.disputes@[dispute_id]),
    {
        let record = match self.disputes.get(&dispute_id) {
            Some(d) => *d,
            None => { return Err(DisputeError::DisputeNotFound); },
        };
        if record.status != DisputeStatus::Open {
            return Err(DisputeError::DisputeNotOpen);
        }
        Ok(record)
    }

    /// Records evidence on an open dispute (the audit event); a dispute not
    /// found or no longer open ([`DisputeStore::open_dispute`]) aborts the
    /// call.
    pub fn submit_evidence(&self, submitter: AccountId, dispute_id: u64, evidence_hash: u64) -> (r: DisputeEvent)
        requires
            self.disputes@.contains_key(dispute_id),
            self.disputes@[dispute_id].status == DisputeStatus::Open,
        ensures
            r == (DisputeEvent::EvidenceSubmitted { dispute_id, submitter, evidence_hash }),
    {
        emit_evidence_submitted(dispute_id, submitter, evidence_hash)
    }

    /// Records a juror's vote on an open dispute (the audit event); a dispute
    /// not found or no longer open aborts the call.
    pub fn juror_vote(&self, juror: AccountId, dispute_id: u64, vote_guilty: bool) -> (r: DisputeEvent)
        requires
            self.disputes@.contains_key(dispute_id),
            self.disputes@[dispute_id].status == DisputeStatus::Open,
        ensures
            r == (DisputeEvent::JurorVoted { dispute_id, juror, vote_guilty }),
    {
        emit_juror_voted(dispute_id, juror, vote_guilty)
    }

    /// Executes the verdict on an open dispute: a baseless accusation slashes
    /// the bond to the accused, otherwise the bond goes back to the accuser.
    /// A dispute not found or already resolved aborts the call.
    pub fn execute_verdict(&mut self, dispute_id: u64, baseless: bool) -> (r: (BondMovement, DisputeEvent))
        requires
            old(self).disputes@.contains_key(dispute_id),
            old(self).disputes@[dispute_id].status == DisputeStatus::Open,
        ensures
            ({
                let d = old(self).disputes@[dispute_id];
                let to = if baseless { d.accused } else { d.accuser };
                &&& r == (
                    BondMovement::Release { to, amount: d.bond_amount },
                    DisputeEvent::VerdictExecuted { dispute_id, baseless, accuser: d.accuser, accused: d.accused },
                )
                &&& final(self).disputes@ == old(self).disputes@.insert(dispute_id, decided(d, baseless))
                &&& *final(self) == (DisputeStore { disputes: final(self).disputes, ..*old(self) })
            }),
    {
        let mut record = *self.disputes.get(&dispute_id).unwrap();
        let movement = if baseless {
            record.status = DisputeStatus::Baseless;
            BondMovement::Release { to: record.accused, amount: record.bond_amount }
        } else {
            record.status = DisputeStatus::Resolved;
            BondMovement::Release { to: record.accuser, amount: record.bond_amount }
        };
        self.disputes.insert(dispute_id, record);
        (movement, emit_verdict_executed(dispute_id, baseless, record.accuser, record.accused))
    }
}

/// A dispute is decided once: after a verdict it is no longer open, so a
/// second verdict on it is refused and no bond moves twice.
pub proof fn law_verdict_is_final(d: DisputeRecord, baseless: bool)
    requires
        d.status == DisputeStatus::Open,
    ensures
        decided(d, baseless).status != DisputeStatus::Open,
        decided(d, baseless).bond_amount == d.bond_amount,
{
}

} // verus!
