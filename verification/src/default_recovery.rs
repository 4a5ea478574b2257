//! Default recovery: a member who defaulted owes the missed contribution plus
//! a 15% reinstatement penalty, and regains reliability gradually, 25 points
//! per good round, fully reinstated after at least three rounds once back at
//! the score held before the default.
use vstd::prelude::*;
use std::collections::BTreeMap;
use crate::AccountId;
use crate::arith::tdiv;

verus! {

broadcast use vstd::std_specs::btree::group_btree_axioms;

/// Reinstatement penalty on top of the missed amount (15%).
pub const REINSTATEMENT_PENALTY_BPS: u32 = 1500;
/// Reliability points regained per good round.
pub const RI_RECOVERY_PER_ROUND: u32 = 25;
/// Highest reliability score.
pub const MAX_RI_SCORE: u32 = 1000;
/// Least number of good rounds before full reinstatement.
pub const MIN_RECOVERY_ROUNDS: u32 = 3;

/// Storage keys of the recovery tables.
#[derive(Clone, Copy, Debug, PartialEq, Eq, Structural)]
pub enum DefaultRecoveryKey {
    RepaymentRecord(AccountId, u64),
    RecoveryProgress(AccountId, u64),
}

/// State of a repayment.
#[derive(Clone, Copy, Debug, PartialEq, Eq, Structural)]
pub enum RepaymentStatus {
    Pending,
    Repaid,
    Overdue,
    Waived,
}

/// What a defaulted member owes to regain standing.
#[derive(Clone, Copy, Debug, PartialEq, Eq, Structural)]
pub struct RepaymentRecord {
    pub member: AccountId,
    pub circle_id: u64,
    pub missed_amount: i128,
    pub penalty_amount: i128,
    pub total_owed: i128,
    pub amount_paid: i128,
    pub status: RepaymentStatus,
    pub defaulted_at: u64,
    pub repaid_at: Option<u64>,
}

/// How far a defaulted member's reliability has recovered.
#[derive(Clone, Copy, Debug, PartialEq, Eq, Structural)]
pub struct RecoveryProgress {
    pub member: AccountId,
    pub circle_id: u64,
    pub ri_score_at_default: u32,
    pub current_ri_score: u32,
    pub recovery_rounds_completed: u32,
    pub fully_reinstated: bool,
}

/// The penalty on a missed amount.
pub open spec fn penalty_of(missed_amount: int) -> int {
    tdiv(missed_amount * REINSTATEMENT_PENALTY_BPS, 10000)
}

/// Recovery after one more good round.
pub open spec fn advanced(p: RecoveryProgress) -> RecoveryProgress {
    let rounds = (p.recovery_rounds_completed + 1) as u32;
    let score = if p.current_ri_score + RI_RECOVERY_PER_ROUND < MAX_RI_SCORE {
        (p.current_ri_score + RI_RECOVERY_PER_ROUND) as u32
    } else {
        MAX_RI_SCORE
    };
    RecoveryProgress {
        recovery_rounds_completed: rounds,
        current_ri_score: score,
        fully_reinstated: rounds >= MIN_RECOVERY_ROUNDS && score >= p.ri_score_at_default,
        ..p
    }
}

/// A repayment record after a payment at `now`.
pub open spec fn paid(r: RepaymentRecord, payment: i128, now: u64) -> RepaymentRecord {
    let total_paid = (r.amount_paid + payment) as i128;
    if total_paid >= r.total_owed {
        RepaymentRecord { amount_paid: total_paid, status: RepaymentStatus::Repaid, repaid_at: Some(now), ..r }
    } else {
        RepaymentRecord { amount_paid: total_paid, ..r }
    }
}

/// The recovery tables.
pub struct RecoveryStore {
    pub repayments: BTreeMap<(AccountId, u64), RepaymentRecord>,
    pub progress: BTreeMap<(AccountId, u64), RecoveryProgress>,
}

impl RecoveryStore {
    /// Empty tables.
    pub fn new() -> (r: Self)
        ensures
            r.repayments@ == Map::<(AccountId, u64), RepaymentRecord>::empty(),
            r.progress@ == Map::<(AccountId, u64), RecoveryProgress>::empty(),
    {
        RecoveryStore { repayments: BTreeMap::new(), progress: BTreeMap::new() }
    }

    /// Opens a default: the member owes the missed amount plus the 15%
    /// penalty, and recovery starts from the score held at the default. A
    /// missed amount that is not positive aborts the call.
    pub fn record_default(
        &mut self,
        member: AccountId,
        circle_id: u64,
        missed_amount: i128,
        ri_score_at_default: u32,
        now: u64,
    ) -> (r: RepaymentRecord)
        requires
            missed_amount > 0,
            missed_amount * REINSTATEMENT_PENALTY_BPS <= i128::MAX,
        ensures
            ({
                let rec = RepaymentRecord {
                    member, circle_id, missed_amount,
                    penalty_amount: penalty_of(missed_amount as int) as i128,
                    total_owed: (missed_amount + penalty_of(missed_amount as int)) as i128,
                    amount_paid: 0, status: RepaymentStatus::Pending, defaulted_at: now, repaid_at: None,
                };
                &&& r == rec
                &&& final(self).repayments@ == old(self).repayments@.insert((member, circle_id), rec)
                &&& final(self).progress@ == old(self).progress@.insert((member, circle_id), RecoveryProgress {
                    member, circle_id, ri_score_at_default, current_ri_score: ri_score_at_default,
                    recovery_rounds_completed: 0, fully_reinstated: false,
                })
            }),
    {
        let penalty = (missed_amount * REINSTATEMENT_PENALTY_BPS as i128) / 10_000;
        let total_owed = missed_amount + penalty;
        let record = RepaymentRecord {
            member,
            circle_id,
            missed_amount,
            penalty_amount: penalty,
            total_owed,
            amount_paid: 0,
            status: RepaymentStatus::Pending,
            defaulted_at: now,
            repaid_at: None,
        };
        let progress = RecoveryProgress {
            member,
            circle_id,
            ri_score_at_default,
            current_ri_score: ri_score_at_default,
            recovery_rounds_completed: 0,
            fully_reinstated: false,
        };
        self.repayments.insert((member, circle_id), record);
        self.progress.insert((member, circle_id), progress);
        record
    }

    /// Takes a payment toward a pending default; the record becomes repaid
    /// once the total owed is covered. A payment that is not positive, or
    /// one without a pending default, aborts the call.
    pub fn repay_default(&mut self, member: AccountId, circle_id: u64, payment_amount: i128, now: u64)
        -> (r: RepaymentRecord)
        requires
            payment_amount > 0,
            old(self).repayments@.contains_key((member, circle_id)),
            old(self).repayments@[(member, circle_id)].status == RepaymentStatus::Pending,
            old(self).repayments@[(member, circle_id)].amount_paid + payment_amount <= i128::MAX,
        ensures
            ({
                let rec = paid(old(self).repayments@[(member, circle_id)], payment_amount, now);
                &&& r == rec
                &&& final(self).repayments@ == old(self).repayments@.insert((member, circle_id), rec)
                &&& final(self).progress == old(self).progress
            }),
    {
        let mut record = *self.repayments.get(&(member, circle_id)).unwrap();
        record.amount_paid = record.amount_paid + payment_amount;
        if record.amount_paid >= record.total_owed {
            record.status = RepaymentStatus::Repaid;
            record.repaid_at = Some(now);
        }
        self.repayments.insert((member, circle_id), record);
        record
    }

    /// Credits one good round to a member's recovery: 25 reliability points
    /// (up to 1000); full reinstatement after at least three rounds once
    /// the score is back at its level before the default. A member without
    /// recovery progress, or already reinstated, aborts the call.
    pub fn advance_ri_recovery(&mut self, member: AccountId, circle_id: u64) -> (r: RecoveryProgress)
        requires
            old(self).progress@.contains_key((member, circle_id)),
            !old(self).progress@[(member, circle_id)].fully_reinstated,
            old(self).progress@[(member, circle_id)].recovery_rounds_completed < u32::MAX,
            old(self).progress@[(member, circle_id)].current_ri_score + RI_RECOVERY_PER_ROUND <= u32::MAX,
        ensures
            ({
                let p = advanced(old(self).progress@[(member, circle_id)]);
                &&& r == p
                &&& final(self).progress@ == old(self).progress@.insert((member, circle_id), p)
                &&& final(self).repayments == old(self).repayments
            }),
    {
        let mut progress = *self.progress.get(&(member, circle_id)).unwrap();
        progress.recovery_rounds_completed = progress.recovery_rounds_completed + 1;
        let raised = progress.current_ri_score + RI_RECOVERY_PER_ROUND;
        let new_score = if raised < MAX_RI_SCORE { raised } else { MAX_RI_SCORE };
        progress.current_ri_score = new_score;
        if progress.recovery_rounds_completed >= MIN_RECOVERY_ROUNDS
            && progress.current_ri_score >= progress.ri_score_at_default
        {
            progress.fully_reinstated = true;
        }
        self.progress.insert((member, circle_id), progress);
        progress
    }

    /// A member's repayment record in a circle, if any.
    pub fn get_repayment_record(&self, member: AccountId, circle_id: u64) -> (r: Option<RepaymentRecord>)
        ensures
            r == self.repayments@.get((member, circle_id)),
    {
        match self.repayments.get(&(member, circle_id)) {
            Some(rec) => Some(*rec),
            None => None,
        }
    }

    /// A member's recovery progress in a circle, if any.
    pub fn get_recovery_progress(&self, member: AccountId, circle_id: u64) -> (r: Option<RecoveryProgress>)
        ensures
            r == self.progress@.get((member, circle_id)),
    {
        match self.progress.get(&(member, circle_id)) {
            Some(p) => Some(*p),
            None => None,
        }
    }
}

/// Recovery is gradual: one round raises the score by at most 25 points and
/// never above 1000 (nor lowers it when it is at most 1000), and a member is
/// only ever fully reinstated after at least three rounds.
pub proof fn law_recovery_is_gradual(p: RecoveryProgress)
    requires
        p.recovery_rounds_completed < u32::MAX,
    ensures
        advanced(p).current_ri_score <= p.current_ri_score + RI_RECOVERY_PER_ROUND,
        advanced(p).current_ri_score <= MAX_RI_SCORE,
        p.current_ri_score <= MAX_RI_SCORE ==> advanced(p).current_ri_score >= p.current_ri_score,
        advanced(p).fully_reinstated ==> advanced(p).recovery_rounds_completed >= MIN_RECOVERY_ROUNDS,
        advanced(p).recovery_rounds_completed == p.recovery_rounds_completed + 1,
{
}

/// A member owes at least the missed amount, and a repayment that covers the
/// total owed closes the default, after which no further payment is taken.
pub proof fn law_repayment_closes_default(r: RepaymentRecord, payment: i128, now: u64)
    requires
        r.missed_amount > 0,
        r.total_owed == r.missed_amount + penalty_of(r.missed_amount as int),
        r.amount_paid + payment >= r.total_owed,
        r.amount_paid + payment <= i128::MAX,
    ensures
        r.total_owed >= r.missed_amount,
        paid(r, payment, now).status == RepaymentStatus::Repaid,
        paid(r, payment, now).repaid_at == Some(now),
{
    assert(r.missed_amount * 1500 >= 0) by (nonlinear_arith) requires r.missed_amount > 0;
}

} // verus!
