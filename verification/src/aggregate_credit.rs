//! Aggregate credit: a group pools its members' reliability scores to borrow
//! from the protocol reserve, is collectively liable, and locks its vault for
//! the loan term.
use vstd::prelude::*;
use std::collections::BTreeMap;
use crate::AccountId;
use crate::arith::{sat_add_i128, saturating_add_i128};

verus! {

broadcast use vstd::std_specs::btree::group_btree_axioms;

/// Minimum individual reliability score to join an aggregated loan.
pub const MIN_MEMBER_RI: u32 = 400;
/// Minimum sum of the members' reliability scores.
pub const MIN_AGGREGATE_RI: u32 = 10_000;
/// Reliability score every member loses on a group default.
pub const GROUP_DEFAULT_RI_PENALTY: u32 = 200;
/// Most members per aggregated group.
pub const MAX_GROUP_MEMBERS: u32 = 50;

/// Storage keys of the aggregate-credit tables.
#[derive(Clone, Copy, Debug, PartialEq, Eq, Structural)]
pub enum AggregateCreditKey {
    GroupLoan(u64),
    IdentityHash(AccountId),
    VaultLocked(u64),
    MemberRi(AccountId),
}

/// Status of a collective loan.
#[derive(Clone, Copy, Debug, PartialEq, Eq, Structural)]
pub enum CollectiveLoanStatus {
    Active,
    Repaid,
    Defaulted,
}

/// A loan owed collectively by a group.
#[derive(Clone, Debug)]
pub struct CollectiveLoan {
    pub group_id: u64,
    pub members: Vec<AccountId>,
    pub aggregate_ri: u32,
    pub principal: i128,
    pub amount_repaid: i128,
    pub status: CollectiveLoanStatus,
    pub initiated_at: u64,
}

/// The value of a loan record.
pub struct LoanView {
    pub group_id: u64,
    pub members: Seq<AccountId>,
    pub aggregate_ri: u32,
    pub principal: i128,
    pub amount_repaid: i128,
    pub status: CollectiveLoanStatus,
    pub initiated_at: u64,
}

impl View for CollectiveLoan {
    type V = LoanView;

    open spec fn view(&self) -> LoanView {
        LoanView {
            group_id: self.group_id,
            members: self.members@,
            aggregate_ri: self.aggregate_ri,
            principal: self.principal,
            amount_repaid: self.amount_repaid,
            status: self.status,
            initiated_at: self.initiated_at,
        }
    }
}

/// Why an aggregate-credit operation is refused.
#[derive(Clone, Copy, Debug, PartialEq, Eq, Structural)]
pub enum AggregateCreditError {
    TooManyMembers,
    LoanAlreadyActive,
    MemberNotVerified,
    DuplicateIdentity,
    MemberRiTooLow,
    AggregateRiTooLow,
}

/// Outcome of checking members left to right: the first refusal (if any),
/// the saturating sum of scores so far, and the identity hashes seen.
pub open spec fn scan_members(
    members: Seq<AccountId>,
    identities: Map<AccountId, u64>,
    scores: Map<AccountId, u32>,
) -> (Option<AggregateCreditError>, u32, Seq<u64>)
    decreases members.len(),
{
    if members.len() == 0 {
        (None, 0, Seq::empty())
    } else {
        let (e, agg, seen) = scan_members(members.drop_last(), identities, scores);
        let m = members.last();
        if e is Some {
            (e, agg, seen)
        } else if !identities.contains_key(m) {
            (Some(AggregateCreditError::MemberNotVerified), agg, seen)
        } else if seen.contains(identities[m]) {
            (Some(AggregateCreditError::DuplicateIdentity), agg, seen)
        } else {
            let ri = if scores.contains_key(m) { scores[m] } else { 0 };
            if ri < MIN_MEMBER_RI {
                (Some(AggregateCreditError::MemberRiTooLow), agg, seen.push(identities[m]))
            } else {
                let sum = if agg + ri > u32::MAX { u32::MAX } else { (agg + ri) as u32 };
                (None, sum, seen.push(identities[m]))
            }
        }
    }
}

proof fn lemma_scan_error_persists(
    members: Seq<AccountId>,
    identities: Map<AccountId, u64>,
    scores: Map<AccountId, u32>,
    i: int,
)
    requires
        0 <= i <= members.len(),
        scan_members(members.subrange(0, i), identities, scores).0 is Some,
    ensures
        scan_members(members, identities, scores).0 == scan_members(members.subrange(0, i), identities, scores).0,
    decreases members.len() - i,
{
    if i == members.len() {
        assert(members.subrange(0, i) =~= members);
    } else {
        assert(members.drop_last().subrange(0, i) =~= members.subrange(0, i));
        lemma_scan_error_persists(members.drop_last(), identities, scores, i);
    }
}

/// Scores after every listed member loses the default penalty (floored at
/// zero; an unknown member's score becomes zero).
pub open spec fn penalized(scores: Map<AccountId, u32>, members: Seq<AccountId>) -> Map<AccountId, u32>
    decreases members.len(),
{
    if members.len() == 0 {
        scores
    } else {
        let s = penalized(scores, members.drop_last());
        let m = members.last();
        let cur = if s.contains_key(m) { s[m] } else { 0 };
        s.insert(m, if cur > GROUP_DEFAULT_RI_PENALTY { (cur - GROUP_DEFAULT_RI_PENALTY) as u32 } else { 0 })
    }
}

/// Aggregate-credit storage.
pub struct AggregateCredit {
    pub group_loans: BTreeMap<u64, CollectiveLoan>,
    pub identity_hashes: BTreeMap<AccountId, u64>,
    pub vault_locked: BTreeMap<u64, bool>,
    pub member_ri: BTreeMap<AccountId, u32>,
}

impl AggregateCredit {
    /// Stored score of a member (zero when unknown).
    pub open spec fn ri_of(&self, member: AccountId) -> u32 {
        if self.member_ri@.contains_key(member) { self.member_ri@[member] } else { 0 }
    }

    /// Whether the group's loan exists and is active.
    pub open spec fn has_active_loan(&self, group_id: u64) -> bool {
        self.group_loans@.contains_key(group_id) && self.group_loans@[group_id].status == CollectiveLoanStatus::Active
    }

    /// Every loan is stored under its own group id.
    pub open spec fn wf(&self) -> bool {
        forall|g: u64| #[trigger] self.group_loans@.contains_key(g) ==> self.group_loans@[g].group_id == g
    }

    /// Empty storage.
    pub fn new() -> (r: Self)
        ensures
            r.wf(),
            r.group_loans@ == Map::<u64, CollectiveLoan>::empty(),
            r.identity_hashes@ == Map::<AccountId, u64>::empty(),
            r.vault_locked@ == Map::<u64, bool>::empty(),
            r.member_ri@ == Map::<AccountId, u32>::empty(),
    {
        AggregateCredit {
            group_loans: BTreeMap::new(),
            identity_hashes: BTreeMap::new(),
            vault_locked: BTreeMap::new(),
            member_ri: BTreeMap::new(),
        }
    }

    /// Registers a member's identity hash once; a second registration of
    /// the same member ([`AggregateCredit::is_identity_verified`]) aborts the
    /// call.
    pub fn register_identity(&mut self, member: AccountId, identity_hash: u64)
        requires
            !old(self).identity_hashes@.contains_key(member),
        ensures
            final(self).identity_hashes@ == old(self).identity_hashes@.insert(member, identity_hash),
            final(self).group_loans@ == old(self).group_loans@,
            final(self).vault_locked@ == old(self).vault_locked@,
            final(self).member_ri@ == old(self).member_ri@,
    {
        self.identity_hashes.insert(member, identity_hash);
    }

    /// Whether a member registered an identity.
    pub fn is_identity_verified(&self, member: AccountId) -> (r: bool)
        ensures
            r == self.identity_hashes@.contains_key(member),
    {
        self.identity_hashes.contains_key(&member)
    }

    /// Stores a member's reliability score.
    pub fn set_member_ri(&mut self, member: AccountId, ri_score: u32)
        ensures
            final(self).member_ri@ == old(self).member_ri@.insert(member, ri_score),
            final(self).group_loans@ == old(self).group_loans@,
            final(self).identity_hashes@ == old(self).identity_hashes@,
            final(self).vault_locked@ == old(self).vault_locked@,
    {
        self.member_ri.insert(member, ri_score);
    }

    /// A member's reliability score (zero when unknown).
    pub fn get_member_ri(&self, member: AccountId) -> (r: u32)
        ensures
            r == self.ri_of(member),
    {
        match self.member_ri.get(&member) {
            Some(v) => *v,
            None => 0,
        }
    }

    /// Why a collective loan to `members` is refused, if it is: too many
    /// members, a loan already active, an unverified member, a shared
    /// identity, a member or the group scoring too low (the first that
    /// applies, members taken in order).
    pub open spec fn loan_refusal(&self, group_id: u64, members: Seq<AccountId>) -> Option<AggregateCreditError> {
        let (e, agg, _) = scan_members(members, self.identity_hashes@, self.member_ri@);
        if members.len() > MAX_GROUP_MEMBERS {
            Some(AggregateCreditError::TooManyMembers)
        } else if self.has_active_loan(group_id) {
            Some(AggregateCreditError::LoanAlreadyActive)
        } else if e is Some {
            e
        } else if agg < MIN_AGGREGATE_RI {
            Some(AggregateCreditError::AggregateRiTooLow)
        } else {
            None
        }
    }

    /// Checks a collective loan request: its refusal, or the group's
    /// aggregate reliability score (the saturating sum of its members').
    pub fn collective_loan_check(&self, group_id: u64, members: &Vec<AccountId>) -> (r: Result<u32, AggregateCreditError>)
        ensures
            self.loan_refusal(group_id, members@) matches Some(e) ==> r == Err::<u32, AggregateCreditError>(e),
            self.loan_refusal(group_id, members@) is None ==> r == Ok::<u32, AggregateCreditError>(
                scan_members(members@, self.identity_hashes@, self.member_ri@).1),
            r matches Ok(a) ==> a == pooled_score(members@, self.member_ri@) && a >= MIN_AGGREGATE_RI,
            r == Err::<u32, AggregateCreditError>(AggregateCreditError::AggregateRiTooLow)
                ==> pooled_score(members@, self.member_ri@) < MIN_AGGREGATE_RI,
    {
        proof {
            if scan_members(members@, self.identity_hashes@, self.member_ri@).0 is None {
                law_aggregate_is_pooled_sum(members@, self.identity_hashes@, self.member_ri@);
            }
        }
        if members.len() > MAX_GROUP_MEMBERS as usize {
            return Err(AggregateCreditError::TooManyMembers);
        }
        match self.group_loans.get(&group_id) {
            Some(existing) => {
                if existing.status == CollectiveLoanStatus::Active {
                    return Err(AggregateCreditError::LoanAlreadyActive);
                }
            },
            None => {},
        }
        let mut aggregate_ri: u32 = 0;
        let mut seen_hashes: Vec<u64> = Vec::new();
        let mut i: usize = 0;
        while i < members.len()
            invariant
                i <= members@.len(),
                scan_members(members@.subrange(0, i as int), self.identity_hashes@, self.member_ri@)
                    == (None::<AggregateCreditError>, aggregate_ri, seen_hashes@),
                members@.len() <= MAX_GROUP_MEMBERS,
                !self.has_active_loan(group_id),
            decreases members@.len() - i,
        {
            let member = members[i];
            proof {
                assert(members@.subrange(0, i + 1).drop_last() =~= members@.subrange(0, i as int));
            }
            let id_hash = match self.identity_hashes.get(&member) {
                Some(h) => *h,
                None => {
                    proof { lemma_scan_error_persists(members@, self.identity_hashes@, self.member_ri@, i + 1); }
                    return Err(AggregateCreditError::MemberNotVerified);
                },
            };
            let mut j: usize = 0;
            while j < seen_hashes.len()
                invariant
                    j <= seen_hashes@.len(),
                    !seen_hashes@.subrange(0, j as int).contains(id_hash),
                    i < members@.len(),
                    member == members@[i as int],
                    self.identity_hashes@.contains_key(member),
                    self.identity_hashes@[member] == id_hash,
                    members@.subrange(0, i + 1).drop_last() =~= members@.subrange(0, i as int),
                    scan_members(members@.subrange(0, i as int), self.identity_hashes@, self.member_ri@)
                        == (None::<AggregateCreditError>, aggregate_ri, seen_hashes@),
                    members@.len() <= MAX_GROUP_MEMBERS,
                    !self.has_active_loan(group_id),
                decreases seen_hashes@.len() - j,
            {
                if seen_hashes[j] == id_hash {
                    proof {
                        assert(seen_hashes@.contains(id_hash));
                        lemma_scan_error_persists(members@, self.identity_hashes@, self.member_ri@, i + 1);
                    }
                    return Err(AggregateCreditError::DuplicateIdentity);
                }
                proof {
                    assert(seen_hashes@.subrange(0, j + 1) =~= seen_hashes@.subrange(0, j as int).push(seen_hashes@[j as int]));
                    vstd::seq_lib::lemma_seq_contains_after_push(seen_hashes@.subrange(0, j as int), seen_hashes@[j as int], id_hash);
                }
                j = j + 1;
            }
            assert(seen_hashes@.subrange(0, seen_hashes@.len() as int) =~= seen_hashes@);
            seen_hashes.push(id_hash);
            let ri = self.get_member_ri(member);
            if ri < MIN_MEMBER_RI {
                proof { lemma_scan_error_persists(members@, self.identity_hashes@, self.member_ri@, i + 1); }
                return Err(AggregateCreditError::MemberRiTooLow);
            }
            aggregate_ri = aggregate_ri.saturating_add(ri);
            i = i + 1;
        }
        assert(members@.subrange(0, members@.len() as int) =~= members@);
        if aggregate_ri < MIN_AGGREGATE_RI {
            return Err(AggregateCreditError::AggregateRiTooLow);
        }
        Ok(aggregate_ri)
    }

    /// Grants a collective loan of `principal` to a group of at most 50
    /// verified members with distinct identities, each scoring at least 400
    /// and together at least 10000; locks the group's vault. A request that
    /// [`AggregateCredit::collective_loan_check`] refuses aborts the call.
    pub fn request_collective_loan(&mut self, group_id: u64, members: Vec<AccountId>, principal: i128, now: u64)
        -> (r: CollectiveLoan)
        requires
            old(self).wf(),
            old(self).loan_refusal(group_id, members@) is None,
        ensures
            final(self).wf(),
            ({
                let agg = scan_members(members@, old(self).identity_hashes@, old(self).member_ri@).1;
                let loan = LoanView {
                    group_id, members: members@, aggregate_ri: agg, principal, amount_repaid: 0,
                    status: CollectiveLoanStatus::Active, initiated_at: now,
                };
                &&& r@ == loan
                &&& r.aggregate_ri == pooled_score(members@, old(self).member_ri@)
                &&& final(self).group_loans@.contains_key(group_id)
                &&& final(self).group_loans@[group_id]@ == loan
                &&& final(self).group_loans@ == old(self).group_loans@.insert(group_id, final(self).group_loans@[group_id])
                &&& final(self).vault_locked@ == old(self).vault_locked@.insert(group_id, true)
                &&& final(self).member_ri@ == old(self).member_ri@
                &&& final(self).identity_hashes@ == old(self).identity_hashes@
            }),
    {
        let aggregate_ri: u32 = match self.collective_loan_check(group_id, &members) {
            Ok(a) => a,
            Err(_) => 0,
        };
        self.vault_locked.insert(group_id, true);
        let stored_members = members.clone();
        assert(stored_members@ =~= members@);
        let loan = CollectiveLoan {
            group_id,
            members: stored_members,
            aggregate_ri,
            principal,
            amount_repaid: 0,
            status: CollectiveLoanStatus::Active,
            initiated_at: now,
        };
        self.group_loans.insert(group_id, loan);
        CollectiveLoan {
            group_id,
            members,
            aggregate_ri,
            principal,
            amount_repaid: 0,
            status: CollectiveLoanStatus::Active,
            initiated_at: now,
        }
    }

    /// Records a repayment against the group's active loan; when the
    /// (saturating) total repaid reaches the principal, the loan is repaid
    /// and the vault unlocked. A group without an active loan aborts the call.
    pub fn repay_collective_loan(&mut self, group_id: u64, amount: i128) -> (r: CollectiveLoan)
        requires
            old(self).wf(),
            old(self).has_active_loan(group_id),
        ensures
            final(self).wf(),
            ({
                let l = old(self).group_loans@[group_id]@;
                let repaid = sat_add_i128(l.amount_repaid as int, amount as int);
                let done = repaid >= l.principal;
                let nl = LoanView {
                    amount_repaid: repaid,
                    status: if done { CollectiveLoanStatus::Repaid } else { CollectiveLoanStatus::Active },
                    ..l
                };
                &&& r@ == nl
                &&& final(self).group_loans@.contains_key(group_id)
                &&& final(self).group_loans@[group_id]@ == nl
                &&& final(self).group_loans@ == old(self).group_loans@.insert(group_id, final(self).group_loans@[group_id])
                &&& final(self).vault_locked@ == if done { old(self).vault_locked@.insert(group_id, false) } else {
                    old(self).vault_locked@ }
            }),
            final(self).member_ri@ == old(self).member_ri@,
            final(self).identity_hashes@ == old(self).identity_hashes@,
    {
        let mut loan = self.group_loans.remove(&group_id).unwrap();
        loan.amount_repaid = saturating_add_i128(loan.amount_repaid, amount);
        if loan.amount_repaid >= loan.principal {
            loan.status = CollectiveLoanStatus::Repaid;
            self.vault_locked.insert(group_id, false);
        }
        let copy = CollectiveLoan {
            group_id: loan.group_id,
            members: loan.members.clone(),
            aggregate_ri: loan.aggregate_ri,
            principal: loan.principal,
            amount_repaid: loan.amount_repaid,
            status: loan.status,
            initiated_at: loan.initiated_at,
        };
        assert(copy.members@ =~= loan.members@);
        self.group_loans.insert(group_id, loan);
        copy
    }

    /// Marks the group's active loan defaulted and takes 200 points off every
    /// member's reliability score (floored at zero). A group without an active
    /// loan aborts the call.
    pub fn trigger_group_default(&mut self, group_id: u64) -> (r: CollectiveLoan)
        requires
            old(self).wf(),
            old(self).has_active_loan(group_id),
        ensures
            final(self).wf(),
            ({
                let l = old(self).group_loans@[group_id]@;
                let nl = LoanView { status: CollectiveLoanStatus::Defaulted, ..l };
                &&& r@ == nl
                &&& final(self).group_loans@.contains_key(group_id)
                &&& final(self).group_loans@[group_id]@ == nl
                &&& final(self).group_loans@ == old(self).group_loans@.insert(group_id, final(self).group_loans@[group_id])
                &&& final(self).member_ri@ == penalized(old(self).member_ri@, l.members)
            }),
            final(self).vault_locked@ == old(self).vault_locked@,
            final(self).identity_hashes@ == old(self).identity_hashes@,
    {
        let mut loan = self.group_loans.remove(&group_id).unwrap();
        loan.status = CollectiveLoanStatus::Defaulted;
        let ghost start = self.member_ri@;
        let mut i: usize = 0;
        while i < loan.members.len()
            invariant
                i <= loan.members@.len(),
                self.member_ri@ == penalized(start, loan.members@.subrange(0, i as int)),
                self.group_loans@ == old(self).group_loans@.remove(group_id),
                self.vault_locked@ == old(self).vault_locked@,
                self.identity_hashes@ == old(self).identity_hashes@,
            decreases loan.members@.len() - i,
        {
            let member = loan.members[i];
            proof {
                assert(loan.members@.subrange(0, i + 1).drop_last() =~= loan.members@.subrange(0, i as int));
            }
            let current_ri = self.get_member_ri(member);
            let penalised = current_ri.saturating_sub(GROUP_DEFAULT_RI_PENALTY);
            self.member_ri.insert(member, penalised);
            i = i + 1;
        }
        assert(loan.members@.subrange(0, loan.members@.len() as int) =~= loan.members@);
        let copy = CollectiveLoan {
            group_id: loan.group_id,
            members: loan.members.clone(),
            aggregate_ri: loan.aggregate_ri,
            principal: loan.principal,
            amount_repaid: loan.amount_repaid,
            status: loan.status,
            initiated_at: loan.initiated_at,
        };
        assert(copy.members@ =~= loan.members@);
        self.group_loans.insert(group_id, loan);
        copy
    }

    /// The group's loan, if any.
    pub fn get_loan(&self, group_id: u64) -> (r: Option<&CollectiveLoan>)
        ensures
            match r {
                Some(l) => self.group_loans@.contains_key(group_id) && *l == self.group_loans@[group_id],
                None => !self.group_loans@.contains_key(group_id),
            },
    {
        self.group_loans.get(&group_id)
    }

    /// Whether the group's vault is locked (unlocked when never set).
    pub fn is_vault_locked(&self, group_id: u64) -> (r: bool)
        ensures
            r == (self.vault_locked@.contains_key(group_id) && self.vault_locked@[group_id]),
    {
        match self.vault_locked.get(&group_id) {
            Some(b) => *b,
            None => false,
        }
    }
}

/// An approved group always has a pooled score of at least the aggregate
/// minimum, and every member scores at least the individual minimum.
pub proof fn law_scan_success_means_every_member_qualifies(
    members: Seq<AccountId>,
    identities: Map<AccountId, u64>,
    scores: Map<AccountId, u32>,
    k: int,
)
    requires
        scan_members(members, identities, scores).0 is None,
        0 <= k < members.len(),
    ensures
        identities.contains_key(members[k]),
        scores.contains_key(members[k]) && scores[members[k]] >= MIN_MEMBER_RI,
    decreases members.len(),
{
    let (e, agg, seen) = scan_members(members.drop_last(), identities, scores);
    if k < members.len() - 1 {
        assert(members.drop_last()[k] == members[k]);
        law_scan_success_means_every_member_qualifies(members.drop_last(), identities, scores, k);
    }
}

/// The sum of the members' stored scores (an unknown member counts zero).
pub open spec fn score_total(members: Seq<AccountId>, scores: Map<AccountId, u32>) -> int
    decreases members.len(),
{
    if members.len() == 0 {
        0
    } else {
        score_total(members.drop_last(), scores) + if scores.contains_key(members.last()) { scores[members.last()] as int } else { 0 }
    }
}

/// The pooled score of a group: the sum of its members' scores, capped at
/// `u32::MAX`.
pub open spec fn pooled_score(members: Seq<AccountId>, scores: Map<AccountId, u32>) -> int {
    let t = score_total(members, scores);
    if t > u32::MAX { u32::MAX as int } else { t }
}

/// When every member passes the checks, the aggregate score the scan
/// computes is the group's pooled score: each member's stored score counts
/// in full, added up and capped at `u32::MAX`.
pub proof fn law_aggregate_is_pooled_sum(
    members: Seq<AccountId>,
    identities: Map<AccountId, u64>,
    scores: Map<AccountId, u32>,
)
    requires
        scan_members(members, identities, scores).0 is None,
    ensures
        scan_members(members, identities, scores).1 == pooled_score(members, scores),
    decreases members.len(),
{
    if members.len() > 0 {
        law_aggregate_is_pooled_sum(members.drop_last(), identities, scores);
    }
}

/// A default never raises anyone's score.
pub proof fn law_default_never_raises_scores(scores: Map<AccountId, u32>, members: Seq<AccountId>, who: AccountId)
    requires
        scores.contains_key(who),
    ensures
        penalized(scores, members).contains_key(who),
        penalized(scores, members)[who] <= scores[who],
    decreases members.len(),
{
    if members.len() > 0 {
        law_default_never_raises_scores(scores, members.drop_last(), who);
    }
}

} // verus!
