//! Social vouching: high-reputation members lock capital to vouch for new
//! members (slashed on default), and members vouch to reduce each other's
//! collateral requirement within a circle.
use vstd::prelude::*;
use std::collections::BTreeMap;
use crate::AccountId;
use crate::arith::tdiv;

verus! {

broadcast use {vstd::std_specs::btree::group_btree_axioms, vstd::laws_cmp::group_laws_cmp};

/// Minimum reliability score to vouch for a member.
pub const MIN_VOUCHER_RI_SCORE: u32 = 700;
/// Most vouches one member may hold active.
pub const MAX_ACTIVE_VOUCHES: u32 = 3;
/// Share of the locked capital slashed when the vouched member defaults (bps).
pub const VOUCHER_PENALTY_BPS: u32 = 2000;
/// Lifetime of a vouch: 30 days.
pub const VOUCH_EXPIRY_SECONDS: u64 = 2_592_000;
/// Largest collateral reduction one vouch may grant (bps).
pub const MAX_COLLATERAL_REDUCTION_BPS: u32 = 5000;
/// Minimum reputation to vouch for a collateral reduction.
pub const MIN_VOUCHER_REPUTATION_FOR_COLLATERAL: u32 = 800;
/// Lifetime of a collateral vouch: 90 days.
pub const COLLATERAL_VOUCH_EXPIRY_SECONDS: u64 = 7_776_000;
/// Most active collateral vouches per voucher.
pub const MAX_ACTIVE_COLLATERAL_VOUCHES: u32 = 5;
/// History entries kept per member.
pub const MAX_REDUCTION_HISTORY: usize = 100;

/// Storage keys of the vouching tables.
#[derive(Clone, Copy, Debug, PartialEq, Eq, Structural)]
pub enum VouchDataKey {
    VouchRecord(AccountId, AccountId),
    VoucherActiveCount(AccountId),
    VouchedMemberVoucher(AccountId),
    CollateralVouch(u64, AccountId, AccountId),
    CollateralReduction(u64, AccountId),
    VouchCollateralPool(u64),
    VouchReductionHistory(u64, AccountId),
}

/// Status of a capital vouch.
#[derive(Clone, Copy, Debug, PartialEq, Eq, Structural)]
pub enum VouchStatus {
    Active,
    Redeemed,
    Slashed,
    Expired,
}

/// One member vouching for another within a circle.
#[derive(Clone, Copy, Debug, PartialEq, Eq, Structural)]
pub struct VouchRecord {
    pub voucher: AccountId,
    pub vouched: AccountId,
    pub circle_id: u64,
    pub locked_amount: i128,
    pub created_at: u64,
    pub expires_at: u64,
    pub status: VouchStatus,
    pub slash_amount: i128,
}

/// Summary of a member's vouching activity.
#[derive(Clone, Copy, Debug, PartialEq, Eq, Structural)]
pub struct VoucherProfile {
    pub address: AccountId,
    pub active_vouches: u32,
    pub total_vouches_given: u32,
    pub total_slashes_received: u32,
    pub total_slashed_amount: i128,
}

/// A vouch that reduces another member's collateral requirement.
#[derive(Clone, Copy, Debug, PartialEq, Eq, Structural)]
pub struct CollateralVouchRecord {
    pub circle_id: u64,
    pub voucher: AccountId,
    pub vouched: AccountId,
    pub reduction_bps: u32,
    pub max_reduction_amount: i128,
    pub utilized_amount: i128,
    pub created_at: u64,
    pub expires_at: u64,
    pub status: CollateralVouchStatus,
    pub voucher_reputation: u32,
    pub risk_score: u32,
}

/// Status of a collateral vouch.
#[derive(Clone, Copy, Debug, PartialEq, Eq, Structural)]
pub enum CollateralVouchStatus {
    Active,
    Utilized,
    Exhausted,
    Expired,
    Slashed,
    Cancelled,
}

/// A member's collateral reduction within a circle.
#[derive(Clone, Debug)]
pub struct CollateralReductionRecord {
    pub circle_id: u64,
    pub member: AccountId,
    pub original_collateral_bps: u32,
    pub current_collateral_bps: u32,
    pub total_reduction_bps: u32,
    pub active_vouches: Vec<AccountId>,
    pub last_updated: u64,
    pub is_active: bool,
}

/// The value of a reduction record.
pub struct ReductionView {
    pub circle_id: u64,
    pub member: AccountId,
    pub original_collateral_bps: u32,
    pub current_collateral_bps: u32,
    pub total_reduction_bps: u32,
    pub active_vouches: Seq<AccountId>,
    pub last_updated: u64,
    pub is_active: bool,
}

impl View for CollateralReductionRecord {
    type V = ReductionView;

    open spec fn view(&self) -> ReductionView {
        ReductionView {
            circle_id: self.circle_id,
            member: self.member,
            original_collateral_bps: self.original_collateral_bps,
            current_collateral_bps: self.current_collateral_bps,
            total_reduction_bps: self.total_reduction_bps,
            active_vouches: self.active_vouches@,
            last_updated: self.last_updated,
            is_active: self.is_active,
        }
    }
}

/// A change in a member's collateral reduction.
#[derive(Clone, Copy, Debug, PartialEq, Eq)]
pub struct ReductionEvent {
    pub timestamp: u64,
    pub event_type: ReductionEventType,
    pub voucher: Option<AccountId>,
    pub reduction_change: i32,
    pub reason: &'static str,
}

/// Kind of reduction change.
#[derive(Clone, Copy, Debug, PartialEq, Eq, Structural)]
pub enum ReductionEventType {
    VouchAdded,
    VouchRemoved,
    VouchSlashed,
    MemberDefault,
    ManualAdjust,
}

/// Why a vouching operation is refused.
#[derive(Clone, Copy, Debug, PartialEq, Eq, Structural)]
pub enum VouchError {
    RiScoreTooLow,
    LockedAmountNotPositive,
    SelfVouch,
    MaxActiveVouches,
    VouchNotFound,
    VouchNotActive,
    InsufficientReputation,
    InvalidReductionAmount,
    TooManyActiveVouches,
    VouchAlreadyExists,
    CircleNotFound,
    ExceedsMaximum,
    ReductionRecordNotFound,
    NotVoucher,
    VouchInUse,
}

/// Risk of a collateral vouch: inverted reputation and scaled reduction,
/// averaged (capped at 1000).
pub open spec fn spec_risk_score(reputation: u32, reduction_bps: u32) -> u32 {
    let base = ((1000 - reputation) / 10 + reduction_bps / 50) / 2;
    if base < 1000 { base as u32 } else { 1000 }
}

/// Computes the risk score of a collateral vouch.
pub fn calculate_risk_score(reputation: u32, reduction_bps: u32) -> (r: u32)
    requires
        reputation <= 1000,
    ensures
        r == spec_risk_score(reputation, reduction_bps),
{
    let reputation_factor = (1000 - reputation) / 10;
    let reduction_factor = reduction_bps / 50;
    let base_risk = (reputation_factor + reduction_factor) / 2;
    if base_risk < 1000 { base_risk } else { 1000 }
}

/// The count of active vouches after one is released: a missing count
/// reads as one, and zero stays zero.
pub open spec fn released_count(counts: Map<AccountId, u32>, voucher: AccountId) -> Map<AccountId, u32> {
    let c = if counts.contains_key(voucher) { counts[voucher] } else { 1 };
    if c > 0 { counts.insert(voucher, (c - 1) as u32) } else { counts }
}

/// The first occurrence of `v` removed from `s` (unchanged if absent).
pub open spec fn remove_first(s: Seq<AccountId>, v: AccountId) -> Seq<AccountId> {
    match s.index_of_first(v) {
        Some(i) => s.subrange(0, i) + s.subrange(i + 1, s.len() as int),
        None => s,
    }
}

/// A reduction record after adding or removing `voucher`'s `bps`.
pub open spec fn adjusted(r: ReductionView, voucher: AccountId, bps: u32, is_adding: bool, now: u64) -> ReductionView {
    let total: int = if is_adding { r.total_reduction_bps + bps } else if r.total_reduction_bps > bps {
        r.total_reduction_bps - bps
    } else {
        0
    };
    let current: int = if r.original_collateral_bps > total { r.original_collateral_bps - total } else { 0 };
    ReductionView {
        total_reduction_bps: total as u32,
        current_collateral_bps: current as u32,
        active_vouches: if is_adding {
            if r.active_vouches.contains(voucher) { r.active_vouches } else { r.active_vouches.push(voucher) }
        } else {
            remove_first(r.active_vouches, voucher)
        },
        is_active: total > 0,
        last_updated: now,
        ..r
    }
}

/// A fresh reduction record for `member` of a circle requiring `bps`.
pub open spec fn fresh_reduction(circle_id: u64, member: AccountId, bps: u32, now: u64) -> ReductionView {
    ReductionView {
        circle_id,
        member,
        original_collateral_bps: bps,
        current_collateral_bps: bps,
        total_reduction_bps: 0,
        active_vouches: Seq::empty(),
        last_updated: now,
        is_active: false,
    }
}

/// History after appending `e`, keeping the newest hundred entries.
pub open spec fn appended_history(h: Seq<ReductionEvent>, e: ReductionEvent) -> Seq<ReductionEvent> {
    let n = h.push(e);
    if n.len() > 100 { n.subrange(1, n.len() as int) } else { n }
}

/// Vouching storage.
pub struct VouchStore {
    pub vouch_records: BTreeMap<(AccountId, AccountId), VouchRecord>,
    pub voucher_active_count: BTreeMap<AccountId, u32>,
    pub vouched_member_voucher: BTreeMap<AccountId, AccountId>,
    pub collateral_vouches: BTreeMap<(u64, AccountId, AccountId), CollateralVouchRecord>,
    pub collateral_reductions: BTreeMap<(u64, AccountId), CollateralReductionRecord>,
    pub reduction_history: BTreeMap<(u64, AccountId), Vec<ReductionEvent>>,
}

impl VouchStore {
    /// Active-vouch count of `voucher` (zero when none is stored).
    pub open spec fn active_count_of(&self, voucher: AccountId) -> u32 {
        if self.voucher_active_count@.contains_key(voucher) { self.voucher_active_count@[voucher] } else { 0 }
    }

    /// Reduction history of a member (empty when none is stored).
    pub open spec fn history_of(&self, key: (u64, AccountId)) -> Seq<ReductionEvent> {
        if self.reduction_history@.contains_key(key) { self.reduction_history@[key]@ } else { Seq::empty() }
    }

    /// Every collateral vouch grants at most 50%.
    pub open spec fn wf(&self) -> bool {
        forall|k: (u64, AccountId, AccountId)| #[trigger] self.collateral_vouches@.contains_key(k)
            ==> self.collateral_vouches@[k].reduction_bps <= MAX_COLLATERAL_REDUCTION_BPS
    }

    /// Empty storage.
    pub fn new() -> (r: Self)
        ensures
            r.wf(),
            r.vouch_records@ == Map::<(AccountId, AccountId), VouchRecord>::empty(),
            r.voucher_active_count@ == Map::<AccountId, u32>::empty(),
            r.vouched_member_voucher@ == Map::<AccountId, AccountId>::empty(),
            r.collateral_vouches@ == Map::<(u64, AccountId, AccountId), CollateralVouchRecord>::empty(),
            r.collateral_reductions@ == Map::<(u64, AccountId), CollateralReductionRecord>::empty(),
            r.reduction_history@ == Map::<(u64, AccountId), Vec<ReductionEvent>>::empty(),
    {
        VouchStore {
            vouch_records: BTreeMap::new(),
            voucher_active_count: BTreeMap::new(),
            vouched_member_voucher: BTreeMap::new(),
            collateral_vouches: BTreeMap::new(),
            collateral_reductions: BTreeMap::new(),
            reduction_history: BTreeMap::new(),
        }
    }

    fn active_count(&self, voucher: AccountId) -> (r: u32)
        ensures
            r == self.active_count_of(voucher),
    {
        match self.voucher_active_count.get(&voucher) {
            Some(c) => *c,
            None => 0,
        }
    }

    fn release_active(&mut self, voucher: AccountId)
        ensures
            final(self).voucher_active_count@ == released_count(old(self).voucher_active_count@, voucher),
            final(self).vouch_records@ == old(self).vouch_records@,
            final(self).vouched_member_voucher@ == old(self).vouched_member_voucher@,
            final(self).collateral_vouches@ == old(self).collateral_vouches@,
            final(self).collateral_reductions@ == old(self).collateral_reductions@,
            final(self).reduction_history@ == old(self).reduction_history@,
    {
        let count: u32 = match self.voucher_active_count.get(&voucher) {
            Some(c) => *c,
            None => 1,
        };
        if count > 0 {
            self.voucher_active_count.insert(voucher, count - 1);
        }
    }

    /// Why a capital vouch is refused, if it is: a reliability score under
    /// 700, a non-positive amount, a vouch for oneself, or three active
    /// vouches already (the first that applies).
    pub open spec fn vouch_refusal(&self, voucher: AccountId, vouched: AccountId, locked_amount: i128,
        voucher_ri_score: u32) -> Option<VouchError> {
        if voucher_ri_score < MIN_VOUCHER_RI_SCORE {
            Some(VouchError::RiScoreTooLow)
        } else if locked_amount <= 0 {
            Some(VouchError::LockedAmountNotPositive)
        } else if voucher == vouched {
            Some(VouchError::SelfVouch)
        } else if self.active_count_of(voucher) >= MAX_ACTIVE_VOUCHES {
            Some(VouchError::MaxActiveVouches)
        } else {
            None
        }
    }

    /// Checks a capital vouch: its refusal, if any.
    pub fn vouch_check(&self, voucher: AccountId, vouched: AccountId, locked_amount: i128, voucher_ri_score: u32)
        -> (r: Option<VouchError>)
        ensures
            r == self.vouch_refusal(voucher, vouched, locked_amount, voucher_ri_score),
    {
        if voucher_ri_score < MIN_VOUCHER_RI_SCORE {
            Some(VouchError::RiScoreTooLow)
        } else if locked_amount <= 0 {
            Some(VouchError::LockedAmountNotPositive)
        } else if voucher == vouched {
            Some(VouchError::SelfVouch)
        } else if self.active_count(voucher) >= MAX_ACTIVE_VOUCHES {
            Some(VouchError::MaxActiveVouches)
        } else {
            None
        }
    }

    /// Locks `locked_amount` of `voucher`'s capital behind `vouched` for 30
    /// days. Requires a reliability score of at least 700, a positive amount,
    /// two distinct members, and fewer than three active vouches; any other
    /// vouch ([`VouchStore::vouch_check`]) aborts the call.
    pub fn vouch_for_user(
        &mut self,
        voucher: AccountId,
        vouched: AccountId,
        circle_id: u64,
        locked_amount: i128,
        voucher_ri_score: u32,
        now: u64,
    ) -> (r: VouchRecord)
        requires
            old(self).wf(),
            old(self).vouch_refusal(voucher, vouched, locked_amount, voucher_ri_score) is None,
            now + VOUCH_EXPIRY_SECONDS <= u64::MAX,
        ensures
            final(self).wf(),
            ({
                let rec = VouchRecord {
                    voucher, vouched, circle_id, locked_amount, created_at: now,
                    expires_at: (now + VOUCH_EXPIRY_SECONDS) as u64, status: VouchStatus::Active, slash_amount: 0,
                };
                &&& r == rec
                &&& final(self).vouch_records@ == old(self).vouch_records@.insert((voucher, vouched), rec)
                &&& final(self).voucher_active_count@ == old(self).voucher_active_count@.insert(voucher,
                    (old(self).active_count_of(voucher) + 1) as u32)
                &&& final(self).vouched_member_voucher@ == old(self).vouched_member_voucher@.insert(vouched, voucher)
                &&& final(self).collateral_vouches@ == old(self).collateral_vouches@
                &&& final(self).collateral_reductions@ == old(self).collateral_reductions@
                &&& final(self).reduction_history@ == old(self).reduction_history@
            }),
    {
        let active_count = self.active_count(voucher);
        let record = VouchRecord {
            voucher,
            vouched,
            circle_id,
            locked_amount,
            created_at: now,
            expires_at: now + VOUCH_EXPIRY_SECONDS,
            status: VouchStatus::Active,
            slash_amount: 0,
        };
        self.vouch_records.insert((voucher, vouched), record);
        self.voucher_active_count.insert(voucher, active_count + 1);
        self.vouched_member_voucher.insert(vouched, voucher);
        record
    }

    /// Slashes 20% of the locked capital of an active vouch after the vouched
    /// member defaulted, and releases one of the voucher's active vouches. A
    /// vouch that does not exist or is not active aborts the call.
    pub fn slash_voucher(&mut self, voucher: AccountId, vouched: AccountId) -> (r: VouchRecord)
        requires
            old(self).wf(),
            old(self).vouch_records@.contains_key((voucher, vouched)),
            old(self).vouch_records@[(voucher, vouched)].status == VouchStatus::Active,
            i128::MIN <= old(self).vouch_records@[(voucher, vouched)].locked_amount * 2000 <= i128::MAX,
        ensures
            final(self).wf(),
            ({
                let v = old(self).vouch_records@[(voucher, vouched)];
                let rec = VouchRecord { slash_amount: tdiv(v.locked_amount * 2000, 10_000) as i128, status: VouchStatus::Slashed, ..v };
                &&& r == rec
                &&& final(self).vouch_records@ == old(self).vouch_records@.insert((voucher, vouched), rec)
                &&& final(self).voucher_active_count@ == released_count(old(self).voucher_active_count@, voucher)
                &&& final(self).vouched_member_voucher@ == old(self).vouched_member_voucher@
                &&& final(self).collateral_vouches@ == old(self).collateral_vouches@
                &&& final(self).collateral_reductions@ == old(self).collateral_reductions@
                &&& final(self).reduction_history@ == old(self).reduction_history@
            }),
    {
        let mut record = *self.vouch_records.get(&(voucher, vouched)).unwrap();
        let slash = (record.locked_amount * VOUCHER_PENALTY_BPS as i128) / 10_000;
        record.slash_amount = slash;
        record.status = VouchStatus::Slashed;
        self.vouch_records.insert((voucher, vouched), record);
        self.release_active(voucher);
        record
    }

    /// The vouch between two members, if any.
    pub fn get_vouch_record(&self, voucher: AccountId, vouched: AccountId) -> (r: Option<VouchRecord>)
        ensures
            r == self.vouch_records@.get((voucher, vouched)),
    {
        match self.vouch_records.get(&(voucher, vouched)) {
            Some(v) => Some(*v),
            None => None,
        }
    }

    /// Number of active vouches held by `voucher`.
    pub fn get_active_vouch_count(&self, voucher: AccountId) -> (r: u32)
        ensures
            r == self.active_count_of(voucher),
    {
        self.active_count(voucher)
    }

    fn record_reduction_event(&mut self, circle_id: u64, member: AccountId, event: ReductionEvent)
        ensures
            final(self).reduction_history@.contains_key((circle_id, member)),
            final(self).reduction_history@[(circle_id, member)]@
                == appended_history(old(self).history_of((circle_id, member)), event),
            final(self).reduction_history@ == old(self).reduction_history@.insert((circle_id, member),
                final(self).reduction_history@[(circle_id, member)]),
            final(self).vouch_records@ == old(self).vouch_records@,
            final(self).voucher_active_count@ == old(self).voucher_active_count@,
            final(self).vouched_member_voucher@ == old(self).vouched_member_voucher@,
            final(self).collateral_vouches@ == old(self).collateral_vouches@,
            final(self).collateral_reductions@ == old(self).collateral_reductions@,
    {
        let mut history = match self.reduction_history.remove(&(circle_id, member)) {
            Some(h) => h,
            None => Vec::new(),
        };
        history.push(event);
        if history.len() > MAX_REDUCTION_HISTORY {
            history.remove(0);
            assert(history@ =~= appended_history(old(self).history_of((circle_id, member)), event));
        }
        self.reduction_history.insert((circle_id, member), history);
    }

    fn update_member_collateral_reduction(
        &mut self,
        circle_id: u64,
        member: AccountId,
        voucher: AccountId,
        reduction_bps: u32,
        is_adding: bool,
        circle_collateral_bps: u32,
        now: u64,
    )
        requires
            old(self).wf(),
            is_adding && old(self).collateral_reductions@.contains_key((circle_id, member))
                ==> old(self).collateral_reductions@[(circle_id, member)].total_reduction_bps + reduction_bps <= u32::MAX,
        ensures
            final(self).wf(),
            ({
                let base = if old(self).collateral_reductions@.contains_key((circle_id, member)) {
                    old(self).collateral_reductions@[(circle_id, member)]@
                } else {
                    fresh_reduction(circle_id, member, circle_collateral_bps, now)
                };
                &&& final(self).collateral_reductions@.contains_key((circle_id, member))
                &&& final(self).collateral_reductions@[(circle_id, member)]@ == adjusted(base, voucher, reduction_bps, is_adding, now)
                &&& final(self).collateral_reductions@ == old(self).collateral_reductions@.insert((circle_id, member),
                    final(self).collateral_reductions@[(circle_id, member)])
            }),
            final(self).vouch_records@ == old(self).vouch_records@,
            final(self).voucher_active_count@ == old(self).voucher_active_count@,
            final(self).vouched_member_voucher@ == old(self).vouched_member_voucher@,
            final(self).collateral_vouches@ == old(self).collateral_vouches@,
            final(self).reduction_history@ == old(self).reduction_history@,
    {
        let mut record = match self.collateral_reductions.remove(&(circle_id, member)) {
            Some(r) => r,
            None => CollateralReductionRecord {
                circle_id,
                member,
                original_collateral_bps: circle_collateral_bps,
                current_collateral_bps: circle_collateral_bps,
                total_reduction_bps: 0,
                active_vouches: Vec::new(),
                last_updated: now,
                is_active: false,
            },
        };
        let ghost base = record@;
        if is_adding {
            record.total_reduction_bps = record.total_reduction_bps + reduction_bps;
            record.current_collateral_bps = record.original_collateral_bps.saturating_sub(record.total_reduction_bps);
            let mut found = false;
            let mut i: usize = 0;
            while i < record.active_vouches.len()
                invariant
                    i <= record.active_vouches@.len(),
                    record.active_vouches@ == base.active_vouches,
                    found == base.active_vouches.subrange(0, i as int).contains(voucher),
                decreases record.active_vouches@.len() - i,
            {
                if record.active_vouches[i] == voucher {
                    found = true;
                }
                proof {
                    assert(base.active_vouches.subrange(0, i + 1) =~= base.active_vouches.subrange(0, i as int).push(base.active_vouches[i as int]));
                    vstd::seq_lib::lemma_seq_contains_after_push(base.active_vouches.subrange(0, i as int), base.active_vouches[i as int], voucher);
                }
                i = i + 1;
            }
            assert(base.active_vouches.subrange(0, base.active_vouches.len() as int) =~= base.active_vouches);
            if !found {
                record.active_vouches.push(voucher);
            }
        } else {
            record.total_reduction_bps = record.total_reduction_bps.saturating_sub(reduction_bps);
            record.current_collateral_bps = record.original_collateral_bps.saturating_sub(record.total_reduction_bps);
            let mut idx: Option<usize> = None;
            let mut i: usize = 0;
            while i < record.active_vouches.len()
                invariant
                    i <= record.active_vouches@.len(),
                    record.active_vouches@ == base.active_vouches,
                    idx is None ==> !base.active_vouches.subrange(0, i as int).contains(voucher),
                    idx matches Some(j) ==> j < base.active_vouches.len() && base.active_vouches[j as int] == voucher
                        && !base.active_vouches.subrange(0, j as int).contains(voucher),
                decreases record.active_vouches@.len() - i,
            {
                if idx.is_none() && record.active_vouches[i] == voucher {
                    idx = Some(i);
                }
                proof {
                    assert(base.active_vouches.subrange(0, i + 1) =~= base.active_vouches.subrange(0, i as int).push(base.active_vouches[i as int]));
                    vstd::seq_lib::lemma_seq_contains_after_push(base.active_vouches.subrange(0, i as int), base.active_vouches[i as int], voucher);
                }
                i = i + 1;
            }
            assert(base.active_vouches.subrange(0, base.active_vouches.len() as int) =~= base.active_vouches);
            proof { base.active_vouches.index_of_first_ensures(voucher); }
            if let Some(j) = idx {
                proof {
                    assert(base.active_vouches.contains(voucher));
                    let k = base.active_vouches.index_of_first(voucher).unwrap();
                    assert(k == j) by {
                        if k < j {
                            assert(base.active_vouches.subrange(0, j as int)[k] == voucher);
                        }
                    }
                }
                record.active_vouches.remove(j);
                assert(record.active_vouches@ =~= remove_first(base.active_vouches, voucher));
            }
        }
        record.is_active = record.total_reduction_bps > 0;
        record.last_updated = now;
        self.collateral_reductions.insert((circle_id, member), record);
    }

    /// The reason a collateral vouch would be refused, checked in order.
    pub open spec fn collateral_vouch_refusal(
        &self,
        voucher: AccountId,
        vouched: AccountId,
        circle_id: u64,
        reduction_bps: u32,
        max_reduction_amount: i128,
        voucher_reputation: u32,
        circle_collateral_bps: Option<u32>,
    ) -> Option<VouchError> {
        if voucher_reputation < MIN_VOUCHER_REPUTATION_FOR_COLLATERAL {
            Some(VouchError::InsufficientReputation)
        } else if reduction_bps > MAX_COLLATERAL_REDUCTION_BPS || max_reduction_amount <= 0 {
            Some(VouchError::InvalidReductionAmount)
        } else if voucher == vouched {
            Some(VouchError::SelfVouch)
        } else if self.active_count_of(voucher) >= MAX_ACTIVE_COLLATERAL_VOUCHES {
            Some(VouchError::TooManyActiveVouches)
        } else if self.collateral_vouches@.contains_key((circle_id, voucher, vouched)) {
            Some(VouchError::VouchAlreadyExists)
        } else if !self.collateral_reductions@.contains_key((circle_id, vouched)) && circle_collateral_bps is None {
            Some(VouchError::CircleNotFound)
        } else {
            None
        }
    }

    /// Why a collateral vouch would be refused, if it would: the first of the
    /// checks of [`VouchStore::collateral_vouch_refusal`], in order.
    pub fn collateral_vouch_check(
        &self,
        voucher: AccountId,
        vouched: AccountId,
        circle_id: u64,
        reduction_bps: u32,
        max_reduction_amount: i128,
        voucher_reputation: u32,
        circle_collateral_bps: Option<u32>,
    ) -> (r: Option<VouchError>)
        ensures
            r == self.collateral_vouch_refusal(voucher, vouched, circle_id, reduction_bps, max_reduction_amount,
                voucher_reputation, circle_collateral_bps),
    {
        if voucher_reputation < MIN_VOUCHER_REPUTATION_FOR_COLLATERAL {
            Some(VouchError::InsufficientReputation)
        } else if reduction_bps > MAX_COLLATERAL_REDUCTION_BPS || max_reduction_amount <= 0 {
            Some(VouchError::InvalidReductionAmount)
        } else if voucher == vouched {
            Some(VouchError::SelfVouch)
        } else if self.active_count(voucher) >= MAX_ACTIVE_COLLATERAL_VOUCHES {
            Some(VouchError::TooManyActiveVouches)
        } else if self.collateral_vouches.contains_key(&(circle_id, voucher, vouched)) {
            Some(VouchError::VouchAlreadyExists)
        } else if !self.collateral_reductions.contains_key(&(circle_id, vouched)) && circle_collateral_bps.is_none() {
            Some(VouchError::CircleNotFound)
        } else {
            None
        }
    }

    /// Vouches for a reduction of `vouched`'s collateral requirement by
    /// `reduction_bps` (at most 50%) for 90 days. `circle_collateral_bps` is
    /// the circle's collateral requirement, `None` when the circle is unknown.
    ///
    /// A vouch that [`VouchStore::collateral_vouch_check`] refuses (reputation
    /// under 800, a reduction above 5000 bps or a non-positive maximum, a
    /// vouch for oneself, a voucher with five active vouches, a vouch that
    /// already exists, an unknown circle) aborts the call, as does a
    /// reputation above 1000, for which the risk score is undefined.
    pub fn create_collateral_vouch(
        &mut self,
        voucher: AccountId,
        vouched: AccountId,
        circle_id: u64,
        reduction_bps: u32,
        max_reduction_amount: i128,
        voucher_reputation: u32,
        circle_collateral_bps: Option<u32>,
        now: u64,
    ) -> (r: CollateralVouchRecord)
        requires
            old(self).wf(),
            old(self).collateral_vouch_refusal(voucher, vouched, circle_id, reduction_bps, max_reduction_amount,
                voucher_reputation, circle_collateral_bps) is None,
            voucher_reputation <= 1000,
            now + COLLATERAL_VOUCH_EXPIRY_SECONDS <= u64::MAX,
            old(self).collateral_reductions@.contains_key((circle_id, vouched))
                ==> old(self).collateral_reductions@[(circle_id, vouched)].total_reduction_bps + reduction_bps <= u32::MAX,
        ensures
            final(self).wf(),
            ({
                let rec = CollateralVouchRecord {
                    circle_id, voucher, vouched, reduction_bps, max_reduction_amount,
                    utilized_amount: 0, created_at: now,
                    expires_at: (now + COLLATERAL_VOUCH_EXPIRY_SECONDS) as u64,
                    status: CollateralVouchStatus::Active, voucher_reputation,
                    risk_score: spec_risk_score(voucher_reputation, reduction_bps),
                };
                let base = if old(self).collateral_reductions@.contains_key((circle_id, vouched)) {
                    old(self).collateral_reductions@[(circle_id, vouched)]@
                } else {
                    fresh_reduction(circle_id, vouched, circle_collateral_bps.unwrap(), now)
                };
                &&& r == rec
                &&& final(self).collateral_vouches@ == old(self).collateral_vouches@.insert((circle_id, voucher, vouched), rec)
                &&& final(self).voucher_active_count@ == old(self).voucher_active_count@.insert(voucher,
                    (old(self).active_count_of(voucher) + 1) as u32)
                &&& final(self).collateral_reductions@.contains_key((circle_id, vouched))
                &&& final(self).collateral_reductions@[(circle_id, vouched)]@
                    == adjusted(base, voucher, reduction_bps, true, now)
                &&& final(self).collateral_reductions@ == old(self).collateral_reductions@.insert((circle_id, vouched),
                    final(self).collateral_reductions@[(circle_id, vouched)])
                &&& final(self).history_of((circle_id, vouched)) == appended_history(
                    old(self).history_of((circle_id, vouched)), ReductionEvent {
                        timestamp: now, event_type: ReductionEventType::VouchAdded, voucher: Some(voucher),
                        reduction_change: reduction_bps as i32, reason: final(self).history_of((circle_id, vouched)).last().reason })
                &&& final(self).history_of((circle_id, vouched)).last().reason@ == "collateral_vouch"@
                &&& final(self).reduction_history@ == old(self).reduction_history@.insert((circle_id, vouched),
                    final(self).reduction_history@[(circle_id, vouched)])
                &&& final(self).vouch_records@ == old(self).vouch_records@
                &&& final(self).vouched_member_voucher@ == old(self).vouched_member_voucher@
            }),
    {
        let active_count = self.active_count(voucher);
        let circle_bps: u32 = match circle_collateral_bps {
            Some(b) => b,
            None => 0,
        };
        let risk_score = calculate_risk_score(voucher_reputation, reduction_bps);
        let vouch_record = CollateralVouchRecord {
            circle_id,
            voucher,
            vouched,
            reduction_bps,
            max_reduction_amount,
            utilized_amount: 0,
            created_at: now,
            expires_at: now + COLLATERAL_VOUCH_EXPIRY_SECONDS,
            status: CollateralVouchStatus::Active,
            voucher_reputation,
            risk_score,
        };
        self.collateral_vouches.insert((circle_id, voucher, vouched), vouch_record);
        self.voucher_active_count.insert(voucher, active_count + 1);
        self.update_member_collateral_reduction(circle_id, vouched, voucher, reduction_bps, true, circle_bps, now);
        proof { reveal_strlit("collateral_vouch"); }
        self.record_reduction_event(circle_id, vouched, ReductionEvent {
            timestamp: now,
            event_type: ReductionEventType::VouchAdded,
            voucher: Some(voucher),
            reduction_change: reduction_bps as i32,
            reason: "collateral_vouch",
        });
        vouch_record
    }

    /// Why drawing `utilization_amount` against the vouch of `voucher` for
    /// `vouched` is refused, if it is: no such vouch, a vouch not active, a
    /// total above the vouch's maximum, or no reduction record.
    pub open spec fn utilize_refusal(&self, vouched: AccountId, circle_id: u64, voucher: AccountId,
        utilization_amount: i128) -> Option<VouchError> {
        let key = (circle_id, voucher, vouched);
        let v = self.collateral_vouches@[key];
        if !self.collateral_vouches@.contains_key(key) {
            Some(VouchError::VouchNotFound)
        } else if v.status != CollateralVouchStatus::Active {
            Some(VouchError::VouchNotActive)
        } else if v.utilized_amount + utilization_amount > v.max_reduction_amount {
            Some(VouchError::ExceedsMaximum)
        } else if !self.collateral_reductions@.contains_key((circle_id, vouched)) {
            Some(VouchError::ReductionRecordNotFound)
        } else {
            None
        }
    }

    /// Checks a draw against a collateral vouch: its refusal, if any.
    pub fn utilize_check(&self, vouched: AccountId, circle_id: u64, voucher: AccountId, utilization_amount: i128)
        -> (r: Option<VouchError>)
        requires
            self.collateral_vouches@.contains_key((circle_id, voucher, vouched)) ==> {
                let u = self.collateral_vouches@[(circle_id, voucher, vouched)].utilized_amount;
                i128::MIN <= u + utilization_amount <= i128::MAX
            },
        ensures
            r == self.utilize_refusal(vouched, circle_id, voucher, utilization_amount),
    {
        match self.collateral_vouches.get(&(circle_id, voucher, vouched)) {
            None => Some(VouchError::VouchNotFound),
            Some(v) => {
                if v.status != CollateralVouchStatus::Active {
                    Some(VouchError::VouchNotActive)
                } else if v.utilized_amount + utilization_amount > v.max_reduction_amount {
                    Some(VouchError::ExceedsMaximum)
                } else if !self.collateral_reductions.contains_key(&(circle_id, vouched)) {
                    Some(VouchError::ReductionRecordNotFound)
                } else {
                    None
                }
            },
        }
    }

    /// Draws `utilization_amount` against an active collateral vouch; the
    /// vouch becomes utilized. Returns the member's current requirement. A
    /// draw that [`VouchStore::utilize_check`] refuses aborts the call.
    pub fn utilize_collateral_vouch(
        &mut self,
        vouched: AccountId,
        circle_id: u64,
        voucher: AccountId,
        utilization_amount: i128,
        now: u64,
    ) -> (r: u32)
        requires
            old(self).wf(),
            old(self).utilize_refusal(vouched, circle_id, voucher, utilization_amount) is None,
            i128::MIN <= old(self).collateral_vouches@[(circle_id, voucher, vouched)].utilized_amount
                + utilization_amount <= i128::MAX,
        ensures
            final(self).wf(),
            ({
                let key = (circle_id, voucher, vouched);
                let v = old(self).collateral_vouches@[key];
                let rkey = (circle_id, vouched);
                &&& r == old(self).collateral_reductions@[rkey].current_collateral_bps
                &&& final(self).collateral_vouches@ == old(self).collateral_vouches@.insert(key,
                    CollateralVouchRecord {
                        utilized_amount: (v.utilized_amount + utilization_amount) as i128,
                        status: CollateralVouchStatus::Utilized,
                        ..v
                    })
                &&& final(self).collateral_reductions@.contains_key(rkey)
                &&& final(self).collateral_reductions@[rkey]@ == ReductionView {
                    last_updated: now, ..old(self).collateral_reductions@[rkey]@ }
                &&& final(self).collateral_reductions@ == old(self).collateral_reductions@.insert(rkey,
                    final(self).collateral_reductions@[rkey])
                &&& final(self).voucher_active_count@ == old(self).voucher_active_count@
                &&& final(self).reduction_history@ == old(self).reduction_history@
                &&& final(self).vouch_records@ == old(self).vouch_records@
                &&& final(self).vouched_member_voucher@ == old(self).vouched_member_voucher@
            }),
    {
        let key = (circle_id, voucher, vouched);
        let mut vouch_record = *self.collateral_vouches.get(&key).unwrap();
        vouch_record.utilized_amount = vouch_record.utilized_amount + utilization_amount;
        vouch_record.status = CollateralVouchStatus::Utilized;
        self.collateral_vouches.insert(key, vouch_record);
        let mut reduction_record = self.collateral_reductions.remove(&(circle_id, vouched)).unwrap();
        reduction_record.last_updated = now;
        let current = reduction_record.current_collateral_bps;
        self.collateral_reductions.insert((circle_id, vouched), reduction_record);
        current
    }

    /// Why the cancellation of the vouch of `voucher` for `vouched` is
    /// refused, if it is: no such vouch, a caller who is not its voucher, a
    /// vouch being drawn on, or an unknown circle.
    pub open spec fn cancel_refusal(&self, voucher: AccountId, vouched: AccountId, circle_id: u64,
        circle_collateral_bps: Option<u32>) -> Option<VouchError> {
        let key = (circle_id, voucher, vouched);
        let v = self.collateral_vouches@[key];
        if !self.collateral_vouches@.contains_key(key) {
            Some(VouchError::VouchNotFound)
        } else if v.voucher != voucher {
            Some(VouchError::NotVoucher)
        } else if v.status == CollateralVouchStatus::Utilized && v.utilized_amount > 0 {
            Some(VouchError::VouchInUse)
        } else if !self.collateral_reductions@.contains_key((circle_id, vouched)) && circle_collateral_bps is None {
            Some(VouchError::CircleNotFound)
        } else {
            None
        }
    }

    /// Checks a cancellation: its refusal, if any.
    pub fn cancel_check(&self, voucher: AccountId, vouched: AccountId, circle_id: u64, circle_collateral_bps: Option<u32>)
        -> (r: Option<VouchError>)
        ensures
            r == self.cancel_refusal(voucher, vouched, circle_id, circle_collateral_bps),
    {
        match self.collateral_vouches.get(&(circle_id, voucher, vouched)) {
            None => Some(VouchError::VouchNotFound),
            Some(v) => {
                if v.voucher != voucher {
                    Some(VouchError::NotVoucher)
                } else if v.status == CollateralVouchStatus::Utilized && v.utilized_amount > 0 {
                    Some(VouchError::VouchInUse)
                } else if !self.collateral_reductions.contains_key(&(circle_id, vouched)) && circle_collateral_bps.is_none() {
                    Some(VouchError::CircleNotFound)
                } else {
                    None
                }
            },
        }
    }

    /// The voucher withdraws a collateral vouch that is not being drawn on;
    /// the member's reduction shrinks accordingly. A cancellation that
    /// [`VouchStore::cancel_check`] refuses aborts the call.
    pub fn cancel_collateral_vouch(
        &mut self,
        voucher: AccountId,
        vouched: AccountId,
        circle_id: u64,
        circle_collateral_bps: Option<u32>,
        now: u64,
    )
        requires
            old(self).wf(),
            old(self).cancel_refusal(voucher, vouched, circle_id, circle_collateral_bps) is None,
        ensures
            final(self).wf(),
            ({
                let key = (circle_id, voucher, vouched);
                let v = old(self).collateral_vouches@[key];
                let rkey = (circle_id, vouched);
                let base = if old(self).collateral_reductions@.contains_key(rkey) {
                    old(self).collateral_reductions@[rkey]@
                } else {
                    fresh_reduction(circle_id, vouched, circle_collateral_bps.unwrap(), now)
                };
                &&& final(self).collateral_vouches@ == old(self).collateral_vouches@.insert(key,
                    CollateralVouchRecord { status: CollateralVouchStatus::Cancelled, ..v })
                &&& final(self).voucher_active_count@ == released_count(old(self).voucher_active_count@, voucher)
                &&& final(self).collateral_reductions@.contains_key(rkey)
                &&& final(self).collateral_reductions@[rkey]@ == adjusted(base, voucher, v.reduction_bps, false, now)
                &&& final(self).collateral_reductions@ == old(self).collateral_reductions@.insert(rkey,
                    final(self).collateral_reductions@[rkey])
                &&& final(self).history_of(rkey).last().event_type == ReductionEventType::VouchRemoved
                &&& final(self).history_of(rkey).last().reduction_change == -(v.reduction_bps as int)
                &&& final(self).history_of(rkey) == appended_history(old(self).history_of(rkey),
                    final(self).history_of(rkey).last())
                &&& final(self).reduction_history@ == old(self).reduction_history@.insert(rkey,
                    final(self).reduction_history@[rkey])
                &&& final(self).vouch_records@ == old(self).vouch_records@
                &&& final(self).vouched_member_voucher@ == old(self).vouched_member_voucher@
            }),
    {
        let key = (circle_id, voucher, vouched);
        let mut vouch_record = *self.collateral_vouches.get(&key).unwrap();
        let circle_bps: u32 = match circle_collateral_bps {
            Some(b) => b,
            None => 0,
        };
        vouch_record.status = CollateralVouchStatus::Cancelled;
        self.collateral_vouches.insert(key, vouch_record);
        self.release_active(voucher);
        self.update_member_collateral_reduction(circle_id, vouched, voucher, vouch_record.reduction_bps, false, circle_bps, now);
        proof { reveal_strlit("vouch_cancelled"); }
        self.record_reduction_event(circle_id, vouched, ReductionEvent {
            timestamp: now,
            event_type: ReductionEventType::VouchRemoved,
            voucher: Some(voucher),
            reduction_change: -(vouch_record.reduction_bps as i32),
            reason: "vouch_cancelled",
        });
    }

    /// Collateral vouches and active counts after every voucher in `list`
    /// has had its vouch for `member` slashed (in list order).
    pub open spec fn slashed_all(
        vouches: Map<(u64, AccountId, AccountId), CollateralVouchRecord>,
        counts: Map<AccountId, u32>,
        circle_id: u64,
        member: AccountId,
        list: Seq<AccountId>,
    ) -> (Map<(u64, AccountId, AccountId), CollateralVouchRecord>, Map<AccountId, u32>)
        decreases list.len(),
    {
        if list.len() == 0 {
            (vouches, counts)
        } else {
            let (v0, c0) = Self::slashed_all(vouches, counts, circle_id, member, list.drop_last());
            let k = (circle_id, list.last(), member);
            if v0.contains_key(k) {
                (v0.insert(k, CollateralVouchRecord { status: CollateralVouchStatus::Slashed, ..v0[k] }),
                    released_count(c0, list.last()))
            } else {
                (v0, c0)
            }
        }
    }

    fn cancel_all_member_reductions(&mut self, circle_id: u64, member: AccountId, now: u64)
        requires
            old(self).wf(),
            old(self).collateral_reductions@.contains_key((circle_id, member))
                ==> old(self).collateral_reductions@[(circle_id, member)].original_collateral_bps != 0x8000_0000u32,
        ensures
            final(self).wf(),
            !old(self).collateral_reductions@.contains_key((circle_id, member)) ==> *final(self) == *old(self),
            old(self).collateral_reductions@.contains_key((circle_id, member)) ==> {
                let rec = old(self).collateral_reductions@[(circle_id, member)]@;
                let (v, c) = Self::slashed_all(old(self).collateral_vouches@, old(self).voucher_active_count@,
                    circle_id, member, rec.active_vouches);
                &&& final(self).collateral_vouches@ == v
                &&& final(self).voucher_active_count@ == c
                &&& final(self).collateral_reductions@.contains_key((circle_id, member))
                &&& final(self).collateral_reductions@[(circle_id, member)]@ == ReductionView {
                    total_reduction_bps: 0,
                    current_collateral_bps: rec.original_collateral_bps,
                    active_vouches: Seq::empty(),
                    is_active: false,
                    last_updated: now,
                    ..rec
                }
                &&& final(self).collateral_reductions@ == old(self).collateral_reductions@.insert((circle_id, member),
                    final(self).collateral_reductions@[(circle_id, member)])
                &&& final(self).history_of((circle_id, member)).last().event_type == ReductionEventType::MemberDefault
                &&& final(self).history_of((circle_id, member)).last().reduction_change == -((rec.original_collateral_bps as i32) as int)
                &&& final(self).history_of((circle_id, member)) == appended_history(
                    old(self).history_of((circle_id, member)), final(self).history_of((circle_id, member)).last())
                &&& final(self).vouch_records@ == old(self).vouch_records@
            },
    {
        if !self.collateral_reductions.contains_key(&(circle_id, member)) {
            return;
        }
        let mut record = self.collateral_reductions.remove(&(circle_id, member)).unwrap();
        let ghost list = record.active_vouches@;
        let ghost v_start = self.collateral_vouches@;
        let ghost c_start = self.voucher_active_count@;
        let mut i: usize = 0;
        while i < record.active_vouches.len()
            invariant
                i <= list.len(),
                record.active_vouches@ == list,
                (self.collateral_vouches@, self.voucher_active_count@)
                    == Self::slashed_all(v_start, c_start, circle_id, member, list.subrange(0, i as int)),
                forall|k: (u64, AccountId, AccountId)| #[trigger] self.collateral_vouches@.contains_key(k)
                    ==> self.collateral_vouches@[k].reduction_bps <= MAX_COLLATERAL_REDUCTION_BPS,
                self.collateral_reductions@ == old(self).collateral_reductions@.remove((circle_id, member)),
                self.reduction_history@ == old(self).reduction_history@,
                self.vouch_records@ == old(self).vouch_records@,
                self.vouched_member_voucher@ == old(self).vouched_member_voucher@,
            decreases list.len() - i,
        {
            let voucher = record.active_vouches[i];
            let key = (circle_id, voucher, member);
            proof {
                assert(list.subrange(0, i + 1).drop_last() =~= list.subrange(0, i as int));
            }
            match self.collateral_vouches.get(&key) {
                Some(v) => {
                    let mut vr = *v;
                    vr.status = CollateralVouchStatus::Slashed;
                    self.collateral_vouches.insert(key, vr);
                    self.release_active(voucher);
                },
                None => {},
            }
            i = i + 1;
        }
        assert(list.subrange(0, list.len() as int) =~= list);
        record.total_reduction_bps = 0;
        record.current_collateral_bps = record.original_collateral_bps;
        record.active_vouches = Vec::new();
        record.is_active = false;
        record.last_updated = now;
        let original = record.original_collateral_bps;
        assert(original != 0x8000_0000u32);
        assert(original != 0x8000_0000u32 ==> (original as i32) != i32::MIN) by (bit_vector);
        self.collateral_reductions.insert((circle_id, member), record);
        proof { reveal_strlit("member_default"); }
        self.record_reduction_event(circle_id, member, ReductionEvent {
            timestamp: now,
            event_type: ReductionEventType::MemberDefault,
            voucher: None,
            reduction_change: -(original as i32),
            reason: "member_default",
        });
    }

    /// Slashes a collateral vouch after the vouched member defaulted: a share
    /// of the utilized amount depending on risk (50% up to risk 300, 30% up to
    /// 600, 15% above), and all of the member's reductions are cancelled.
    /// Returns the amount to slash; zero for a vouch no longer in force. A
    /// vouch that does not exist aborts the call.
    pub fn slash_collateral_vouch(&mut self, vouched: AccountId, circle_id: u64, voucher: AccountId, now: u64)
        -> (r: i128)
        requires
            old(self).wf(),
            old(self).collateral_vouches@.contains_key((circle_id, voucher, vouched)),
            ({
                let v = old(self).collateral_vouches@[(circle_id, voucher, vouched)];
                &&& i128::MIN <= v.utilized_amount * 5000 <= i128::MAX
                &&& (v.status == CollateralVouchStatus::Active || v.status == CollateralVouchStatus::Utilized)
                    && old(self).collateral_reductions@.contains_key((circle_id, vouched))
                    ==> old(self).collateral_reductions@[(circle_id, vouched)].original_collateral_bps != 0x8000_0000u32
            }),
        ensures
            final(self).wf(),
            ({
                let key = (circle_id, voucher, vouched);
                let v = old(self).collateral_vouches@[key];
                let pct: int = if v.risk_score <= 300 { 5000 } else if v.risk_score <= 600 { 3000 } else { 1500 };
                if v.status != CollateralVouchStatus::Active && v.status != CollateralVouchStatus::Utilized {
                    r == 0 && *final(self) == *old(self)
                } else {
                    &&& r == tdiv(v.utilized_amount * pct, 10000) as i128
                    &&& final(self).collateral_vouches@.contains_key(key)
                    &&& final(self).collateral_vouches@[key].status == CollateralVouchStatus::Slashed
                    &&& final(self).vouch_records@ == old(self).vouch_records@
                    &&& final(self).history_of((circle_id, vouched)).last().event_type == ReductionEventType::VouchSlashed
                    &&& final(self).history_of((circle_id, vouched)).last().reduction_change == -(v.reduction_bps as int)
                    &&& old(self).collateral_reductions@.contains_key((circle_id, vouched)) ==> {
                        &&& final(self).collateral_reductions@.contains_key((circle_id, vouched))
                        &&& final(self).collateral_reductions@[(circle_id, vouched)].total_reduction_bps == 0
                        &&& final(self).collateral_reductions@[(circle_id, vouched)].active_vouches@ == Seq::<AccountId>::empty()
                        &&& !final(self).collateral_reductions@[(circle_id, vouched)].is_active
                    }
                }
            }),
    {
        let key = (circle_id, voucher, vouched);
        let mut vouch_record = *self.collateral_vouches.get(&key).unwrap();
        if vouch_record.status != CollateralVouchStatus::Active && vouch_record.status != CollateralVouchStatus::Utilized {
            return 0;
        }
        let slash_percentage: i128 = if vouch_record.risk_score <= 300 {
            5000
        } else if vouch_record.risk_score <= 600 {
            3000
        } else {
            1500
        };
        let slash_amount = (vouch_record.utilized_amount * slash_percentage) / 10000;
        vouch_record.status = CollateralVouchStatus::Slashed;
        self.collateral_vouches.insert(key, vouch_record);
        self.release_active(voucher);
        let ghost mid = self.collateral_vouches@;
        let ghost mid_counts = self.voucher_active_count@;
        self.cancel_all_member_reductions(circle_id, vouched, now);
        proof {
            if old(self).collateral_reductions@.contains_key((circle_id, vouched)) {
                lemma_slashed_all_keeps_slashed(mid, mid_counts, circle_id, vouched,
                    old(self).collateral_reductions@[(circle_id, vouched)]@.active_vouches, key);
            }
        }
        proof { reveal_strlit("member_default"); }
        self.record_reduction_event(circle_id, vouched, ReductionEvent {
            timestamp: now,
            event_type: ReductionEventType::VouchSlashed,
            voucher: Some(voucher),
            reduction_change: -(vouch_record.reduction_bps as i32),
            reason: "member_default",
        });
        slash_amount
    }

    /// A member's collateral reduction in a circle, if any.
    pub fn get_collateral_reduction(&self, circle_id: u64, member: AccountId) -> (r: Option<&CollateralReductionRecord>)
        ensures
            match r {
                Some(rec) => self.collateral_reductions@.contains_key((circle_id, member))
                    && *rec == self.collateral_reductions@[(circle_id, member)],
                None => !self.collateral_reductions@.contains_key((circle_id, member)),
            },
    {
        self.collateral_reductions.get(&(circle_id, member))
    }

    /// Active collateral vouches of a voucher. There is no index by voucher,
    /// so the answer is always empty.
    pub fn get_active_collateral_vouches(&self, _circle_id: u64, _voucher: AccountId) -> (r: Vec<CollateralVouchRecord>)
        ensures
            r@ == Seq::<CollateralVouchRecord>::empty(),
    {
        Vec::new()
    }
}

proof fn lemma_slashed_all_keeps_slashed(
    vouches: Map<(u64, AccountId, AccountId), CollateralVouchRecord>,
    counts: Map<AccountId, u32>,
    circle_id: u64,
    member: AccountId,
    list: Seq<AccountId>,
    key: (u64, AccountId, AccountId),
)
    requires
        vouches.contains_key(key),
        vouches[key].status == CollateralVouchStatus::Slashed,
    ensures
        VouchStore::slashed_all(vouches, counts, circle_id, member, list).0.contains_key(key),
        VouchStore::slashed_all(vouches, counts, circle_id, member, list).0[key].status == CollateralVouchStatus::Slashed,
    decreases list.len(),
{
    if list.len() > 0 {
        lemma_slashed_all_keeps_slashed(vouches, counts, circle_id, member, list.drop_last(), key);
    }
}

/// A slashed vouch stays slashed whatever cancellation follows.
pub proof fn law_slashing_is_final(
    vouches: Map<(u64, AccountId, AccountId), CollateralVouchRecord>,
    counts: Map<AccountId, u32>,
    circle_id: u64,
    member: AccountId,
    list: Seq<AccountId>,
    key: (u64, AccountId, AccountId),
)
    requires
        vouches.contains_key(key),
        vouches[key].status == CollateralVouchStatus::Slashed,
    ensures
        VouchStore::slashed_all(vouches, counts, circle_id, member, list).0[key].status == CollateralVouchStatus::Slashed,
{
    lemma_slashed_all_keeps_slashed(vouches, counts, circle_id, member, list, key);
}

/// Releasing a vouch never raises a voucher's active count, and a count of
/// zero stays zero.
pub proof fn law_release_never_increases_count(counts: Map<AccountId, u32>, voucher: AccountId, other: AccountId)
    ensures
        released_count(counts, voucher).contains_key(other) && counts.contains_key(other)
            ==> released_count(counts, voucher)[other] <= counts[other],
        counts.contains_key(voucher) && counts[voucher] == 0 ==> released_count(counts, voucher) == counts,
{
}

/// A member's requirement never exceeds the circle's original requirement,
/// and the reduction is active exactly when some reduction is granted.
pub proof fn law_reduction_never_raises_requirement(r: ReductionView, voucher: AccountId, bps: u32, is_adding: bool, now: u64)
    requires
        is_adding ==> r.total_reduction_bps + bps <= u32::MAX,
    ensures
        adjusted(r, voucher, bps, is_adding, now).current_collateral_bps <= r.original_collateral_bps,
        adjusted(r, voucher, bps, is_adding, now).is_active == (adjusted(r, voucher, bps, is_adding, now).total_reduction_bps > 0),
{
}

} // verus!
