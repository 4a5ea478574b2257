//! Yearly summary: running totals of a member's contributions, payouts and
//! yield, reported once per past year, each year at most once and in
//! increasing order.
use vstd::prelude::*;
use std::collections::BTreeMap;
use crate::AccountId;

verus! {

broadcast use vstd::std_specs::btree::group_btree_axioms;

/// Seconds in a (365-day) year.
pub const SECONDS_PER_YEAR: u64 = 31_536_000;

/// Storage keys of the totals.
#[derive(Clone, Copy, Debug, PartialEq, Eq, Structural)]
pub enum DataKey {
    Contribution(AccountId),
    Payout(AccountId),
    Yield(AccountId),
    LastEmittedYear(AccountId),
}

/// A member's yearly report.
#[derive(Clone, Copy, Debug, PartialEq, Eq, Structural)]
pub struct YearlySummary {
    pub user: AccountId,
    pub year: u32,
    pub total_contributions: i128,
    pub total_payouts: i128,
    pub total_yield: i128,
}

/// Why a summary is refused.
#[derive(Clone, Copy, Debug, PartialEq, Eq, Structural)]
pub enum SummaryError {
    CurrentOrFutureYear,
    AlreadyEmitted,
}

/// The calendar year of a ledger time, counting 365-day years from 1970.
pub open spec fn year_of(now: u64) -> int {
    ((now / SECONDS_PER_YEAR) as u32) + 1970
}

/// A stored total (zero when none is stored).
pub open spec fn total_in(m: Map<AccountId, i128>, user: AccountId) -> i128 {
    if m.contains_key(user) { m[user] } else { 0 }
}

/// The totals (one per deployment).
pub struct SusuContract {
    pub contributions: BTreeMap<AccountId, i128>,
    pub payouts: BTreeMap<AccountId, i128>,
    pub yields: BTreeMap<AccountId, i128>,
    pub last_emitted_year: BTreeMap<AccountId, u32>,
}

fn add_to(m: &mut BTreeMap<AccountId, i128>, user: AccountId, amount: i128)
    requires
        i128::MIN <= total_in(old(m)@, user) + amount <= i128::MAX,
    ensures
        final(m)@ == old(m)@.insert(user, (total_in(old(m)@, user) + amount) as i128),
{
    let current: i128 = match m.get(&user) {
        Some(t) => *t,
        None => 0,
    };
    m.insert(user, current + amount);
}

fn total_of(m: &BTreeMap<AccountId, i128>, user: AccountId) -> (r: i128)
    ensures
        r == total_in(m@, user),
{
    match m.get(&user) {
        Some(t) => *t,
        None => 0,
    }
}

impl SusuContract {
    /// The last year reported for a member (zero when none).
    pub open spec fn last_year_of(&self, user: AccountId) -> u32 {
        if self.last_emitted_year@.contains_key(user) { self.last_emitted_year@[user] } else { 0 }
    }

    /// No totals and no reports.
    pub fn new() -> (r: Self)
        ensures
            r.contributions@ == Map::<AccountId, i128>::empty(),
            r.payouts@ == Map::<AccountId, i128>::empty(),
            r.yields@ == Map::<AccountId, i128>::empty(),
            r.last_emitted_year@ == Map::<AccountId, u32>::empty(),
    {
        SusuContract {
            contributions: BTreeMap::new(),
            payouts: BTreeMap::new(),
            yields: BTreeMap::new(),
            last_emitted_year: BTreeMap::new(),
        }
    }

    /// Adds a contribution to a member's total.
    pub fn record_contribution(&mut self, user: AccountId, amount: i128)
        requires
            i128::MIN <= total_in(old(self).contributions@, user) + amount <= i128::MAX,
        ensures
            final(self).contributions@ == old(self).contributions@.insert(user,
                (total_in(old(self).contributions@, user) + amount) as i128),
            final(self).payouts == old(self).payouts,
            final(self).yields == old(self).yields,
            final(self).last_emitted_year == old(self).last_emitted_year,
    {
        add_to(&mut self.contributions, user, amount);
    }

    /// Adds a payout to a member's total.
    pub fn record_payout(&mut self, user: AccountId, amount: i128)
        requires
            i128::MIN <= total_in(old(self).payouts@, user) + amount <= i128::MAX,
        ensures
            final(self).payouts@ == old(self).payouts@.insert(user, (total_in(old(self).payouts@, user) + amount) as i128),
            final(self).contributions == old(self).contributions,
            final(self).yields == old(self).yields,
            final(self).last_emitted_year == old(self).last_emitted_year,
    {
        add_to(&mut self.payouts, user, amount);
    }

    /// Adds yield to a member's total.
    pub fn record_yield(&mut self, user: AccountId, amount: i128)
        requires
            i128::MIN <= total_in(old(self).yields@, user) + amount <= i128::MAX,
        ensures
            final(self).yields@ == old(self).yields@.insert(user, (total_in(old(self).yields@, user) + amount) as i128),
            final(self).contributions == old(self).contributions,
            final(self).payouts == old(self).payouts,
            final(self).last_emitted_year == old(self).last_emitted_year,
    {
        add_to(&mut self.yields, user, amount);
    }

    /// Why a summary of `year` is refused at `now`, if it is: the current
    /// or a future year, or a year not later than the last one reported.
    pub open spec fn summary_refusal(&self, user: AccountId, year: u32, now: u64) -> Option<SummaryError> {
        if year >= year_of(now) {
            Some(SummaryError::CurrentOrFutureYear)
        } else if year <= self.last_year_of(user) {
            Some(SummaryError::AlreadyEmitted)
        } else {
            None
        }
    }

    /// Checks a summary request: its refusal, if any.
    pub fn summary_check(&self, user: AccountId, year: u32, now: u64) -> (r: Option<SummaryError>)
        requires
            ((now / SECONDS_PER_YEAR) as u32) + 1970 <= u32::MAX,
        ensures
            r == self.summary_refusal(user, year, now),
    {
        let current_year: u32 = (now / SECONDS_PER_YEAR) as u32 + 1970;
        let last_year: u32 = match self.last_emitted_year.get(&user) {
            Some(y) => *y,
            None => 0,
        };
        if year >= current_year {
            Some(SummaryError::CurrentOrFutureYear)
        } else if year <= last_year {
            Some(SummaryError::AlreadyEmitted)
        } else {
            None
        }
    }

    /// Reports a member's totals for a past year, later than the last year
    /// reported, and records it as reported. Any other year
    /// ([`SusuContract::summary_check`]) aborts the call.
    pub fn emit_yearly_summary(&mut self, user: AccountId, year: u32, now: u64) -> (r: YearlySummary)
        requires
            old(self).summary_refusal(user, year, now) is None,
        ensures
            r == (YearlySummary {
                user, year,
                total_contributions: total_in(old(self).contributions@, user),
                total_payouts: total_in(old(self).payouts@, user),
                total_yield: total_in(old(self).yields@, user),
            }),
            final(self).last_emitted_year@ == old(self).last_emitted_year@.insert(user, year),
            final(self).contributions == old(self).contributions,
            final(self).payouts == old(self).payouts,
            final(self).yields == old(self).yields,
    {
        let summary = YearlySummary {
            user,
            year,
            total_contributions: total_of(&self.contributions, user),
            total_payouts: total_of(&self.payouts, user),
            total_yield: total_of(&self.yields, user),
        };
        self.last_emitted_year.insert(user, year);
        summary
    }
}

} // verus!
