//! Auto-compounder of the group insurance reserve: staked reserve funds earn
//! rewards, which compounding moves into the reserve.
use vstd::prelude::*;

verus! {

/// The reserve and its pending rewards.
#[derive(Clone, Copy, Debug, PartialEq, Eq, Structural)]
pub struct AutoCompounder {
    pub reserve_balance: i128,
    pub pending_rewards: i128,
}

/// Report of a compounding: the rewards moved and the new reserve.
#[derive(Clone, Copy, Debug, PartialEq, Eq, Structural)]
pub struct CompoundEvent {
    pub rewards: i128,
    pub reserve_after: i128,
}

/// The state after compounding.
pub open spec fn compounded(s: AutoCompounder) -> AutoCompounder {
    if s.pending_rewards > 0 {
        AutoCompounder { reserve_balance: (s.reserve_balance + s.pending_rewards) as i128, pending_rewards: 0 }
    } else {
        s
    }
}

impl AutoCompounder {
    /// An empty reserve with no rewards.
    pub fn new() -> (r: Self)
        ensures
            r.reserve_balance == 0 && r.pending_rewards == 0,
    {
        AutoCompounder { reserve_balance: 0, pending_rewards: 0 }
    }

    /// Stakes reserve funds.
    pub fn stake_reserve(&mut self, amount: i128)
        requires
            i128::MIN <= old(self).reserve_balance + amount <= i128::MAX,
        ensures
            final(self).reserve_balance == old(self).reserve_balance + amount,
            final(self).pending_rewards == old(self).pending_rewards,
    {
        self.reserve_balance = self.reserve_balance + amount;
    }

    /// Moves positive pending rewards into the reserve; nothing happens
    /// otherwise.
    pub fn compound_interest(&mut self) -> (r: Option<CompoundEvent>)
        requires
            old(self).pending_rewards > 0 ==> old(self).reserve_balance + old(self).pending_rewards <= i128::MAX,
        ensures
            *final(self) == compounded(*old(self)),
            old(self).pending_rewards > 0 ==> r == Some(CompoundEvent {
                rewards: old(self).pending_rewards, reserve_after: final(self).reserve_balance }),
            old(self).pending_rewards <= 0 ==> r is None,
    {
        let rewards = self.pending_rewards;
        if rewards > 0 {
            self.reserve_balance = self.reserve_balance + rewards;
            self.pending_rewards = 0;
            return Some(CompoundEvent { rewards, reserve_after: self.reserve_balance });
        }
        None
    }

    /// Records rewards accrued by the yield protocol.
    pub fn accrue_rewards(&mut self, amount: i128)
        requires
            i128::MIN <= old(self).pending_rewards + amount <= i128::MAX,
        ensures
            final(self).pending_rewards == old(self).pending_rewards + amount,
            final(self).reserve_balance == old(self).reserve_balance,
    {
        self.pending_rewards = self.pending_rewards + amount;
    }

    /// The reserve.
    pub fn get_reserve_balance(&self) -> (r: i128)
        ensures
            r == self.reserve_balance,
    {
        self.reserve_balance
    }

    /// The pending rewards.
    pub fn get_pending_rewards(&self) -> (r: i128)
        ensures
            r == self.pending_rewards,
    {
        self.pending_rewards
    }
}

/// Compounding moves value without creating or losing any: the reserve plus
/// the pending rewards is the same before and after, and no rewards stay
/// pending when there were any.
pub proof fn law_compounding_conserves_value(s: AutoCompounder)
    requires
        s.pending_rewards > 0 ==> s.reserve_balance + s.pending_rewards <= i128::MAX,
    ensures
        compounded(s).reserve_balance + compounded(s).pending_rewards == s.reserve_balance + s.pending_rewards,
        compounded(s).pending_rewards <= 0,
        compounded(s).reserve_balance >= s.reserve_balance,
{
}

} // verus!
