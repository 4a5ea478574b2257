//! Batched yield distribution: a group's funds are shared equally among its
//! members ten members per call, so that a cycle over fifty members stays
//! within a call's resource limits; a cycle is finalized only once every
//! member has been paid.
use vstd::prelude::*;
use crate::AccountId;
use crate::arith::tdiv;

verus! {

/// Members of the test group.
pub const MAX_MEMBERS: u32 = 50;
/// Members paid per call.
pub const BATCH_SIZE: u32 = 10;

/// A member and their balance.
#[derive(Clone, Copy, Debug, PartialEq, Eq, Structural)]
pub struct Member {
    pub address: AccountId,
    pub balance: i128,
}

/// A group with the position of the next member to pay.
#[derive(Clone, Debug)]
pub struct SusuGroup {
    pub members: Vec<Member>,
    pub current_index: u32,
    pub total_funds: i128,
}

/// The share of the funds each member receives.
pub open spec fn share_of(total_funds: i128, members: nat) -> int {
    tdiv(total_funds as int, members as int)
}

/// The end of the batch that starts at `index`.
pub open spec fn batch_end(index: u32, len: nat) -> int {
    if index + BATCH_SIZE < len { index + BATCH_SIZE } else if index < len { len as int } else { index as int }
}

/// The members after paying the share to those at positions `from..to`.
pub open spec fn paid_members(members: Seq<Member>, from: int, to: int, share: int) -> Seq<Member> {
    Seq::new(members.len(), |i: int| if from <= i < to {
        Member { balance: (members[i].balance + share) as i128, ..members[i] }
    } else {
        members[i]
    })
}

/// The distribution state (one per deployment).
pub struct SusuContract;

impl SusuContract {
    /// A group of fifty members with consecutive accounts from
    /// `first_address`, each holding 1,000, with 50,000 of funds to share.
    pub fn create_test_group(first_address: AccountId) -> (r: SusuGroup)
        requires
            first_address + MAX_MEMBERS <= u64::MAX,
        ensures
            r.members.len() == MAX_MEMBERS,
            forall|i: int| 0 <= i < MAX_MEMBERS ==> #[trigger] r.members@[i] == (Member {
                address: (first_address + i) as u64, balance: 1_000 }),
            r.current_index == 0,
            r.total_funds == 50_000,
    {
        let mut members: Vec<Member> = Vec::new();
        let mut i: u32 = 0;
        while i < MAX_MEMBERS
            invariant
                i <= MAX_MEMBERS,
                first_address + MAX_MEMBERS <= u64::MAX,
                members.len() == i,
                forall|k: int| 0 <= k < i ==> #[trigger] members@[k] == (Member { address: (first_address + k) as u64, balance: 1_000 }),
            decreases MAX_MEMBERS - i,
        {
            members.push(Member { address: first_address + i as u64, balance: 1_000 });
            i = i + 1;
        }
        SusuGroup { members, current_index: 0, total_funds: 50_000 }
    }

    /// Pays the next batch of at most ten members their equal share of the
    /// funds and moves the position past them.
    pub fn distribute_yield(group: SusuGroup) -> (r: SusuGroup)
        requires
            group.members.len() <= u32::MAX,
            forall|i: int| group.current_index <= i < batch_end(group.current_index, group.members.len() as nat)
                ==> i128::MIN <= #[trigger] group.members@[i].balance
                + share_of(group.total_funds, group.members.len() as nat) <= i128::MAX,
        ensures
            r.members@ == paid_members(group.members@, group.current_index as int,
                batch_end(group.current_index, group.members.len() as nat), share_of(group.total_funds,
                group.members.len() as nat)),
            r.current_index == batch_end(group.current_index, group.members.len() as nat),
            r.total_funds == group.total_funds,
    {
        let mut group = group;
        let ghost m0 = group.members@;
        let ghost start = group.current_index as int;
        let ghost tf = group.total_funds;
        let total_members: usize = group.members.len();
        let mut processed: u32 = 0;
        let mut index: u32 = group.current_index;
        while (index as usize) < total_members && processed < BATCH_SIZE
            invariant
                total_members == group.members.len(),
                total_members == m0.len(),
                group.total_funds == tf,
                total_members <= u32::MAX,
                index == start + processed,
                processed <= BATCH_SIZE,
                start >= 0,
                index as int <= batch_end(start as u32, m0.len()),
                group.members@ == paid_members(m0, start, index as int, share_of(group.total_funds, m0.len())),
                forall|i: int| start <= i < batch_end(start as u32, m0.len()) ==> i128::MIN <= #[trigger] m0[i].balance
                    + share_of(group.total_funds, m0.len()) <= i128::MAX,
            decreases BATCH_SIZE - processed,
        {
            let mut member = group.members[index as usize];
            let payout = group.total_funds / total_members as i128;
            assert(member == m0[index as int]);
            member.balance = member.balance + payout;
            group.members.set(index as usize, member);
            index = index + 1;
            processed = processed + 1;
            assert(group.members@ =~= paid_members(m0, start, index as int, share_of(group.total_funds, m0.len())));
        }
        group.current_index = index;
        group
    }

    /// Closes a cycle once every member has been paid: the position and the
    /// funds go back to zero. A cycle not fully paid aborts the call.
    pub fn finalize_cycle(group: SusuGroup) -> (r: SusuGroup)
        requires
            group.current_index >= group.members.len(),
        ensures
            r.members@ == group.members@,
            r.current_index == 0,
            r.total_funds == 0,
    {
        let mut group = group;
        group.current_index = 0;
        group.total_funds = 0;
        group
    }

    /// Runs a whole cycle over the test group: batches until every member
    /// is paid, then finalizes. Every member ends with 2,000.
    pub fn stress_test(first_address: AccountId) -> (r: SusuGroup)
        requires
            first_address + MAX_MEMBERS <= u64::MAX,
        ensures
            r.members.len() == MAX_MEMBERS,
            forall|i: int| 0 <= i < MAX_MEMBERS ==> #[trigger] r.members@[i].balance == 2_000,
            r.current_index == 0,
            r.total_funds == 0,
    {
        let mut group = Self::create_test_group(first_address);
        assert(share_of(50_000, 50) == 1_000);
        while (group.current_index as usize) < group.members.len()
            invariant
                group.members.len() == MAX_MEMBERS,
                group.total_funds == 50_000,
                group.current_index <= MAX_MEMBERS,
                forall|i: int| 0 <= i < MAX_MEMBERS ==> #[trigger] group.members@[i].balance
                    == if i < group.current_index { 2_000i128 } else { 1_000i128 },
            decreases MAX_MEMBERS - group.current_index,
        {
            group = Self::distribute_yield(group);
        }
        Self::finalize_cycle(group)
    }
}

} // verus!
