//! Sequence buffer: transactions signed offline arrive in any order with a
//! per-member sequence number and are executed strictly in order, each
//! exactly once.
use vstd::prelude::*;
use std::collections::BTreeMap;
use crate::AccountId;

verus! {

broadcast use vstd::std_specs::btree::group_btree_axioms;

/// Storage keys of the buffer.
#[derive(Clone, Copy, Debug, PartialEq, Eq, Structural)]
pub enum DataKey {
    UserSeq(AccountId),
    Pending(AccountId),
}

/// A buffered transaction: its sequence number, action (1 contributes,
/// 2 withdraws) and amount.
#[derive(Clone, Copy, Debug, PartialEq, Eq, Structural)]
pub struct BufferedTx {
    pub seq: u64,
    pub action: u32,
    pub amount: i128,
}

/// Why a buffer operation is refused.
#[derive(Clone, Copy, Debug, PartialEq, Eq, Structural)]
pub enum SequenceError {
    SequenceTooOld,
    SequenceAlreadySubmitted,
    UnknownAction,
}

/// Number of transactions ready to run after sequence `from`: consecutive
/// sequence numbers present in the buffer, at most `max`.
pub open spec fn ready_count(pending: Map<(AccountId, u64), BufferedTx>, user: AccountId, from: int, max: nat) -> nat
    decreases max,
{
    if max == 0 || !pending.contains_key((user, (from + 1) as u64)) {
        0
    } else {
        1 + ready_count(pending, user, from + 1, (max - 1) as nat)
    }
}

/// The `k` transactions after sequence `from`, in order.
pub open spec fn ready_txs(pending: Map<(AccountId, u64), BufferedTx>, user: AccountId, from: int, k: nat) -> Seq<BufferedTx> {
    Seq::new(k, |i: int| pending[(user, (from + 1 + i) as u64)])
}

/// The keys of the `k` transactions after sequence `from`.
pub open spec fn ready_keys(user: AccountId, from: int, k: nat) -> Set<(AccountId, u64)> {
    Set::new(|key: (AccountId, u64)| key.0 == user && from < key.1 <= from + k)
}

proof fn lemma_ready_present(pending: Map<(AccountId, u64), BufferedTx>, user: AccountId, from: int, max: nat, i: int)
    requires
        0 <= i < ready_count(pending, user, from, max),
    ensures
        pending.contains_key((user, (from + 1 + i) as u64)),
    decreases max,
{
    if i > 0 {
        lemma_ready_present(pending, user, from + 1, (max - 1) as nat, i - 1);
        assert(from + 1 + 1 + (i - 1) == from + 1 + i);
    }
}

/// The buffer (one per deployment).
pub struct SusuContract {
    pub user_seq: BTreeMap<AccountId, u64>,
    pub pending: BTreeMap<(AccountId, u64), BufferedTx>,
}

impl SusuContract {
    /// The last executed sequence number of a member (zero when none).
    pub open spec fn last_seq_of(&self, user: AccountId) -> u64 {
        if self.user_seq@.contains_key(user) { self.user_seq@[user] } else { 0 }
    }

    /// Every buffered transaction is stored under its own sequence number,
    /// which is newer than its member's last executed one.
    pub open spec fn wf(&self) -> bool {
        forall|k: (AccountId, u64)| #[trigger] self.pending@.contains_key(k) ==> self.pending@[k].seq == k.1
            && k.1 > self.last_seq_of(k.0)
    }

    /// An empty buffer.
    pub fn new() -> (r: Self)
        ensures
            r.wf(),
            r.user_seq@ == Map::<AccountId, u64>::empty(),
            r.pending@ == Map::<(AccountId, u64), BufferedTx>::empty(),
    {
        SusuContract { user_seq: BTreeMap::new(), pending: BTreeMap::new() }
    }

    fn last_seq(&self, user: AccountId) -> (r: u64)
        ensures
            r == self.last_seq_of(user),
    {
        match self.user_seq.get(&user) {
            Some(s) => *s,
            None => 0,
        }
    }

    /// Why buffering `seq` for a member is refused, if it is: a sequence
    /// number not newer than the last executed one, or one already buffered.
    pub open spec fn submit_refusal(&self, user: AccountId, seq: u64) -> Option<SequenceError> {
        if seq <= self.last_seq_of(user) {
            Some(SequenceError::SequenceTooOld)
        } else if self.pending@.contains_key((user, seq)) {
            Some(SequenceError::SequenceAlreadySubmitted)
        } else {
            None
        }
    }

    /// Checks a submission: its refusal, if any.
    pub fn submit_check(&self, user: AccountId, seq: u64) -> (r: Option<SequenceError>)
        ensures
            r == self.submit_refusal(user, seq),
    {
        if seq <= self.last_seq(user) {
            Some(SequenceError::SequenceTooOld)
        } else if self.pending.contains_key(&(user, seq)) {
            Some(SequenceError::SequenceAlreadySubmitted)
        } else {
            None
        }
    }

    /// Buffers a member's transaction. Its sequence number must be newer
    /// than the last executed one and not buffered yet
    /// ([`SusuContract::submit_check`]); any other submission aborts.
    pub fn submit_buffered_tx(&mut self, user: AccountId, seq: u64, action: u32, amount: i128)
        requires
            old(self).wf(),
            old(self).submit_refusal(user, seq) is None,
        ensures
            final(self).wf(),
            final(self).pending@ == old(self).pending@.insert((user, seq), BufferedTx { seq, action, amount }),
            final(self).user_seq == old(self).user_seq,
    {
        self.pending.insert((user, seq), BufferedTx { seq, action, amount });
    }

    /// The batch `process_buffered` would run: up to `max_batch` of a
    /// member's buffered transactions directly following the last executed
    /// one, in order; refused when one of them has an unknown action (only 1
    /// and 2 are known).
    pub fn ready_batch(&self, user: AccountId, max_batch: u32) -> (r: Result<Vec<BufferedTx>, SequenceError>)
        requires
            self.last_seq_of(user) + max_batch < u64::MAX,
        ensures
            r matches Ok(v) ==> v.len() <= max_batch,
            ({
                let from = self.last_seq_of(user) as int;
                let k = ready_count(self.pending@, user, from, max_batch as nat);
                let txs = ready_txs(self.pending@, user, from, k);
                &&& (exists|i: int| 0 <= i < k && !(#[trigger] txs[i].action == 1 || txs[i].action == 2))
                    ==> r == Err::<Vec<BufferedTx>, SequenceError>(SequenceError::UnknownAction)
                &&& (forall|i: int| 0 <= i < k ==> #[trigger] txs[i].action == 1 || txs[i].action == 2)
                    ==> (r matches Ok(v) && v@ == txs)
            }),
    {
        let ghost from = self.last_seq_of(user) as int;
        let ghost p0 = self.pending@;
        let mut last_seq = self.last_seq(user);
        let mut executed: Vec<BufferedTx> = Vec::new();
        let mut processed: u32 = 0;
        loop
            invariant
                p0 == self.pending@,
                from == self.last_seq_of(user),
                from + max_batch < u64::MAX,
                processed <= max_batch,
                last_seq == from + processed,
                ready_count(p0, user, from, max_batch as nat) == processed + ready_count(p0, user, last_seq as int,
                    (max_batch - processed) as nat),
                executed@ == ready_txs(p0, user, from, processed as nat),
                forall|i: int| 0 <= i < processed ==> #[trigger] executed@[i].action == 1 || executed@[i].action == 2,
            ensures
                processed <= max_batch,
                last_seq == from + processed,
                ready_count(p0, user, from, max_batch as nat) == processed,
                executed@ == ready_txs(p0, user, from, processed as nat),
                forall|i: int| 0 <= i < processed ==> #[trigger] executed@[i].action == 1 || executed@[i].action == 2,
            decreases max_batch - processed,
        {
            let next_seq = last_seq + 1;
            if !self.pending.contains_key(&(user, next_seq)) || processed >= max_batch {
                assert(ready_count(p0, user, last_seq as int, (max_batch - processed) as nat) == 0);
                break;
            }
            let tx = match self.pending.get(&(user, next_seq)) {
                Some(t) => *t,
                None => { break; },
            };
            if tx.action != 1 && tx.action != 2 {
                proof {
                    let k = ready_count(p0, user, from, max_batch as nat);
                    let txs = ready_txs(p0, user, from, k);
                    assert(processed < k);
                    assert(txs[processed as int] == tx);
                }
                return Err(SequenceError::UnknownAction);
            }
            let ghost before = executed@;
            executed.push(tx);
            last_seq = next_seq;
            processed = processed + 1;
            assert(executed@ =~= ready_txs(p0, user, from, processed as nat));
        }
        Ok(executed)
    }

    /// Executes, in order, up to `max_batch` of a member's buffered
    /// transactions that directly follow the last executed one, and returns
    /// them. A batch with an unknown action ([`SusuContract::ready_batch`])
    /// aborts the call, nothing executed.
    pub fn process_buffered(&mut self, user: AccountId, max_batch: u32) -> (r: Vec<BufferedTx>)
        requires
            old(self).wf(),
            old(self).last_seq_of(user) + max_batch < u64::MAX,
            ({
                let from = old(self).last_seq_of(user) as int;
                let k = ready_count(old(self).pending@, user, from, max_batch as nat);
                let txs = ready_txs(old(self).pending@, user, from, k);
                forall|i: int| 0 <= i < k ==> #[trigger] txs[i].action == 1 || txs[i].action == 2
            }),
        ensures
            final(self).wf(),
            forall|i: int| 0 <= i < r.len() ==> #[trigger] r@[i].seq == old(self).last_seq_of(user) + 1 + i,
            ({
                let from = old(self).last_seq_of(user) as int;
                let k = ready_count(old(self).pending@, user, from, max_batch as nat);
                &&& r@ == ready_txs(old(self).pending@, user, from, k)
                &&& final(self).user_seq@ == old(self).user_seq@.insert(user, (from + k) as u64)
                &&& final(self).pending@ == old(self).pending@.remove_keys(ready_keys(user, from, k))
            }),
    {
        let ghost from = old(self).last_seq_of(user) as int;
        let ghost p0 = self.pending@;
        let executed = match self.ready_batch(user, max_batch) {
            Ok(v) => v,
            Err(_) => Vec::new(),
        };
        let processed: u32 = executed.len() as u32;
        let last_seq = self.last_seq(user) + processed as u64;
        proof {
            assert(ready_count(p0, user, from, max_batch as nat) == processed);
        }
        self.user_seq.insert(user, last_seq);
        let mut i: u32 = 0;
        while i < processed
            invariant
                i <= processed,
                0 <= from,
                p0 == old(self).pending@,
                last_seq == from + processed,
                from + max_batch < u64::MAX,
                processed <= max_batch,
                self.pending@ == p0.remove_keys(ready_keys(user, from, i as nat)),
                self.user_seq@ == old(self).user_seq@.insert(user, last_seq),
            decreases processed - i,
        {
            let seq: u64 = last_seq - processed as u64 + i as u64 + 1;
            self.pending.remove(&(user, seq));
            i = i + 1;
            assert(self.pending@ =~= p0.remove_keys(ready_keys(user, from, i as nat)));
        }
        proof {
            assert forall|k: (AccountId, u64)| #[trigger] self.pending@.contains_key(k) implies self.pending@[k].seq == k.1
                && k.1 > self.last_seq_of(k.0) by {
                assert(p0.contains_key(k));
                if k.0 == user {
                    assert(!ready_keys(user, from, processed as nat).contains(k));
                }
            }
            assert forall|i: int| 0 <= i < executed.len() implies #[trigger] executed@[i].seq == from + 1 + i by {
                lemma_ready_present(p0, user, from, max_batch as nat, i);
                assert(p0.contains_key((user, (from + 1 + i) as u64)));
            }
        }
        executed
    }

    /// The sequence number a member's next transaction must carry.
    pub fn get_next_sequence(&self, user: AccountId) -> (r: u64)
        requires
            self.last_seq_of(user) < u64::MAX,
        ensures
            r == self.last_seq_of(user) + 1,
    {
        self.last_seq(user) + 1
    }
}

} // verus!
