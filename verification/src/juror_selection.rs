//! Juror selection: members with a high reliability score register in a
//! global pool, and five jurors are drawn for each dispute from a random
//! shuffle of the pool.
//!
//! The shuffle comes from the ledger's random number generator, which only
//! the contract environment holds: the caller shuffles the pool and hands
//! the result in; it is checked to be a shuffle of the pool.
use vstd::prelude::*;
use std::collections::BTreeMap;
use crate::AccountId;

verus! {

broadcast use vstd::std_specs::btree::group_btree_axioms;

/// Jurors drawn per dispute.
pub const JUROR_COUNT: u32 = 5;
/// Least reliability score of a juror.
pub const MIN_JUROR_RI: u32 = 650;

/// Storage keys of the juror tables.
#[derive(Clone, Copy, Debug, PartialEq, Eq, Structural)]
pub enum JurorDataKey {
    EligiblePool,
    SelectedJurors(u64),
}

/// Why a juror operation is refused.
#[derive(Clone, Copy, Debug, PartialEq, Eq, Structural)]
pub enum JurorError {
    RiScoreTooLow,
    AlreadyRegistered,
    PoolTooSmall,
    NotAShuffleOfThePool,
}

/// No account occurs twice.
pub open spec fn distinct(s: Seq<AccountId>) -> bool {
    forall|i: int, j: int| 0 <= i < j < s.len() ==> s[i] != s[j]
}

/// `shuffled` holds exactly the accounts of `pool` (each once).
pub open spec fn is_shuffle_of(shuffled: Seq<AccountId>, pool: Seq<AccountId>) -> bool {
    &&& shuffled.len() == pool.len()
    &&& distinct(shuffled)
    &&& forall|i: int| 0 <= i < shuffled.len() ==> pool.contains(#[trigger] shuffled[i])
}

/// The juror tables.
pub struct JurorStore {
    pub eligible_pool: Vec<AccountId>,
    pub selected: BTreeMap<u64, Vec<AccountId>>,
}

fn copy_accounts(v: &Vec<AccountId>) -> (r: Vec<AccountId>)
    ensures
        r@ == v@,
{
    let mut out: Vec<AccountId> = Vec::new();
    let mut i: usize = 0;
    while i < v.len()
        invariant
            i <= v.len(),
            out@ == v@.subrange(0, i as int),
        decreases v.len() - i,
    {
        out.push(v[i]);
        i = i + 1;
        assert(out@ =~= v@.subrange(0, i as int));
    }
    assert(v@.subrange(0, v.len() as int) =~= v@);
    out
}

fn contains_account(v: &Vec<AccountId>, a: AccountId) -> (r: bool)
    ensures
        r == v@.contains(a),
{
    let mut i: usize = 0;
    while i < v.len()
        invariant
            i <= v.len(),
            forall|j: int| 0 <= j < i ==> v@[j] != a,
        decreases v.len() - i,
    {
        if v[i] == a {
            assert(v@[i as int] == a);
            return true;
        }
        i = i + 1;
    }
    false
}

fn check_shuffle(shuffled: &Vec<AccountId>, pool: &Vec<AccountId>) -> (r: bool)
    ensures
        r == is_shuffle_of(shuffled@, pool@),
{
    if shuffled.len() != pool.len() {
        return false;
    }
    let mut i: usize = 0;
    while i < shuffled.len()
        invariant
            i <= shuffled.len(),
            forall|k: int| 0 <= k < i ==> pool@.contains(#[trigger] shuffled@[k]),
            forall|k: int, l: int| 0 <= k < l < i ==> shuffled@[k] != shuffled@[l],
        decreases shuffled.len() - i,
    {
        if !contains_account(pool, shuffled[i]) {
            return false;
        }
        let mut j: usize = 0;
        while j < i
            invariant
                j <= i < shuffled.len(),
                forall|k: int| 0 <= k < j ==> shuffled@[k] != shuffled@[i as int],
            decreases i - j,
        {
            if shuffled[j] == shuffled[i] {
                return false;
            }
            j = j + 1;
        }
        i = i + 1;
    }
    true
}

impl JurorStore {
    /// An empty pool and no selections.
    pub fn new() -> (r: Self)
        ensures
            r.eligible_pool@ == Seq::<AccountId>::empty(),
            r.selected@ == Map::<u64, Vec<AccountId>>::empty(),
    {
        JurorStore { eligible_pool: Vec::new(), selected: BTreeMap::new() }
    }

    /// Why registering `candidate` with `ri_score` is refused, if it is: a
    /// score under 650, or a candidate already in the pool.
    pub fn registration_refusal(&self, candidate: AccountId, ri_score: u32) -> (r: Option<JurorError>)
        ensures
            ri_score < MIN_JUROR_RI ==> r == Some(JurorError::RiScoreTooLow),
            ri_score >= MIN_JUROR_RI && self.eligible_pool@.contains(candidate) ==> r == Some(
                JurorError::AlreadyRegistered),
            ri_score >= MIN_JUROR_RI && !self.eligible_pool@.contains(candidate) ==> r is None,
    {
        if ri_score < MIN_JUROR_RI {
            Some(JurorError::RiScoreTooLow)
        } else if contains_account(&self.eligible_pool, candidate) {
            Some(JurorError::AlreadyRegistered)
        } else {
            None
        }
    }

    /// Registers a candidate whose reliability score is at least 650 and who
    /// is not in the pool yet (a call on any other input aborts; see
    /// [`JurorStore::registration_refusal`]).
    pub fn register_juror_candidate(&mut self, candidate: AccountId, ri_score: u32)
        requires
            ri_score >= MIN_JUROR_RI,
            !old(self).eligible_pool@.contains(candidate),
        ensures
            final(self).eligible_pool@ == old(self).eligible_pool@.push(candidate),
            final(self).selected == old(self).selected,
    {
        self.eligible_pool.push(candidate);
    }

    /// Why a draw is refused before any shuffle is looked at, if it is: a
    /// pool of fewer than five candidates.
    pub fn selection_refusal(&self) -> (r: Option<JurorError>)
        ensures
            r == (if self.eligible_pool.len() < JUROR_COUNT { Some(JurorError::PoolTooSmall) } else { None }),
    {
        if self.eligible_pool.len() < JUROR_COUNT as usize {
            Some(JurorError::PoolTooSmall)
        } else {
            None
        }
    }

    /// Draws the jurors of a dispute from a pool of at least five candidates
    /// (a smaller pool aborts the call; see [`JurorStore::selection_refusal`]):
    /// the first five accounts of `shuffled`, a random shuffle of the pool,
    /// recorded for audit. Refused, recording nothing, when `shuffled` is not
    /// a shuffle of the pool.
    pub fn select_jurors(&mut self, dispute_id: u64, shuffled: &Vec<AccountId>) -> (r: Result<Vec<AccountId>, JurorError>)
        requires
            old(self).eligible_pool.len() >= JUROR_COUNT,
        ensures
            !is_shuffle_of(shuffled@, old(self).eligible_pool@)
                ==> r == Err::<Vec<AccountId>, JurorError>(JurorError::NotAShuffleOfThePool),
            r is Err ==> *final(self) == *old(self),
            is_shuffle_of(shuffled@, old(self).eligible_pool@) ==> {
                &&& (r matches Ok(j) && j@ == shuffled@.subrange(0, JUROR_COUNT as int))
                &&& final(self).selected@.dom() == old(self).selected@.dom().insert(dispute_id)
                &&& final(self).selected@[dispute_id]@ == shuffled@.subrange(0, JUROR_COUNT as int)
                &&& final(self).eligible_pool == old(self).eligible_pool
            },
            r matches Ok(j) ==> j.len() == JUROR_COUNT && distinct(j@)
                && forall|i: int| 0 <= i < j.len() ==> old(self).eligible_pool@.contains(#[trigger] j@[i]),
    {
        if !check_shuffle(shuffled, &self.eligible_pool) {
            return Err(JurorError::NotAShuffleOfThePool);
        }
        let mut chosen: Vec<AccountId> = Vec::new();
        let mut i: usize = 0;
        while i < JUROR_COUNT as usize
            invariant
                i <= JUROR_COUNT,
                shuffled.len() >= JUROR_COUNT,
                chosen@ == shuffled@.subrange(0, i as int),
            decreases JUROR_COUNT - i,
        {
            chosen.push(shuffled[i]);
            i = i + 1;
            assert(chosen@ =~= shuffled@.subrange(0, i as int));
        }
        let record = copy_accounts(&chosen);
        self.selected.insert(dispute_id, record);
        assert(self.selected@.dom() =~= old(self).selected@.dom().insert(dispute_id));
        Ok(chosen)
    }

    /// The jurors drawn for a dispute (none when it has no draw).
    pub fn get_selected_jurors(&self, dispute_id: u64) -> (r: Vec<AccountId>)
        ensures
            self.selected@.contains_key(dispute_id) ==> r@ == self.selected@[dispute_id]@,
            !self.selected@.contains_key(dispute_id) ==> r@ == Seq::<AccountId>::empty(),
    {
        match self.selected.get(&dispute_id) {
            Some(v) => copy_accounts(v),
            None => Vec::new(),
        }
    }
}

} // verus!
