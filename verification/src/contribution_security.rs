//! Contribution security: atomic contribution transactions that can be
//! committed or rolled back, and a per-circle Merkle tree over committed
//! contributions with inclusion proofs.
use vstd::prelude::*;
use std::collections::BTreeMap;
use crate::AccountId;
use crate::bytes::{
    le_bytes, ascii_decimal, sha256_digest, sha256_of, push_le, push_ascii_decimal,
    append_bytes, copy_bytes, bytes_eq,
};

verus! {

broadcast use vstd::std_specs::btree::group_btree_axioms;

/// Why a contribution-security operation is refused.
#[derive(Clone, Copy, Debug, PartialEq, Eq, Structural)]
pub enum ContributionSecurityError {
    InvalidTransactionState,
    DoubleSpendAttempt,
    TransactionAlreadyCommitted,
    InsufficientRollbackBalance,
    InvalidMerkleProof,
    ContributionNotFound,
    UnauthorizedRollback,
}

/// Life cycle of a contribution transaction.
#[derive(Clone, Copy, Debug, PartialEq, Eq, Structural)]
pub enum TransactionState {
    Pending,
    Committed,
    RolledBack,
}

/// An atomic contribution: what was promised and what to restore on rollback.
#[derive(Clone, Debug)]
pub struct ContributionTransaction {
    pub tx_id: Vec<u8>,
    pub user: AccountId,
    pub circle_id: u64,
    pub amount: u64,
    pub rounds: u32,
    pub state: TransactionState,
    pub created_at: u64,
    pub finalized_at: Option<u64>,
    pub previous_bitmap: u64,
    pub previous_count: u32,
}

/// The value of a transaction record.
pub struct TransactionView {
    pub tx_id: Seq<u8>,
    pub user: AccountId,
    pub circle_id: u64,
    pub amount: u64,
    pub rounds: u32,
    pub state: TransactionState,
    pub created_at: u64,
    pub finalized_at: Option<u64>,
    pub previous_bitmap: u64,
    pub previous_count: u32,
}

impl View for ContributionTransaction {
    type V = TransactionView;

    open spec fn view(&self) -> TransactionView {
        TransactionView {
            tx_id: self.tx_id@,
            user: self.user,
            circle_id: self.circle_id,
            amount: self.amount,
            rounds: self.rounds,
            state: self.state,
            created_at: self.created_at,
            finalized_at: self.finalized_at,
            previous_bitmap: self.previous_bitmap,
            previous_count: self.previous_count,
        }
    }
}

/// A committed contribution, the data behind one Merkle leaf.
#[derive(Clone, Copy, Debug, PartialEq, Eq, Structural)]
pub struct ContributionLeaf {
    pub user: AccountId,
    pub circle_id: u64,
    pub amount: u64,
    pub round: u32,
    pub timestamp: u64,
    pub nonce: u64,
}

/// An inclusion proof: the root it claims, the leaf, and the sibling hashes
/// from the leaf upward with, for each, whether the running hash is the
/// right-hand child.
#[derive(Clone, Debug)]
pub struct ContributionMerkleProof {
    pub root: Vec<u8>,
    pub leaf: ContributionLeaf,
    pub proof_path: Vec<Vec<u8>>,
    pub proof_indices: Vec<bool>,
}

/// The value of an inclusion proof.
pub struct ProofView {
    pub root: Seq<u8>,
    pub leaf: ContributionLeaf,
    pub path: Seq<Seq<u8>>,
    pub indices: Seq<bool>,
}

impl View for ContributionMerkleProof {
    type V = ProofView;

    open spec fn view(&self) -> ProofView {
        ProofView {
            root: self.root@,
            leaf: self.leaf,
            path: deep(self.proof_path@),
            indices: self.proof_indices@,
        }
    }
}

/// A stored contribution with its leaf hash.
#[derive(Clone, Debug)]
pub struct ContributionRecord {
    pub leaf: ContributionLeaf,
    pub leaf_hash: Vec<u8>,
    pub verified: bool,
}

/// The value of a contribution record.
pub struct RecordView {
    pub leaf: ContributionLeaf,
    pub leaf_hash: Seq<u8>,
    pub verified: bool,
}

impl View for ContributionRecord {
    type V = RecordView;

    open spec fn view(&self) -> RecordView {
        RecordView { leaf: self.leaf, leaf_hash: self.leaf_hash@, verified: self.verified }
    }
}

/// Storage keys of the contribution-security tables.
#[derive(Clone, Debug, PartialEq, Eq)]
pub enum SecurityDataKey {
    ActiveTransaction(Vec<u8>),
    TransactionHistory(Vec<u8>),
    TransactionCounter,
    ContributionRecord(u64),
    ContributionCounter,
    CircleMerkleRoot(u64),
    UserContributionNonce(AccountId, u64),
}

// --- byte strings and hashing ---

/// The byte strings held in a sequence of vectors.
pub open spec fn deep(v: Seq<Vec<u8>>) -> Seq<Seq<u8>> {
    v.map_values(|x: Vec<u8>| x@)
}

/// The bytes hashed into a leaf: the user's decimal spelling, then the
/// circle, amount, round, timestamp and nonce in little-endian order.
pub open spec fn leaf_bytes(l: ContributionLeaf) -> Seq<u8> {
    ascii_decimal(l.user as nat) + le_bytes(l.circle_id as nat, 8) + le_bytes(l.amount as nat, 8)
        + le_bytes(l.round as nat, 4) + le_bytes(l.timestamp as nat, 8) + le_bytes(l.nonce as nat, 8)
}

/// The hash of a leaf.
pub open spec fn leaf_digest(l: ContributionLeaf) -> Seq<u8> {
    sha256_digest(leaf_bytes(l))
}

/// The identifier of the transaction a user starts in a circle, given the
/// transaction counter and the ledger time.
pub open spec fn transaction_id(user: AccountId, circle_id: u64, counter: u64, now: u64) -> Seq<u8> {
    sha256_digest(ascii_decimal(user as nat) + le_bytes(circle_id as nat, 8) + le_bytes(counter as nat, 8)
        + le_bytes(now as nat, 8))
}

/// The hash of an inner node.
pub open spec fn node_digest(left: Seq<u8>, right: Seq<u8>) -> Seq<u8> {
    sha256_digest(left + right)
}

/// Hash of the `k`-th pair of a level; an odd last node is paired with itself.
pub open spec fn pair_digest(level: Seq<Seq<u8>>, k: int) -> Seq<u8> {
    node_digest(level[2 * k], if 2 * k + 1 < level.len() { level[2 * k + 1] } else { level[2 * k] })
}

/// The level above `level`.
pub open spec fn next_level(level: Seq<Seq<u8>>) -> Seq<Seq<u8>> {
    Seq::new(((level.len() + 1) / 2) as nat, |k: int| pair_digest(level, k))
}

/// The Merkle root of a non-empty level.
pub open spec fn merkle_root(level: Seq<Seq<u8>>) -> Seq<u8>
    decreases level.len(),
{
    if level.len() <= 1 {
        level[0]
    } else {
        merkle_root(next_level(level))
    }
}

/// One step of a proof applied to the running hash.
pub open spec fn apply_step(h: Seq<u8>, step: (Seq<u8>, bool)) -> Seq<u8> {
    if step.1 { node_digest(step.0, h) } else { node_digest(h, step.0) }
}

/// The running hash after every step of a proof, first step first.
pub open spec fn apply_steps(h: Seq<u8>, steps: Seq<(Seq<u8>, bool)>) -> Seq<u8>
    decreases steps.len(),
{
    if steps.len() == 0 {
        h
    } else {
        apply_steps(apply_step(h, steps[0]), steps.drop_first())
    }
}

/// The steps of a proof given as sibling hashes and side flags; a missing
/// flag reads as `false`.
pub open spec fn zip_steps(path: Seq<Seq<u8>>, indices: Seq<bool>) -> Seq<(Seq<u8>, bool)> {
    Seq::new(path.len(), |k: int| (path[k], if k < indices.len() { indices[k] } else { false }))
}

/// The proof steps for the node at `idx` of `level`: at every level the
/// sibling and whether the node is the right child; an unpaired last node is
/// its own sibling, as it is paired with itself when the level above is built.
pub open spec fn proof_steps(level: Seq<Seq<u8>>, idx: nat) -> Seq<(Seq<u8>, bool)>
    decreases level.len(),
{
    if level.len() <= 1 {
        Seq::empty()
    } else {
        let is_right = idx % 2 == 1;
        let sibling: int = if is_right { idx - 1 } else { idx + 1int };
        let head: Seq<(Seq<u8>, bool)> = if sibling < level.len() {
            seq![(level[sibling], is_right)]
        } else if idx < level.len() {
            seq![(level[idx as int], false)]
        } else {
            Seq::empty()
        };
        head + proof_steps(next_level(level), idx / 2)
    }
}

/// The root a proof leads to from its leaf.
pub open spec fn proof_root(p: ProofView) -> Seq<u8> {
    apply_steps(leaf_digest(p.leaf), zip_steps(p.path, p.indices))
}

/// The leaf hashes of a circle's verified contributions, in commit order.
pub open spec fn circle_hashes(records: Seq<RecordView>, circle_id: u64) -> Seq<Seq<u8>>
    decreases records.len(),
{
    if records.len() == 0 {
        Seq::empty()
    } else {
        let r = records.last();
        let rest = circle_hashes(records.drop_last(), circle_id);
        if r.leaf.circle_id == circle_id && r.verified { rest.push(r.leaf_hash) } else { rest }
    }
}

/// Position in its circle's tree of the record at `idx`: the number of the
/// circle's records before it.
pub open spec fn circle_position(records: Seq<RecordView>, idx: int) -> nat {
    circle_hashes(records.subrange(0, idx), records[idx].leaf.circle_id).len()
}

/// A pending transaction of this member, circle, amount and rounds.
pub open spec fn is_twin(t: TransactionView, user: AccountId, circle_id: u64, amount: u64, rounds: u32) -> bool {
    t.state == TransactionState::Pending && t.user == user && t.circle_id == circle_id && t.amount == amount
        && t.rounds == rounds
}

/// Index of the transaction stored under `id` (the last entry with that id),
/// or -1.
pub open spec fn tx_index(txs: Seq<TransactionView>, id: Seq<u8>) -> int
    decreases txs.len(),
{
    if txs.len() == 0 {
        -1
    } else if txs.last().tx_id == id {
        txs.len() - 1
    } else {
        tx_index(txs.drop_last(), id)
    }
}

/// A record is a verified contribution to the circle.
pub open spec fn in_circle(r: RecordView, circle_id: u64) -> bool {
    r.leaf.circle_id == circle_id && r.verified
}

/// A record holds the hash of its leaf and is verified.
pub open spec fn record_ok(r: RecordView) -> bool {
    r.leaf_hash == leaf_digest(r.leaf) && r.verified
}

/// Whether a record is a user's contribution to a circle in a round.
pub open spec fn record_matches(r: RecordView, user: AccountId, circle_id: u64, round: u32) -> bool {
    r.leaf.user == user && r.leaf.circle_id == circle_id && r.leaf.round == round
}

/// Index of the first record of a user's contribution to a circle in a
/// round, or -1.
pub open spec fn first_record(records: Seq<RecordView>, user: AccountId, circle_id: u64, round: u32) -> int
    decreases records.len(),
{
    if records.len() == 0 {
        -1
    } else {
        let f = first_record(records.drop_last(), user, circle_id, round);
        if f >= 0 {
            f
        } else if record_matches(records.last(), user, circle_id, round) {
            records.len() - 1
        } else {
            -1
        }
    }
}

// --- lemmas on the tree ---

proof fn lemma_next_level_shorter(level: Seq<Seq<u8>>)
    requires
        level.len() >= 2,
    ensures
        next_level(level).len() < level.len(),
        next_level(level).len() >= 1,
{
}

proof fn lemma_apply_first_step(h: Seq<u8>, x: (Seq<u8>, bool), rest: Seq<(Seq<u8>, bool)>)
    ensures
        apply_steps(h, seq![x] + rest) == apply_steps(apply_step(h, x), rest),
{
    assert((seq![x] + rest).drop_first() =~= rest);
    assert((seq![x] + rest)[0] == x);
}

/// Rebuilding from the node at `idx` along its proof steps gives the root.
pub proof fn lemma_proof_steps_rebuild_root(level: Seq<Seq<u8>>, idx: nat)
    requires
        idx < level.len(),
    ensures
        apply_steps(level[idx as int], proof_steps(level, idx)) == merkle_root(level),
    decreases level.len(),
{
    if level.len() <= 1 {
        assert(proof_steps(level, idx) =~= Seq::<(Seq<u8>, bool)>::empty());
    } else {
        let next = next_level(level);
        lemma_next_level_shorter(level);
        let is_right = idx % 2 == 1;
        let sibling: int = if is_right { idx - 1 } else { idx + 1int };
        let k: int = (idx / 2) as int;
        let step = if sibling < level.len() { (level[sibling], is_right) } else { (level[idx as int], false) };
        assert(apply_step(level[idx as int], step) == next[k]) by {
            if is_right {
                assert(2 * k == idx - 1);
            } else {
                assert(2 * k == idx);
            }
        }
        let rest = proof_steps(next, idx / 2);
        assert(proof_steps(level, idx) =~= seq![step] + rest);
        lemma_apply_first_step(level[idx as int], step, rest);
        lemma_proof_steps_rebuild_root(next, idx / 2);
    }
}

proof fn lemma_circle_hashes_push(records: Seq<RecordView>, r: RecordView, circle_id: u64)
    ensures
        circle_hashes(records.push(r), circle_id) == (if r.leaf.circle_id == circle_id && r.verified {
            circle_hashes(records, circle_id).push(r.leaf_hash)
        } else {
            circle_hashes(records, circle_id)
        }),
{
    assert(records.push(r).drop_last() =~= records);
}

proof fn lemma_tx_index_step(txs: Seq<TransactionView>, id: Seq<u8>, i: int)
    requires
        0 <= i < txs.len(),
    ensures
        tx_index(txs.subrange(0, i + 1), id) == (if txs[i].tx_id == id { i } else { tx_index(txs.subrange(0, i), id) }),
{
    assert(txs.subrange(0, i + 1).drop_last() =~= txs.subrange(0, i));
}

proof fn lemma_first_record_step(records: Seq<RecordView>, user: AccountId, circle_id: u64, round: u32, i: int)
    requires
        0 <= i < records.len(),
        first_record(records.subrange(0, i), user, circle_id, round) == -1,
    ensures
        first_record(records.subrange(0, i + 1), user, circle_id, round)
            == (if record_matches(records[i], user, circle_id, round) { i } else { -1 }),
{
    assert(records.subrange(0, i + 1).drop_last() =~= records.subrange(0, i));
}

proof fn lemma_first_record_prefix(records: Seq<RecordView>, user: AccountId, circle_id: u64, round: u32, i: int)
    requires
        0 <= i <= records.len(),
        first_record(records.subrange(0, i), user, circle_id, round) >= 0,
    ensures
        first_record(records, user, circle_id, round) == first_record(records.subrange(0, i), user, circle_id, round),
    decreases records.len() - i,
{
    if i == records.len() {
        assert(records.subrange(0, i) =~= records);
    } else {
        assert(records.subrange(0, i + 1).drop_last() =~= records.subrange(0, i));
        lemma_first_record_prefix(records, user, circle_id, round, i + 1);
    }
}

proof fn lemma_first_record_facts(records: Seq<RecordView>, user: AccountId, circle_id: u64, round: u32)
    ensures
        -1 <= first_record(records, user, circle_id, round) < records.len(),
        first_record(records, user, circle_id, round) >= 0 ==> record_matches(
            records[first_record(records, user, circle_id, round)], user, circle_id, round),
    decreases records.len(),
{
    if records.len() > 0 {
        lemma_first_record_facts(records.drop_last(), user, circle_id, round);
    }
}

// --- executable tree operations ---

fn leaf_encoding(leaf: &ContributionLeaf) -> (r: Vec<u8>)
    ensures
        r@ == leaf_bytes(*leaf),
{
    let mut v: Vec<u8> = Vec::new();
    push_ascii_decimal(&mut v, leaf.user);
    push_le(&mut v, leaf.circle_id as u128, 8);
    push_le(&mut v, leaf.amount as u128, 8);
    push_le(&mut v, leaf.round as u128, 4);
    push_le(&mut v, leaf.timestamp as u128, 8);
    push_le(&mut v, leaf.nonce as u128, 8);
    assert(v@ =~= leaf_bytes(*leaf));
    v
}

fn hash_contribution_leaf(leaf: &ContributionLeaf) -> (r: Vec<u8>)
    ensures
        r@ == leaf_digest(*leaf),
{
    let bytes = leaf_encoding(leaf);
    sha256_of(&bytes)
}

fn generate_transaction_id(user: AccountId, circle_id: u64, counter: u64, now: u64) -> (r: Vec<u8>)
    ensures
        r@ == transaction_id(user, circle_id, counter, now),
{
    let mut v: Vec<u8> = Vec::new();
    push_ascii_decimal(&mut v, user);
    push_le(&mut v, circle_id as u128, 8);
    push_le(&mut v, counter as u128, 8);
    push_le(&mut v, now as u128, 8);
    assert(v@ =~= ascii_decimal(user as nat) + le_bytes(circle_id as nat, 8) + le_bytes(counter as nat, 8)
        + le_bytes(now as nat, 8));
    sha256_of(&v)
}

fn hash_pair(left: &Vec<u8>, right: &Vec<u8>) -> (r: Vec<u8>)
    ensures
        r@ == node_digest(left@, right@),
{
    let mut v = copy_bytes(left);
    append_bytes(&mut v, right);
    sha256_of(&v)
}

fn build_next_level(level: &Vec<Vec<u8>>) -> (r: Vec<Vec<u8>>)
    ensures
        deep(r@) == next_level(deep(level@)),
{
    let ghost lv = deep(level@);
    let n: usize = level.len();
    let half: usize = n / 2 + n % 2;
    let mut next: Vec<Vec<u8>> = Vec::new();
    let mut j: usize = 0;
    while j < half
        invariant
            lv == deep(level@),
            n == level.len(),
            half == (n + 1) / 2,
            j <= half,
            next.len() == j,
            forall|k: int| 0 <= k < j ==> #[trigger] next@[k]@ == pair_digest(lv, k),
        decreases half - j,
    {
        let left = &level[2 * j];
        let h = if 2 * j + 1 < n { hash_pair(left, &level[2 * j + 1]) } else { hash_pair(left, left) };
        next.push(h);
        j = j + 1;
    }
    assert(deep(next@) =~= next_level(lv));
    next
}

fn copy_level(level: &Vec<Vec<u8>>) -> (r: Vec<Vec<u8>>)
    ensures
        deep(r@) == deep(level@),
{
    let mut out: Vec<Vec<u8>> = Vec::new();
    let mut i: usize = 0;
    while i < level.len()
        invariant
            i <= level.len(),
            out.len() == i,
            forall|k: int| 0 <= k < i ==> #[trigger] out@[k]@ == level@[k]@,
        decreases level.len() - i,
    {
        out.push(copy_bytes(&level[i]));
        i = i + 1;
    }
    assert(deep(out@) =~= deep(level@));
    out
}

fn build_merkle_root(hashes: &Vec<Vec<u8>>) -> (r: Vec<u8>)
    requires
        hashes.len() >= 1,
    ensures
        r@ == merkle_root(deep(hashes@)),
{
    let mut current = copy_level(hashes);
    assert(current.len() == deep(current@).len() && hashes.len() == deep(hashes@).len());
    while current.len() > 1
        invariant
            current.len() >= 1,
            merkle_root(deep(current@)) == merkle_root(deep(hashes@)),
        decreases current.len(),
    {
        let next = build_next_level(&current);
        proof {
            lemma_next_level_shorter(deep(current@));
            assert(next.len() == deep(next@).len() && current.len() == deep(current@).len());
        }
        current = next;
    }
    copy_bytes(&current[0])
}

/// The root a proof's steps lead to from `leaf_hash`.
fn compute_merkle_root_from_proof(leaf_hash: &Vec<u8>, proof_path: &Vec<Vec<u8>>, proof_indices: &Vec<bool>) -> (r: Vec<u8>)
    ensures
        r@ == apply_steps(leaf_hash@, zip_steps(deep(proof_path@), proof_indices@)),
{
    let ghost steps = zip_steps(deep(proof_path@), proof_indices@);
    let mut current = copy_bytes(leaf_hash);
    let mut i: usize = 0;
    assert(steps.skip(0) =~= steps);
    while i < proof_path.len()
        invariant
            steps == zip_steps(deep(proof_path@), proof_indices@),
            i <= proof_path.len(),
            apply_steps(current@, steps.skip(i as int)) == apply_steps(leaf_hash@, steps),
        decreases proof_path.len() - i,
    {
        let is_right: bool = if i < proof_indices.len() { proof_indices[i] } else { false };
        let sibling = &proof_path[i];
        let next = if is_right { hash_pair(sibling, &current) } else { hash_pair(&current, sibling) };
        proof {
            assert(steps.skip(i as int)[0] == steps[i as int]);
            assert(steps.skip(i as int).drop_first() =~= steps.skip(i + 1));
        }
        current = next;
        i = i + 1;
    }
    assert(steps.skip(i as int) =~= Seq::<(Seq<u8>, bool)>::empty());
    current
}

/// Contribution-security storage: transactions by id, contribution records
/// in commit order, the Merkle root of each circle, per-member nonces, and
/// the circle and member counters this module snapshots and restores.
pub struct ContributionSecurity {
    pub transactions: Vec<ContributionTransaction>,
    pub transaction_counter: u64,
    pub records: Vec<ContributionRecord>,
    pub merkle_roots: BTreeMap<u64, Vec<u8>>,
    pub nonces: BTreeMap<(AccountId, u64), u64>,
    pub circle_bitmaps: BTreeMap<u64, u64>,
    pub member_contribution_counts: BTreeMap<AccountId, u32>,
}

impl ContributionSecurity {
    /// The stored transactions.
    pub open spec fn txs(&self) -> Seq<TransactionView> {
        self.transactions@.map_values(|t: ContributionTransaction| t@)
    }

    /// The stored contribution records.
    pub open spec fn recs(&self) -> Seq<RecordView> {
        self.records@.map_values(|r: ContributionRecord| r@)
    }

    /// The transaction stored under `id` is pending.
    pub open spec fn is_active(&self, id: Seq<u8>) -> bool {
        tx_index(self.txs(), id) >= 0 && self.txs()[tx_index(self.txs(), id)].state == TransactionState::Pending
    }

    /// A transaction is stored under `id`.
    pub open spec fn has_tx(&self, id: Seq<u8>) -> bool {
        tx_index(self.txs(), id) >= 0
    }

    /// A pending transaction of the same member, circle, amount and rounds
    /// exists: starting another one would spend the contribution twice.
    pub open spec fn has_pending_twin(&self, user: AccountId, circle_id: u64, amount: u64, rounds: u32) -> bool {
        exists|i: int| 0 <= i < self.txs().len() && #[trigger] is_twin(self.txs()[i], user, circle_id, amount, rounds)
    }

    /// The transaction `start_contribution_transaction` records: pending,
    /// with the circle's bitmap and the member's count at the start.
    pub open spec fn snapshot(&self, user: AccountId, circle_id: u64, amount: u64, rounds: u32, now: u64) -> TransactionView {
        TransactionView {
            tx_id: transaction_id(user, circle_id, self.transaction_counter, now), user, circle_id, amount, rounds,
            state: TransactionState::Pending, created_at: now, finalized_at: None,
            previous_bitmap: self.circle_bitmaps@[circle_id],
            previous_count: self.member_contribution_counts@[user],
        }
    }

    /// The circle bitmaps and member counts after rolling `t` back.
    pub open spec fn restored(&self, t: TransactionView) -> (Map<u64, u64>, Map<AccountId, u32>) {
        (self.circle_bitmaps@.insert(t.circle_id, t.previous_bitmap),
            self.member_contribution_counts@.insert(t.user, t.previous_count))
    }

    /// `after` is this storage once a transaction of `user` for `amount` over
    /// `rounds` in the circle was started at `now`: the snapshot is stored
    /// under its id (replacing a finished transaction of that id) and the
    /// transaction counter advances; nothing else changes.
    pub open spec fn started(&self, after: Self, user: AccountId, circle_id: u64, amount: u64, rounds: u32, now: u64) -> bool {
        let t = self.snapshot(user, circle_id, amount, rounds, now);
        let i = tx_index(self.txs(), t.tx_id);
        &&& after.txs() == (if i >= 0 { self.txs().update(i, t) } else { self.txs().push(t) })
        &&& after.transaction_counter == self.transaction_counter + 1
        &&& after.records == self.records
        &&& after.merkle_roots == self.merkle_roots
        &&& after.nonces == self.nonces
        &&& after.circle_bitmaps == self.circle_bitmaps
        &&& after.member_contribution_counts == self.member_contribution_counts
    }

    /// `after` is this storage once the transaction stored under `id` was
    /// rolled back at `now`: its circle's bitmap and its member's count are
    /// restored from the transaction, which is marked rolled back; nothing
    /// else changes.
    pub open spec fn rolled_back(&self, after: Self, id: Seq<u8>, now: u64) -> bool {
        let i = tx_index(self.txs(), id);
        let t = self.txs()[i];
        &&& after.circle_bitmaps@ == self.restored(t).0
        &&& after.member_contribution_counts@ == self.restored(t).1
        &&& after.txs() == self.txs().update(i, TransactionView {
            state: TransactionState::RolledBack, finalized_at: Some(now), ..t })
        &&& after.records == self.records
        &&& after.merkle_roots == self.merkle_roots
        &&& after.nonces == self.nonces
        &&& after.transaction_counter == self.transaction_counter
    }

    /// A member's contribution nonce in a circle (zero when none is stored).
    pub open spec fn nonce_of(&self, user: AccountId, circle_id: u64) -> u64 {
        if self.nonces@.contains_key((user, circle_id)) { self.nonces@[(user, circle_id)] } else { 0 }
    }

    /// Every record holds the hash of its leaf and is verified, and each
    /// circle with contributions has its tree's root stored.
    pub open spec fn wf(&self) -> bool {
        &&& forall|k: int| 0 <= k < self.recs().len() ==> record_ok(#[trigger] self.recs()[k])
        &&& forall|c: u64| #[trigger] circle_hashes(self.recs(), c).len() > 0 ==> self.merkle_roots@.contains_key(c)
        &&& forall|c: u64| #[trigger] self.merkle_roots@.contains_key(c) ==> circle_hashes(self.recs(), c).len() > 0
            && self.merkle_roots@[c]@ == merkle_root(circle_hashes(self.recs(), c))
    }

    /// The proof `generate_contribution_proof` returns for the contribution
    /// found at `idx`: the path of its leaf, at its position in its circle's
    /// tree.
    pub open spec fn proof_at(&self, idx: int) -> ProofView {
        let leaf = self.recs()[idx].leaf;
        let steps = proof_steps(circle_hashes(self.recs(), leaf.circle_id), circle_position(self.recs(), idx));
        ProofView {
            root: self.merkle_roots@[leaf.circle_id]@,
            leaf,
            path: steps.map_values(|s: (Seq<u8>, bool)| s.0),
            indices: steps.map_values(|s: (Seq<u8>, bool)| s.1),
        }
    }

    /// Empty storage.
    pub fn new() -> (r: Self)
        ensures
            r.wf(),
            r.txs() == Seq::<TransactionView>::empty(),
            r.transaction_counter == 0,
            r.recs() == Seq::<RecordView>::empty(),
            r.merkle_roots@ == Map::<u64, Vec<u8>>::empty(),
            r.nonces@ == Map::<(AccountId, u64), u64>::empty(),
            r.circle_bitmaps@ == Map::<u64, u64>::empty(),
            r.member_contribution_counts@ == Map::<AccountId, u32>::empty(),
    {
        let r = ContributionSecurity {
            transactions: Vec::new(),
            transaction_counter: 0,
            records: Vec::new(),
            merkle_roots: BTreeMap::new(),
            nonces: BTreeMap::new(),
            circle_bitmaps: BTreeMap::new(),
            member_contribution_counts: BTreeMap::new(),
        };
        assert(r.txs() =~= Seq::<TransactionView>::empty());
        assert(r.recs() =~= Seq::<RecordView>::empty());
        assert forall|c: u64| #[trigger] circle_hashes(r.recs(), c).len() == 0 by {}
        r
    }

    fn find_transaction(&self, tx_id: &Vec<u8>) -> (r: Option<usize>)
        ensures
            r is None ==> tx_index(self.txs(), tx_id@) == -1,
            r matches Some(i) ==> i == tx_index(self.txs(), tx_id@) && i < self.transactions.len(),
    {
        let mut found: Option<usize> = None;
        let mut i: usize = 0;
        while i < self.transactions.len()
            invariant
                i <= self.transactions.len(),
                found is None ==> tx_index(self.txs().subrange(0, i as int), tx_id@) == -1,
                found matches Some(f) ==> f == tx_index(self.txs().subrange(0, i as int), tx_id@) && f < i,
            decreases self.transactions.len() - i,
        {
            proof {
                lemma_tx_index_step(self.txs(), tx_id@, i as int);
            }
            if bytes_eq(&self.transactions[i].tx_id, tx_id) {
                found = Some(i);
            }
            i = i + 1;
        }
        assert(self.txs().subrange(0, i as int) =~= self.txs());
        found
    }

    /// Starts an atomic contribution of `amount` per round for `rounds`
    /// rounds, snapshotting the circle's contribution bitmap and the member's
    /// contribution count for a rollback. Returns the transaction id, the
    /// hash of the member, the circle, the transaction counter and the time.
    /// Refused as a double spend while the same member has a pending
    /// transaction of the same amount and rounds in the circle (or one under
    /// the same id).
    pub fn start_contribution_transaction(
        &mut self,
        user: AccountId,
        circle_id: u64,
        amount: u64,
        rounds: u32,
        now: u64,
    ) -> (r: Result<Vec<u8>, ContributionSecurityError>)
        requires
            old(self).wf(),
            old(self).transaction_counter < u64::MAX,
        ensures
            final(self).wf(),
            ({
                let id = transaction_id(user, circle_id, old(self).transaction_counter, now);
                let twin = old(self).is_active(id) || old(self).has_pending_twin(user, circle_id, amount, rounds);
                &&& twin ==> r == Err::<Vec<u8>, ContributionSecurityError>(
                    ContributionSecurityError::DoubleSpendAttempt)
                &&& !twin && !old(self).circle_bitmaps@.contains_key(circle_id)
                    ==> r == Err::<Vec<u8>, ContributionSecurityError>(ContributionSecurityError::ContributionNotFound)
                &&& !twin && old(self).circle_bitmaps@.contains_key(circle_id)
                    && !old(self).member_contribution_counts@.contains_key(user)
                    ==> r == Err::<Vec<u8>, ContributionSecurityError>(ContributionSecurityError::ContributionNotFound)
                &&& r is Err ==> *final(self) == *old(self)
                &&& !twin && old(self).circle_bitmaps@.contains_key(circle_id)
                    && old(self).member_contribution_counts@.contains_key(user) ==> {
                    &&& (r matches Ok(v) && v@ == id)
                    &&& old(self).started(*final(self), user, circle_id, amount, rounds, now)
                }
            }),
    {
        let tx_id = generate_transaction_id(user, circle_id, self.transaction_counter, now);
        let found = self.find_transaction(&tx_id);
        if let Some(i) = found {
            if self.transactions[i].state == TransactionState::Pending {
                return Err(ContributionSecurityError::DoubleSpendAttempt);
            }
        }
        if self.find_pending_twin(user, circle_id, amount, rounds) {
            return Err(ContributionSecurityError::DoubleSpendAttempt);
        }
        let previous_bitmap: u64 = match self.circle_bitmaps.get(&circle_id) {
            Some(b) => *b,
            None => { return Err(ContributionSecurityError::ContributionNotFound); },
        };
        let previous_count: u32 = match self.member_contribution_counts.get(&user) {
            Some(c) => *c,
            None => { return Err(ContributionSecurityError::ContributionNotFound); },
        };
        let transaction = ContributionTransaction {
            tx_id: copy_bytes(&tx_id),
            user,
            circle_id,
            amount,
            rounds,
            state: TransactionState::Pending,
            created_at: now,
            finalized_at: None,
            previous_bitmap,
            previous_count,
        };
        let ghost t = transaction@;
        match found {
            Some(i) => {
                self.transactions.set(i, transaction);
                assert(self.txs() =~= old(self).txs().update(i as int, t));
            },
            None => {
                self.transactions.push(transaction);
                assert(self.txs() =~= old(self).txs().push(t));
            },
        }
        self.transaction_counter = self.transaction_counter + 1;
        assert(self.recs() =~= old(self).recs());
        Ok(tx_id)
    }

    fn find_pending_twin(&self, user: AccountId, circle_id: u64, amount: u64, rounds: u32) -> (r: bool)
        ensures
            r == self.has_pending_twin(user, circle_id, amount, rounds),
    {
        let mut i: usize = 0;
        while i < self.transactions.len()
            invariant
                i <= self.transactions.len(),
                forall|j: int| 0 <= j < i ==> !is_twin(#[trigger] self.txs()[j], user, circle_id, amount, rounds),
            decreases self.transactions.len() - i,
        {
            let t = &self.transactions[i];
            if t.state == TransactionState::Pending && t.user == user && t.circle_id == circle_id && t.amount == amount
                && t.rounds == rounds {
                assert(is_twin(self.txs()[i as int], user, circle_id, amount, rounds));
                return true;
            }
            i = i + 1;
        }
        false
    }

    fn collect_circle_hashes(&self, circle_id: u64) -> (r: Vec<Vec<u8>>)
        ensures
            deep(r@) == circle_hashes(self.recs(), circle_id),
    {
        let mut out: Vec<Vec<u8>> = Vec::new();
        let mut i: usize = 0;
        while i < self.records.len()
            invariant
                i <= self.records.len(),
                deep(out@) == circle_hashes(self.recs().subrange(0, i as int), circle_id),
            decreases self.records.len() - i,
        {
            proof {
                assert(self.recs().subrange(0, i + 1) =~= self.recs().subrange(0, i as int).push(self.recs()[i as int]));
                lemma_circle_hashes_push(self.recs().subrange(0, i as int), self.recs()[i as int], circle_id);
            }
            let rec = &self.records[i];
            if rec.leaf.circle_id == circle_id && rec.verified {
                let ghost before = out@;
                out.push(copy_bytes(&rec.leaf_hash));
                assert(deep(out@) =~= deep(before).push(rec.leaf_hash@));
            }
            i = i + 1;
        }
        assert(self.recs().subrange(0, i as int) =~= self.recs());
        out
    }

    /// Commits a pending transaction: records the contribution as a new leaf
    /// with the member's next nonce and rebuilds the circle's Merkle root.
    /// Refused for an unknown transaction and for one no longer pending.
    pub fn commit_contribution_transaction(&mut self, tx_id: &Vec<u8>, now: u64) -> (r: Result<(), ContributionSecurityError>)
        requires
            old(self).wf(),
            old(self).is_active(tx_id@) ==> {
                let t = old(self).txs()[tx_index(old(self).txs(), tx_id@)];
                old(self).nonce_of(t.user, t.circle_id) < u64::MAX
            },
        ensures
            final(self).wf(),
            !old(self).has_tx(tx_id@) ==> r == Err::<(), ContributionSecurityError>(
                ContributionSecurityError::ContributionNotFound),
            old(self).has_tx(tx_id@) && !old(self).is_active(tx_id@) ==> r == Err::<(), ContributionSecurityError>(
                ContributionSecurityError::InvalidTransactionState),
            r is Err ==> *final(self) == *old(self),
            old(self).is_active(tx_id@) ==> {
                let i = tx_index(old(self).txs(), tx_id@);
                let t = old(self).txs()[i];
                let nonce = old(self).nonce_of(t.user, t.circle_id);
                let leaf = ContributionLeaf {
                    user: t.user, circle_id: t.circle_id, amount: t.amount, round: 0,
                    timestamp: t.created_at, nonce,
                };
                let recs = old(self).recs().push(RecordView { leaf, leaf_hash: leaf_digest(leaf), verified: true });
                &&& r is Ok
                &&& final(self).txs() == old(self).txs().update(i, TransactionView {
                    state: TransactionState::Committed, finalized_at: Some(now), ..t })
                &&& final(self).recs() == recs
                &&& final(self).nonces@ == old(self).nonces@.insert((t.user, t.circle_id), (nonce + 1) as u64)
                &&& final(self).merkle_roots@.dom() == old(self).merkle_roots@.dom().insert(t.circle_id)
                &&& final(self).merkle_roots@[t.circle_id]@ == merkle_root(circle_hashes(recs, t.circle_id))
                &&& forall|c: u64| c != t.circle_id && #[trigger] old(self).merkle_roots@.contains_key(c)
                    ==> final(self).merkle_roots@[c] == old(self).merkle_roots@[c]
                &&& final(self).transaction_counter == old(self).transaction_counter
                &&& final(self).circle_bitmaps == old(self).circle_bitmaps
                &&& final(self).member_contribution_counts == old(self).member_contribution_counts
            },
    {
        let i = match self.find_transaction(tx_id) {
            Some(i) => i,
            None => { return Err(ContributionSecurityError::ContributionNotFound); },
        };
        if self.transactions[i].state != TransactionState::Pending {
            return Err(ContributionSecurityError::InvalidTransactionState);
        }
        let ghost t = self.txs()[i as int];
        let user = self.transactions[i].user;
        let circle_id = self.transactions[i].circle_id;
        let amount = self.transactions[i].amount;
        let created_at = self.transactions[i].created_at;
        let committed = ContributionTransaction {
            tx_id: copy_bytes(&self.transactions[i].tx_id),
            user,
            circle_id,
            amount,
            rounds: self.transactions[i].rounds,
            state: TransactionState::Committed,
            created_at,
            finalized_at: Some(now),
            previous_bitmap: self.transactions[i].previous_bitmap,
            previous_count: self.transactions[i].previous_count,
        };
        self.transactions.set(i, committed);
        assert(self.txs() =~= old(self).txs().update(i as int, TransactionView {
            state: TransactionState::Committed, finalized_at: Some(now), ..t }));
        let nonce: u64 = match self.nonces.get(&(user, circle_id)) {
            Some(n) => *n,
            None => 0,
        };
        let leaf = ContributionLeaf { user, circle_id, amount, round: 0, timestamp: created_at, nonce };
        let leaf_hash = hash_contribution_leaf(&leaf);
        let ghost old_recs = self.recs();
        assert(old_recs =~= old(self).recs());
        self.records.push(ContributionRecord { leaf, leaf_hash, verified: true });
        let ghost rv = RecordView { leaf, leaf_hash: leaf_digest(leaf), verified: true };
        assert(self.recs() =~= old_recs.push(rv));
        self.nonces.insert((user, circle_id), nonce + 1);
        let hashes = self.collect_circle_hashes(circle_id);
        proof {
            lemma_circle_hashes_push(old_recs, rv, circle_id);
            assert(hashes.len() == deep(hashes@).len());
        }
        let root = build_merkle_root(&hashes);
        self.merkle_roots.insert(circle_id, root);
        proof {
            assert forall|c: u64| c != circle_id implies #[trigger] circle_hashes(self.recs(), c)
                == circle_hashes(old_recs, c) by {
                lemma_circle_hashes_push(old_recs, rv, c);
            }
            assert(self.merkle_roots@.dom() =~= old(self).merkle_roots@.dom().insert(circle_id));
            assert forall|k: int| 0 <= k < self.recs().len() implies record_ok(#[trigger] self.recs()[k]) by {
                if k < old_recs.len() {
                    assert(self.recs()[k] == old_recs[k]);
                    assert(record_ok(old(self).recs()[k]));
                } else {
                    assert(self.recs()[k] == rv);
                }
            }
            assert forall|c: u64| #[trigger] circle_hashes(self.recs(), c).len() > 0 implies self.merkle_roots@.contains_key(c) by {
                lemma_circle_hashes_push(old_recs, rv, c);
                if c != circle_id {
                    assert(circle_hashes(old(self).recs(), c).len() > 0);
                }
            }
            assert forall|c: u64| #[trigger] self.merkle_roots@.contains_key(c) implies circle_hashes(self.recs(), c).len() > 0
                && self.merkle_roots@[c]@ == merkle_root(circle_hashes(self.recs(), c)) by {
                lemma_circle_hashes_push(old_recs, rv, c);
                if c != circle_id {
                    assert(old(self).merkle_roots@.contains_key(c));
                }
            }
        }
        Ok(())
    }

    /// Rolls a pending transaction back: restores the circle's contribution
    /// bitmap and the member's contribution count and returns the amount to
    /// refund to the member (`amount * rounds`). A transaction that is no
    /// longer pending is refused as already committed.
    pub fn rollback_contribution_transaction(&mut self, tx_id: &Vec<u8>, now: u64) -> (r: Result<u64, ContributionSecurityError>)
        requires
            old(self).wf(),
        ensures
            final(self).wf(),
            r is Err ==> *final(self) == *old(self),
            !old(self).has_tx(tx_id@) ==> r == Err::<u64, ContributionSecurityError>(
                ContributionSecurityError::ContributionNotFound),
            old(self).has_tx(tx_id@) && !old(self).is_active(tx_id@) ==> r == Err::<u64, ContributionSecurityError>(
                ContributionSecurityError::TransactionAlreadyCommitted),
            old(self).is_active(tx_id@) ==> {
                let i = tx_index(old(self).txs(), tx_id@);
                let t = old(self).txs()[i];
                &&& !old(self).circle_bitmaps@.contains_key(t.circle_id) ==> r == Err::<u64, ContributionSecurityError>(
                    ContributionSecurityError::ContributionNotFound)
                &&& old(self).circle_bitmaps@.contains_key(t.circle_id)
                    && !old(self).member_contribution_counts@.contains_key(t.user)
                    ==> r == Err::<u64, ContributionSecurityError>(ContributionSecurityError::ContributionNotFound)
                &&& old(self).circle_bitmaps@.contains_key(t.circle_id)
                    && old(self).member_contribution_counts@.contains_key(t.user)
                    && t.amount * t.rounds > u64::MAX
                    ==> r == Err::<u64, ContributionSecurityError>(ContributionSecurityError::InsufficientRollbackBalance)
                &&& old(self).circle_bitmaps@.contains_key(t.circle_id)
                    && old(self).member_contribution_counts@.contains_key(t.user)
                    && t.amount * t.rounds <= u64::MAX ==> {
                    &&& r == Ok::<u64, ContributionSecurityError>((t.amount * t.rounds) as u64)
                    &&& old(self).rolled_back(*final(self), tx_id@, now)
                }
            },
    {
        let i = match self.find_transaction(tx_id) {
            Some(i) => i,
            None => { return Err(ContributionSecurityError::ContributionNotFound); },
        };
        if self.transactions[i].state != TransactionState::Pending {
            return Err(ContributionSecurityError::TransactionAlreadyCommitted);
        }
        let ghost t = self.txs()[i as int];
        let user = self.transactions[i].user;
        let circle_id = self.transactions[i].circle_id;
        if !self.circle_bitmaps.contains_key(&circle_id) {
            return Err(ContributionSecurityError::ContributionNotFound);
        }
        if !self.member_contribution_counts.contains_key(&user) {
            return Err(ContributionSecurityError::ContributionNotFound);
        }
        let refund: u64 = match self.transactions[i].amount.checked_mul(self.transactions[i].rounds as u64) {
            Some(v) => v,
            None => { return Err(ContributionSecurityError::InsufficientRollbackBalance); },
        };
        self.circle_bitmaps.insert(circle_id, self.transactions[i].previous_bitmap);
        self.member_contribution_counts.insert(user, self.transactions[i].previous_count);
        let rolled_back = ContributionTransaction {
            tx_id: copy_bytes(&self.transactions[i].tx_id),
            user,
            circle_id,
            amount: self.transactions[i].amount,
            rounds: self.transactions[i].rounds,
            state: TransactionState::RolledBack,
            created_at: self.transactions[i].created_at,
            finalized_at: Some(now),
            previous_bitmap: self.transactions[i].previous_bitmap,
            previous_count: self.transactions[i].previous_count,
        };
        self.transactions.set(i, rolled_back);
        assert(self.txs() =~= old(self).txs().update(i as int, TransactionView {
            state: TransactionState::RolledBack, finalized_at: Some(now), ..t }));
        assert(self.recs() =~= old(self).recs());
        Ok(refund)
    }

    /// The state of the transaction stored under `tx_id`, if any.
    pub fn get_transaction_state(&self, tx_id: &Vec<u8>) -> (r: Option<TransactionState>)
        ensures
            tx_index(self.txs(), tx_id@) < 0 ==> r is None,
            tx_index(self.txs(), tx_id@) >= 0 ==> r == Some(self.txs()[tx_index(self.txs(), tx_id@)].state),
    {
        match self.find_transaction(tx_id) {
            Some(i) => Some(self.transactions[i].state),
            None => None,
        }
    }

    fn find_first_record(&self, user: AccountId, circle_id: u64, round: u32) -> (r: Option<usize>)
        ensures
            r is None ==> first_record(self.recs(), user, circle_id, round) == -1,
            r matches Some(i) ==> i == first_record(self.recs(), user, circle_id, round),
    {
        let mut i: usize = 0;
        while i < self.records.len()
            invariant
                i <= self.records.len(),
                first_record(self.recs().subrange(0, i as int), user, circle_id, round) == -1,
            decreases self.records.len() - i,
        {
            proof {
                lemma_first_record_step(self.recs(), user, circle_id, round, i as int);
            }
            let leaf = self.records[i].leaf;
            if leaf.user == user && leaf.circle_id == circle_id && leaf.round == round {
                proof {
                    lemma_first_record_prefix(self.recs(), user, circle_id, round, i + 1);
                }
                return Some(i);
            }
            i = i + 1;
        }
        assert(self.recs().subrange(0, i as int) =~= self.recs());
        None
    }

    fn circle_position_of(&self, circle_id: u64, index: usize) -> (r: usize)
        requires
            index <= self.records.len(),
        ensures
            r == circle_hashes(self.recs().subrange(0, index as int), circle_id).len(),
    {
        let mut count: usize = 0;
        let mut i: usize = 0;
        while i < index
            invariant
                i <= index <= self.records.len(),
                count == circle_hashes(self.recs().subrange(0, i as int), circle_id).len(),
                count <= i,
            decreases index - i,
        {
            proof {
                assert(self.recs().subrange(0, i + 1) =~= self.recs().subrange(0, i as int).push(self.recs()[i as int]));
                lemma_circle_hashes_push(self.recs().subrange(0, i as int), self.recs()[i as int], circle_id);
            }
            if self.records[i].leaf.circle_id == circle_id && self.records[i].verified {
                count = count + 1;
            }
            i = i + 1;
        }
        count
    }

    fn generate_merkle_proof_path(&self, circle_id: u64, leaf_index: usize) -> (r: (Vec<Vec<u8>>, Vec<bool>))
        requires
            leaf_index < self.records.len(),
        ensures
            deep(r.0@) == proof_steps(circle_hashes(self.recs(), circle_id), leaf_index as nat).map_values(
                |s: (Seq<u8>, bool)| s.0),
            r.1@ == proof_steps(circle_hashes(self.recs(), circle_id), leaf_index as nat).map_values(
                |s: (Seq<u8>, bool)| s.1),
    {
        let ghost all = proof_steps(circle_hashes(self.recs(), circle_id), leaf_index as nat);
        let mut proof_path: Vec<Vec<u8>> = Vec::new();
        let mut proof_indices: Vec<bool> = Vec::new();
        let mut level = self.collect_circle_hashes(circle_id);
        let mut idx: usize = leaf_index;
        let ghost mut done: Seq<(Seq<u8>, bool)> = Seq::empty();
        while level.len() > 1
            invariant
                idx <= leaf_index,
                leaf_index < usize::MAX,
                done + proof_steps(deep(level@), idx as nat) == all,
                deep(proof_path@) == done.map_values(|s: (Seq<u8>, bool)| s.0),
                proof_indices@ == done.map_values(|s: (Seq<u8>, bool)| s.1),
            decreases level.len(),
        {
            let ghost lv = deep(level@);
            let is_right = idx % 2 == 1;
            let sibling: usize = if is_right { idx - 1 } else { idx + 1 };
            let ghost rest = proof_steps(next_level(lv), (idx / 2) as nat);
            if sibling < level.len() {
                let ghost step = (lv[sibling as int], is_right);
                let ghost old_path = proof_path@;
                let ghost old_indices = proof_indices@;
                proof_path.push(copy_bytes(&level[sibling]));
                proof_indices.push(is_right);
                proof {
                    assert(deep(proof_path@) =~= deep(old_path).push(step.0));
                    assert(done.push(step).map_values(|s: (Seq<u8>, bool)| s.0)
                        =~= done.map_values(|s: (Seq<u8>, bool)| s.0).push(step.0));
                    assert(done.push(step).map_values(|s: (Seq<u8>, bool)| s.1)
                        =~= done.map_values(|s: (Seq<u8>, bool)| s.1).push(step.1));
                    assert(proof_steps(lv, idx as nat) =~= seq![step] + rest);
                    assert(done + (seq![step] + rest) =~= done.push(step) + rest);
                    done = done.push(step);
                    assert(deep(proof_path@) =~= done.map_values(|s: (Seq<u8>, bool)| s.0));
                    assert(proof_indices@ =~= done.map_values(|s: (Seq<u8>, bool)| s.1));
                }
            } else if idx < level.len() {
                let ghost step = (lv[idx as int], false);
                let ghost old_path = proof_path@;
                proof_path.push(copy_bytes(&level[idx]));
                proof_indices.push(false);
                proof {
                    assert(deep(proof_path@) =~= deep(old_path).push(step.0));
                    assert(done.push(step).map_values(|s: (Seq<u8>, bool)| s.0)
                        =~= done.map_values(|s: (Seq<u8>, bool)| s.0).push(step.0));
                    assert(done.push(step).map_values(|s: (Seq<u8>, bool)| s.1)
                        =~= done.map_values(|s: (Seq<u8>, bool)| s.1).push(step.1));
                    assert(proof_steps(lv, idx as nat) =~= seq![step] + rest);
                    assert(done + (seq![step] + rest) =~= done.push(step) + rest);
                    done = done.push(step);
                    assert(deep(proof_path@) =~= done.map_values(|s: (Seq<u8>, bool)| s.0));
                    assert(proof_indices@ =~= done.map_values(|s: (Seq<u8>, bool)| s.1));
                }
            } else {
                proof {
                    assert(proof_steps(lv, idx as nat) =~= Seq::<(Seq<u8>, bool)>::empty() + rest);
                    assert(Seq::<(Seq<u8>, bool)>::empty() + rest =~= rest);
                }
            }
            idx = idx / 2;
            let next = build_next_level(&level);
            proof {
                lemma_next_level_shorter(lv);
            }
            level = next;
        }
        proof {
            assert(proof_steps(deep(level@), idx as nat) =~= Seq::<(Seq<u8>, bool)>::empty());
            assert(done + Seq::<(Seq<u8>, bool)>::empty() =~= done);
        }
        (proof_path, proof_indices)
    }

    /// An inclusion proof for a member's first recorded contribution to a
    /// circle in a round: the circle's root, the leaf, and the proof path
    /// of the leaf at its position in the circle's tree.
    pub fn generate_contribution_proof(&self, user: AccountId, circle_id: u64, round: u32)
        -> (r: Result<ContributionMerkleProof, ContributionSecurityError>)
        requires
            self.wf(),
        ensures
            first_record(self.recs(), user, circle_id, round) < 0 ==> r == Err::<ContributionMerkleProof,
                ContributionSecurityError>(ContributionSecurityError::ContributionNotFound),
            first_record(self.recs(), user, circle_id, round) >= 0 ==> (r matches Ok(p)
                && p@ == self.proof_at(first_record(self.recs(), user, circle_id, round))),
    {
        let index = match self.find_first_record(user, circle_id, round) {
            Some(i) => i,
            None => { return Err(ContributionSecurityError::ContributionNotFound); },
        };
        proof {
            lemma_first_record_facts(self.recs(), user, circle_id, round);
            let rv = self.recs()[index as int];
            lemma_circle_hashes_push(self.recs().subrange(0, index as int), rv, circle_id);
            assert(self.recs().subrange(0, index + 1) =~= self.recs().subrange(0, index as int).push(rv));
            lemma_circle_prefix_of(self.recs(), circle_id, index + 1);
            assert(record_ok(self.recs()[index as int]));
            assert(rv.leaf.circle_id == circle_id && rv.verified);
            assert(circle_hashes(self.recs().subrange(0, index + 1), circle_id).len() > 0);
            assert(circle_hashes(self.recs(), circle_id).len() > 0);
            assert(self.merkle_roots@.contains_key(circle_id));
        }
        let root = match self.merkle_roots.get(&circle_id) {
            Some(h) => copy_bytes(h),
            None => { return Err(ContributionSecurityError::ContributionNotFound); },
        };
        let leaf = self.records[index].leaf;
        let position = self.circle_position_of(circle_id, index);
        proof {
            lemma_circle_hashes_len(self.recs().subrange(0, index as int), circle_id);
        }
        let (proof_path, proof_indices) = self.generate_merkle_proof_path(circle_id, position);
        let p = ContributionMerkleProof { root, leaf, proof_path, proof_indices };
        Ok(p)
    }

    /// Whether a proof leads from its leaf to the root it claims.
    pub fn verify_contribution_proof(proof: &ContributionMerkleProof) -> (r: Result<bool, ContributionSecurityError>)
        ensures
            r == Ok::<bool, ContributionSecurityError>(proof_root(proof@) == proof@.root),
    {
        let leaf_hash = hash_contribution_leaf(&proof.leaf);
        let computed = compute_merkle_root_from_proof(&leaf_hash, &proof.proof_path, &proof.proof_indices);
        Ok(bytes_eq(&computed, &proof.root))
    }

    /// The Merkle root of a circle's contributions, if it has any.
    pub fn get_circle_merkle_root(&self, circle_id: u64) -> (r: Option<Vec<u8>>)
        ensures
            r is None <==> !self.merkle_roots@.contains_key(circle_id),
            r matches Some(h) ==> h@ == self.merkle_roots@[circle_id]@,
    {
        match self.merkle_roots.get(&circle_id) {
            Some(h) => Some(copy_bytes(h)),
            None => None,
        }
    }
}

/// The circle hashes of a prefix of the records are a prefix of the circle
/// hashes.
proof fn lemma_circle_prefix_of(records: Seq<RecordView>, circle_id: u64, m: int)
    requires
        0 <= m <= records.len(),
    ensures
        circle_hashes(records.subrange(0, m), circle_id).len() <= circle_hashes(records, circle_id).len(),
        forall|j: int| 0 <= j < circle_hashes(records.subrange(0, m), circle_id).len()
            ==> #[trigger] circle_hashes(records.subrange(0, m), circle_id)[j] == circle_hashes(records, circle_id)[j],
    decreases records.len() - m,
{
    if m < records.len() {
        lemma_circle_prefix_of(records, circle_id, m + 1);
        lemma_circle_hashes_push(records.subrange(0, m), records[m], circle_id);
        assert(records.subrange(0, m + 1) =~= records.subrange(0, m).push(records[m]));
        let sub = circle_hashes(records.subrange(0, m), circle_id);
        let sub1 = circle_hashes(records.subrange(0, m + 1), circle_id);
        assert forall|j: int| 0 <= j < sub.len() implies #[trigger] sub[j] == circle_hashes(records, circle_id)[j] by {
            assert(sub1[j] == sub[j]);
        }
    } else {
        assert(records.subrange(0, m) =~= records);
    }
}

proof fn lemma_circle_hashes_len(records: Seq<RecordView>, circle_id: u64)
    ensures
        circle_hashes(records, circle_id).len() <= records.len(),
    decreases records.len(),
{
    if records.len() > 0 {
        lemma_circle_hashes_len(records.drop_last(), circle_id);
    }
}

/// A generated inclusion proof always verifies: rebuilding from its leaf
/// along its path gives the root it carries, which is the circle's stored
/// root, the Merkle root of the circle's contributions.
pub proof fn law_generated_proof_verifies(s: ContributionSecurity, user: AccountId, circle_id: u64, round: u32)
    requires
        s.wf(),
        first_record(s.recs(), user, circle_id, round) >= 0,
    ensures
        proof_root(s.proof_at(first_record(s.recs(), user, circle_id, round)))
            == s.proof_at(first_record(s.recs(), user, circle_id, round)).root,
        s.merkle_roots@.contains_key(circle_id),
        s.proof_at(first_record(s.recs(), user, circle_id, round)).root == s.merkle_roots@[circle_id]@,
        s.merkle_roots@[circle_id]@ == merkle_root(circle_hashes(s.recs(), circle_id)),
{
    let recs = s.recs();
    let i = first_record(recs, user, circle_id, round);
    lemma_first_record_facts(recs, user, circle_id, round);
    let rv = recs[i];
    assert(record_ok(rv));
    let level = circle_hashes(recs, circle_id);
    let before = circle_hashes(recs.subrange(0, i), circle_id);
    let pos = circle_position(recs, i);
    assert(pos == before.len());
    lemma_circle_hashes_push(recs.subrange(0, i), rv, circle_id);
    assert(recs.subrange(0, i + 1) =~= recs.subrange(0, i).push(rv));
    lemma_circle_prefix_of(recs, circle_id, i + 1);
    let upto = circle_hashes(recs.subrange(0, i + 1), circle_id);
    assert(upto == before.push(rv.leaf_hash));
    assert(upto[pos as int] == rv.leaf_hash);
    assert(level[pos as int] == rv.leaf_hash);
    assert(rv.leaf_hash == leaf_digest(rv.leaf));
    let steps = proof_steps(level, pos);
    let p = s.proof_at(i);
    assert(zip_steps(p.path, p.indices) =~= steps);
    assert(s.merkle_roots@.contains_key(circle_id));
    lemma_proof_steps_rebuild_root(level, pos);
}


proof fn lemma_tx_index_bound(txs: Seq<TransactionView>, id: Seq<u8>)
    ensures
        -1 <= tx_index(txs, id) < txs.len(),
        tx_index(txs, id) >= 0 ==> txs[tx_index(txs, id)].tx_id == id,
    decreases txs.len(),
{
    if txs.len() > 0 && txs.last().tx_id != id {
        lemma_tx_index_bound(txs.drop_last(), id);
    }
}

proof fn lemma_tx_index_update(txs: Seq<TransactionView>, id: Seq<u8>, t: TransactionView)
    requires
        tx_index(txs, id) >= 0,
        t.tx_id == id,
    ensures
        tx_index(txs.update(tx_index(txs, id), t), id) == tx_index(txs, id),
    decreases txs.len(),
{
    let i = tx_index(txs, id);
    let u = txs.update(i, t);
    if txs.last().tx_id == id {
        assert(u.last() == t);
    } else {
        lemma_tx_index_bound(txs.drop_last(), id);
        assert(u.last() == txs.last());
        assert(u.drop_last() =~= txs.drop_last().update(i, t));
        lemma_tx_index_update(txs.drop_last(), id, t);
    }
}

/// Starting a contribution transaction and then rolling it back leaves the
/// circle bitmaps and the member contribution counts exactly as they were
/// before the start, and the transaction is kept, marked rolled back.
pub proof fn law_rollback_restores_snapshot(
    before: ContributionSecurity,
    pending: ContributionSecurity,
    after: ContributionSecurity,
    user: AccountId,
    circle_id: u64,
    amount: u64,
    rounds: u32,
    now: u64,
    later: u64,
)
    requires
        before.circle_bitmaps@.contains_key(circle_id),
        before.member_contribution_counts@.contains_key(user),
        before.started(pending, user, circle_id, amount, rounds, now),
        pending.rolled_back(after, transaction_id(user, circle_id, before.transaction_counter, now), later),
    ensures
        after.circle_bitmaps@ == before.circle_bitmaps@,
        after.member_contribution_counts@ == before.member_contribution_counts@,
        ({
            let id = transaction_id(user, circle_id, before.transaction_counter, now);
            let k = tx_index(after.txs(), id);
            &&& k >= 0
            &&& after.txs()[k] == TransactionView {
                state: TransactionState::RolledBack,
                finalized_at: Some(later),
                ..before.snapshot(user, circle_id, amount, rounds, now)
            }
        }),
{
    let t = before.snapshot(user, circle_id, amount, rounds, now);
    let id = t.tx_id;
    let i = tx_index(before.txs(), id);
    lemma_tx_index_bound(before.txs(), id);
    if i >= 0 {
        lemma_tx_index_update(before.txs(), id, t);
    } else {
        assert(before.txs().push(t).last() == t);
    }
    let j = tx_index(pending.txs(), id);
    assert(pending.txs()[j] == t);
    let rb = TransactionView { state: TransactionState::RolledBack, finalized_at: Some(later), ..t };
    lemma_tx_index_update(pending.txs(), id, rb);
    assert(after.circle_bitmaps@ =~= before.circle_bitmaps@);
    assert(after.member_contribution_counts@ =~= before.member_contribution_counts@);
}

} // verus!
