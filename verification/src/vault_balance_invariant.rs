//! Invariant checkers for concurrent payouts: solvency (V1), double-payout
//! blocking (V2), storage-footprint limits (V3) and commit-before-transfer
//! ordering (V4), plus a congestion model of ledger sequences.
use vstd::prelude::*;
use vstd::string::StringExecFns;
use crate::decimal::{decimal, signed_decimal, push_signed, push_unsigned};

verus! {

/// Maximum number of instance-storage entries touched by one invocation.
pub const SOROBAN_MAX_INSTANCE_ENTRIES: u32 = 64;

/// Base reserve (2 XLM in stroops) that must stay in a contract account.
pub const SOROBAN_BASE_RESERVE_STROOPS: i128 = 20_000_000;

/// Largest circle for which one `finalize_round` stays within limits.
pub const MAX_SAFE_MEMBER_COUNT: u32 = 50;

/// V1: the payout fits in the vault, and neither amount is negative.
pub fn check_payout_within_balance(vault_balance: i128, payout_amount: i128) -> (r: bool)
    ensures
        r == (vault_balance >= 0 && payout_amount >= 0 && payout_amount <= vault_balance),
{
    if vault_balance < 0 || payout_amount < 0 {
        return false;
    }
    payout_amount <= vault_balance
}

/// The most that may be paid out while keeping the base reserve locked.
pub fn max_dispersable(vault_balance: i128) -> (r: i128)
    ensures
        r == (if vault_balance > SOROBAN_BASE_RESERVE_STROOPS {
            vault_balance - SOROBAN_BASE_RESERVE_STROOPS
        } else {
            0
        }),
{
    if vault_balance > SOROBAN_BASE_RESERVE_STROOPS {
        vault_balance - SOROBAN_BASE_RESERVE_STROOPS
    } else {
        0
    }
}

/// V2: a payout at the ledger of the last payout would be a duplicate.
pub fn is_double_payout(last_payout_ledger: u64, current_ledger: u64) -> (r: bool)
    ensures
        r == (last_payout_ledger == current_ledger),
{
    last_payout_ledger == current_ledger
}

/// V2: the transition carries no double-payout risk.
pub fn check_no_double_payout(last_payout_ledger: u64, current_ledger: u64) -> (r: bool)
    ensures
        r == (last_payout_ledger != current_ledger),
{
    !is_double_payout(last_payout_ledger, current_ledger)
}

/// V3: `entry_count` fits the per-invocation storage budget.
pub fn check_soroban_storage_limit(entry_count: u32) -> (r: bool)
    ensures
        r == (entry_count <= SOROBAN_MAX_INSTANCE_ENTRIES),
{
    entry_count <= SOROBAN_MAX_INSTANCE_ENTRIES
}

/// Upper bound on the storage entries one `finalize_round` touches for a
/// circle of `member_count` members: one per member plus four (saturating).
pub fn estimate_finalize_storage_entries(member_count: u32) -> (r: u32)
    ensures
        r == (if member_count + 4 > u32::MAX { u32::MAX as int } else { member_count + 4 }),
{
    member_count.saturating_add(4)
}

/// V4: checks the commit sequence of a payout: the round must not be
/// finalized yet, and the state must be written before the transfer.
pub fn simulate_atomic_commit(
    is_round_finalized_before: bool,
    state_written_before_transfer: bool,
) -> (r: Result<(), &'static str>)
    ensures
        is_round_finalized_before ==> (r matches Err(m) && m@ == "Double-payout: round already finalized"@),
        !is_round_finalized_before && !state_written_before_transfer ==> (r matches Err(m)
            && m@ == "Invariant violation: state commit must precede token transfer"@),
        r is Ok <==> (!is_round_finalized_before && state_written_before_transfer),
{
    if is_round_finalized_before {
        proof { reveal_strlit("Double-payout: round already finalized"); }
        return Err("Double-payout: round already finalized");
    }
    if !state_written_before_transfer {
        proof { reveal_strlit("Invariant violation: state commit must precede token transfer"); }
        return Err("Invariant violation: state commit must precede token transfer");
    }
    Ok(())
}

/// Ledger-sequence gap before the `i`-th closed ledger: every seventh slot
/// (starting with the first) skips `2 * skip_factor` sequence numbers.
pub open spec fn ledger_gap(i: int, skip_factor: int) -> int {
    if i % 7 == 0 { 2 * skip_factor } else { 1 }
}

/// Seconds between ledger closes: 5 on every seventh slot, 6 otherwise.
pub open spec fn time_gap(i: int) -> int {
    if i % 7 == 0 { 5 } else { 6 }
}

/// The ledger sequence number of the `i`-th entry of a congested burst.
pub open spec fn congested_ledger(base_ledger: int, skip_factor: int, i: nat) -> int
    decreases i,
{
    if i == 0 {
        base_ledger + ledger_gap(0, skip_factor)
    } else {
        congested_ledger(base_ledger, skip_factor, (i - 1) as nat) + ledger_gap(i as int, skip_factor)
    }
}

/// The close time of the `i`-th entry of a congested burst.
pub open spec fn congested_time(base_timestamp: int, i: nat) -> int
    decreases i,
{
    if i == 0 {
        base_timestamp + time_gap(0)
    } else {
        congested_time(base_timestamp, (i - 1) as nat) + time_gap(i as int)
    }
}

proof fn lemma_congested_monotone(base_ledger: int, base_ts: int, skip_factor: int, i: nat, j: nat)
    requires
        i <= j,
        skip_factor >= 0,
    ensures
        congested_ledger(base_ledger, skip_factor, i) <= congested_ledger(base_ledger, skip_factor, j),
        congested_time(base_ts, i) <= congested_time(base_ts, j),
    decreases j - i,
{
    if i < j {
        lemma_congested_monotone(base_ledger, base_ts, skip_factor, i, (j - 1) as nat);
    }
}

/// Produces `count` `(ledger_sequence, timestamp)` pairs that model a
/// congested network: ledgers close every 5-6 seconds and every seventh slot
/// skips sequence numbers.
pub fn generate_congested_ledger_sequence(
    base_ledger: u64,
    base_timestamp: u64,
    count: usize,
    skip_factor: u64,
) -> (r: Vec<(u64, u64)>)
    requires
        count > 0 ==> {
            &&& 2 * skip_factor <= u64::MAX
            &&& congested_ledger(base_ledger as int, skip_factor as int, (count - 1) as nat) <= u64::MAX
            &&& congested_time(base_timestamp as int, (count - 1) as nat) <= u64::MAX
        },
    ensures
        r@.len() == count,
        forall|i: int| 0 <= i < count ==> {
            &&& (#[trigger] r@[i]).0 == congested_ledger(base_ledger as int, skip_factor as int, i as nat)
            &&& r@[i].1 == congested_time(base_timestamp as int, i as nat)
        },
{
    let mut seq: Vec<(u64, u64)> = Vec::new();
    let mut ledger: u64 = base_ledger;
    let mut ts: u64 = base_timestamp;
    let mut i: usize = 0;
    while i < count
        invariant
            i <= count,
            seq@.len() == i,
            count > 0 ==> {
                &&& 2 * skip_factor <= u64::MAX
                &&& congested_ledger(base_ledger as int, skip_factor as int, (count - 1) as nat) <= u64::MAX
                &&& congested_time(base_timestamp as int, (count - 1) as nat) <= u64::MAX
            },
            i == 0 ==> ledger == base_ledger && ts == base_timestamp,
            i > 0 ==> ledger == congested_ledger(base_ledger as int, skip_factor as int, (i - 1) as nat)
                && ts == congested_time(base_timestamp as int, (i - 1) as nat),
            forall|k: int| 0 <= k < i ==> {
                &&& (#[trigger] seq@[k]).0 == congested_ledger(base_ledger as int, skip_factor as int, k as nat)
                &&& seq@[k].1 == congested_time(base_timestamp as int, k as nat)
            },
        decreases count - i,
    {
        proof {
            lemma_congested_monotone(base_ledger as int, base_timestamp as int, skip_factor as int,
                i as nat, (count - 1) as nat);
        }
        let ledger_gap: u64 = if i % 7 == 0 { skip_factor * 2 } else { 1 };
        let time_gap: u64 = if i % 7 == 0 { 5 } else { 6 };
        ledger = ledger + ledger_gap;
        ts = ts + time_gap;
        seq.push((ledger, ts));
        i = i + 1;
    }
    seq
}

/// Under any congestion with `skip_factor >= 1`, ledger sequence numbers and
/// close times of a burst strictly increase.
pub proof fn law_congested_sequence_strictly_increasing(
    base_ledger: int,
    base_timestamp: int,
    skip_factor: int,
    i: nat,
)
    requires
        skip_factor >= 1,
    ensures
        congested_ledger(base_ledger, skip_factor, i) < congested_ledger(base_ledger, skip_factor, i + 1),
        congested_time(base_timestamp, i) < congested_time(base_timestamp, i + 1),
{
    assert(congested_ledger(base_ledger, skip_factor, i + 1) == congested_ledger(base_ledger, skip_factor, i)
        + ledger_gap(i + 1int, skip_factor));
    assert(congested_time(base_timestamp, i + 1) == congested_time(base_timestamp, i) + time_gap(i + 1int));
}

/// A payout that passes V1 can never leave the vault negative.
pub proof fn law_checked_payout_keeps_vault_solvent(vault_balance: i128, payout_amount: i128)
    requires
        vault_balance >= 0 && payout_amount >= 0 && payout_amount <= vault_balance,
    ensures
        vault_balance - payout_amount >= 0,
{
}

/// What remains dispersable is never negative and never more than the balance.
pub proof fn law_max_dispersable_bounds(vault_balance: i128)
    ensures
        0 <= (if vault_balance > SOROBAN_BASE_RESERVE_STROOPS {
            vault_balance - SOROBAN_BASE_RESERVE_STROOPS
        } else {
            0
        }),
        vault_balance >= 0 ==> (if vault_balance > SOROBAN_BASE_RESERVE_STROOPS {
            vault_balance - SOROBAN_BASE_RESERVE_STROOPS
        } else {
            0
        }) <= vault_balance,
{
}

/// A record of a fuzz iteration that violated an invariant.
#[derive(Debug, Clone)]
pub struct FuzzFailureRecord {
    pub iteration: u64,
    pub vault_balance: i128,
    pub payout_amount: i128,
    pub last_payout_ledger: u64,
    pub current_ledger: u64,
    pub storage_entries: u32,
    pub violated_invariant: &'static str,
}

/// The log line of a failure record.
pub open spec fn fuzz_log_line(rec: FuzzFailureRecord) -> Seq<char> {
    "[FUZZ FAILURE] iter="@ + decimal(rec.iteration as nat) + " invariant=\""@
        + rec.violated_invariant@ + "\" vault_balance="@ + signed_decimal(rec.vault_balance as int)
        + " payout="@ + signed_decimal(rec.payout_amount as int) + " last_payout_ledger="@
        + decimal(rec.last_payout_ledger as nat) + " current_ledger="@
        + decimal(rec.current_ledger as nat) + " storage_entries="@
        + decimal(rec.storage_entries as nat)
}

impl FuzzFailureRecord {
    /// Formats the record as a one-line, human-readable log entry.
    pub fn to_log_line(&self) -> (r: String)
        ensures
            r@ == fuzz_log_line(*self),
    {
        let mut s = String::from_str("[FUZZ FAILURE] iter=");
        push_unsigned(&mut s, self.iteration as u128);
        s.append(" invariant=\"");
        s.append(self.violated_invariant);
        s.append("\" vault_balance=");
        push_signed(&mut s, self.vault_balance);
        s.append(" payout=");
        push_signed(&mut s, self.payout_amount);
        s.append(" last_payout_ledger=");
        push_unsigned(&mut s, self.last_payout_ledger as u128);
        s.append(" current_ledger=");
        push_unsigned(&mut s, self.current_ledger as u128);
        s.append(" storage_entries=");
        push_unsigned(&mut s, self.storage_entries as u128);
        s
    }
}

} // verus!
