use sorosusu::vault_balance_invariant::{
    check_no_double_payout, check_payout_within_balance, check_soroban_storage_limit,
    estimate_finalize_storage_entries, generate_congested_ledger_sequence, is_double_payout,
    max_dispersable, simulate_atomic_commit, FuzzFailureRecord, SOROBAN_BASE_RESERVE_STROOPS,
    SOROBAN_MAX_INSTANCE_ENTRIES,
};

#[test]
fn test_check_payout_within_balance_normal() {
    assert!(check_payout_within_balance(1_000_000, 500_000));
    assert!(check_payout_within_balance(1_000_000, 1_000_000));
    assert!(!check_payout_within_balance(1_000_000, 1_000_001));
}

#[test]
fn test_check_payout_negative_values_rejected() {
    assert!(!check_payout_within_balance(-1, 100));
    assert!(!check_payout_within_balance(100, -1));
}

#[test]
fn test_max_dispersable_respects_reserve() {
    let balance = SOROBAN_BASE_RESERVE_STROOPS + 5_000_000;
    assert_eq!(max_dispersable(balance), 5_000_000);
}

#[test]
fn test_max_dispersable_cannot_go_negative() {
    assert_eq!(max_dispersable(0), 0);
    assert_eq!(max_dispersable(SOROBAN_BASE_RESERVE_STROOPS - 1), 0);
}

#[test]
fn test_double_payout_detection() {
    assert!(is_double_payout(42, 42));
    assert!(!is_double_payout(41, 42));
    assert!(!is_double_payout(0, 1));
}

#[test]
fn test_storage_limit_boundary() {
    assert!(check_soroban_storage_limit(SOROBAN_MAX_INSTANCE_ENTRIES));
    assert!(!check_soroban_storage_limit(SOROBAN_MAX_INSTANCE_ENTRIES + 1));
}

#[test]
fn test_estimate_storage_entries_worst_case_50_members() {
    let entries = estimate_finalize_storage_entries(50);
    assert!(
        check_soroban_storage_limit(entries),
        "50 members should stay within storage limit, got {} entries",
        entries
    );
}

#[test]
fn test_atomic_commit_success() {
    let result = simulate_atomic_commit(false, true);
    assert!(result.is_ok());
}

#[test]
fn test_atomic_commit_double_payout_blocked() {
    let result = simulate_atomic_commit(true, true);
    assert!(result.is_err());
    assert_eq!(result.unwrap_err(), "Double-payout: round already finalized");
}

#[test]
fn test_atomic_commit_wrong_ordering_blocked() {
    let result = simulate_atomic_commit(false, false);
    assert!(result.is_err());
}

#[test]
fn test_congested_ledger_sequence_length() {
    let seq = generate_congested_ledger_sequence(1_000_000, 1_700_000_000, 100, 3);
    assert_eq!(seq.len(), 100);
}

#[test]
fn test_congested_ledger_sequence_monotonic() {
    let seq = generate_congested_ledger_sequence(1_000_000, 1_700_000_000, 50, 5);
    for window in seq.windows(2) {
        assert!(window[1].0 > window[0].0, "Ledger sequence must be strictly increasing");
        assert!(window[1].1 > window[0].1, "Timestamp must be strictly increasing");
    }
}

#[test]
fn test_fuzz_failure_record_log_line() {
    let rec = FuzzFailureRecord {
        iteration: 12345,
        vault_balance: 1_000_000,
        payout_amount: 1_000_001,
        last_payout_ledger: 0,
        current_ledger: 1,
        storage_entries: 20,
        violated_invariant: "V1",
    };
    let line = rec.to_log_line();
    assert!(line.contains("FUZZ FAILURE"));
    assert!(line.contains("12345"));
    assert!(line.contains("V1"));
}

#[test]
fn vault_log_line_exact_text() {
    let rec = FuzzFailureRecord {
        iteration: 7,
        vault_balance: -5,
        payout_amount: 0,
        last_payout_ledger: 10,
        current_ledger: 10,
        storage_entries: 68,
        violated_invariant: "V2",
    };
    assert_eq!(
        rec.to_log_line(),
        "[FUZZ FAILURE] iter=7 invariant=\"V2\" vault_balance=-5 payout=0 last_payout_ledger=10 current_ledger=10 storage_entries=68"
    );
}

#[test]
fn vault_congested_sequence_exact_values() {
    let seq = generate_congested_ledger_sequence(100, 1000, 9, 3);
    assert_eq!(seq[0], (106, 1005));
    assert_eq!(seq[1], (107, 1011));
    assert_eq!(seq[6], (112, 1041));
    assert_eq!(seq[7], (118, 1046));
    assert_eq!(seq[8], (119, 1052));
}

#[test]
fn vault_no_double_payout_and_saturation() {
    assert!(check_no_double_payout(1, 2));
    assert!(!check_no_double_payout(2, 2));
    assert_eq!(estimate_finalize_storage_entries(u32::MAX), u32::MAX);
    assert_eq!(estimate_finalize_storage_entries(60), 64);
    assert!(!simulate_atomic_commit(false, false).unwrap_err().is_empty());
}
