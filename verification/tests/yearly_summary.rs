use sorosusu::yearly_summary::{SummaryError, SusuContract, YearlySummary, SECONDS_PER_YEAR};

#[test]
fn yearly_summary_once_per_past_year() {
    let mut c = SusuContract::new();
    c.record_contribution(1, 500);
    c.record_contribution(1, 250);
    c.record_payout(1, 100);
    c.record_yield(1, 7);
    let now = 55 * SECONDS_PER_YEAR + 10; // during 2025
    assert_eq!(c.summary_check(1, 2025, now), Some(SummaryError::CurrentOrFutureYear));
    assert_eq!(c.summary_check(1, 2024, now), None);
    let s = c.emit_yearly_summary(1, 2024, now);
    assert_eq!(s, YearlySummary { user: 1, year: 2024, total_contributions: 750, total_payouts: 100, total_yield: 7 });
    assert_eq!(c.summary_check(1, 2024, now), Some(SummaryError::AlreadyEmitted));
    assert_eq!(c.summary_check(1, 2023, now), Some(SummaryError::AlreadyEmitted));
    let other = c.emit_yearly_summary(2, 2023, now);
    assert_eq!((other.total_contributions, other.total_payouts, other.total_yield), (0, 0, 0));
}
