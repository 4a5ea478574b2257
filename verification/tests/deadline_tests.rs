use sorosusu::deadline::{add_days, calculate_deadline, days_in_month, is_leap_year, Date};

#[test]
fn test_feb_29_leap_year() {
    let start = Date { year: 2024, month: 2, day: 28 };
    let result = calculate_deadline(start, 1);
    assert_eq!(result, Date { year: 2024, month: 2, day: 29 });
}

#[test]
fn test_feb_non_leap() {
    let start = Date { year: 2023, month: 2, day: 28 };
    let result = calculate_deadline(start, 1);
    assert_eq!(result, Date { year: 2023, month: 3, day: 1 });
}

#[test]
fn test_31st_overflow() {
    let start = Date { year: 2025, month: 1, day: 31 };
    let result = calculate_deadline(start, 1);
    assert_eq!(result, Date { year: 2025, month: 2, day: 1 });
}

#[test]
fn test_30_day_month() {
    let start = Date { year: 2025, month: 4, day: 30 };
    let result = calculate_deadline(start, 1);
    assert_eq!(result, Date { year: 2025, month: 5, day: 1 });
}

#[test]
fn test_multi_day_cross_month() {
    let start = Date { year: 2025, month: 1, day: 30 };
    let result = calculate_deadline(start, 5);
    assert_eq!(result, Date { year: 2025, month: 2, day: 4 });
}

#[test]
fn test_year_rollover() {
    let start = Date { year: 2025, month: 12, day: 31 };
    let result = calculate_deadline(start, 1);
    assert_eq!(result, Date { year: 2026, month: 1, day: 1 });
}

#[test]
fn test_dst_irrelevance() {
    let start = Date { year: 2025, month: 3, day: 30 };
    let result = calculate_deadline(start, 1);
    assert_eq!(result, Date { year: 2025, month: 3, day: 31 });
}

#[test]
fn deadline_leap_year_rule() {
    assert!(is_leap_year(2024));
    assert!(!is_leap_year(2023));
    assert!(!is_leap_year(1900));
    assert!(is_leap_year(2000));
}

#[test]
fn deadline_days_in_month_values() {
    assert_eq!(days_in_month(2024, 2), 29);
    assert_eq!(days_in_month(2023, 2), 28);
    assert_eq!(days_in_month(2023, 4), 30);
    assert_eq!(days_in_month(2023, 12), 31);
}

#[test]
fn deadline_leap_year_has_366_days() {
    // 2020 is a leap year, as 2024 is: a whole year from its January 1st
    // takes 366 days, and 365 days stop on its December 31st.
    assert!(is_leap_year(2020) && is_leap_year(2024));
    let start = Date { year: 2020, month: 1, day: 1 };
    assert_eq!(calculate_deadline(start, 366), Date { year: 2021, month: 1, day: 1 });
    assert_eq!(calculate_deadline(start, 365), Date { year: 2020, month: 12, day: 31 });
    let r2 = add_days(Date { year: 2021, month: 1, day: 1 }, 365);
    assert_eq!(r2, Date { year: 2022, month: 1, day: 1 });
}

#[test]
fn deadline_additivity_example() {
    let d = Date { year: 2024, month: 1, day: 15 };
    let a = add_days(add_days(d, 40), 300);
    let b = add_days(d, 340);
    assert_eq!(a, b);
}

#[test]
fn deadline_zero_days_keeps_date() {
    let d = Date { year: 2024, month: 6, day: 15 };
    assert_eq!(add_days(d, 0), d);
}

#[test]
fn deadline_out_of_range_day_rolls_to_next_month() {
    let r = add_days(Date { year: 2023, month: 2, day: 30 }, 1);
    assert_eq!(r, Date { year: 2023, month: 3, day: 1 });
}

#[test]
fn deadline_year_grows_by_at_most_days_over_365_plus_one() {
    // 730 days from the last day of a year: the first step already crosses
    // into the next year, and the bound still holds.
    let r = add_days(Date { year: 2023, month: 12, day: 31 }, 730);
    assert_eq!(r, Date { year: 2025, month: 12, day: 30 });
    assert!(r.year <= 2023 + 730 / 365 + 1);
    let r = add_days(Date { year: 2023, month: 1, day: 1 }, 364);
    assert_eq!(r, Date { year: 2023, month: 12, day: 31 });
}

#[test]
fn deadline_composition_near_the_top_of_the_year_range() {
    let d = Date { year: u32::MAX - 3, month: 11, day: 30 };
    let (a, b) = (45u32, 500u32);
    assert_eq!(add_days(add_days(d, a), b), add_days(d, a + b));
    assert_eq!(add_days(d, a + b), Date { year: u32::MAX - 1, month: 5, day: 29 });
}

#[test]
fn deadline_leap_years_repeat_every_four_centuries() {
    let count = (2000u32..2400).filter(|&y| is_leap_year(y)).count();
    assert_eq!(count, 97);
    let count = (1u32..401).filter(|&y| is_leap_year(y)).count();
    assert_eq!(count, 97);
    for y in [1900u32, 1996, 2000, 2023, 2100] {
        assert_eq!(is_leap_year(y + 400), is_leap_year(y));
        if is_leap_year(y) {
            assert_eq!(y % 4, 0);
        }
    }
}
