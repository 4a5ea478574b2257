//! Calendar arithmetic for contribution deadlines.
use vstd::prelude::*;

verus! {

/// A calendar date (proleptic Gregorian, UTC).
#[derive(Clone, Copy, Debug, PartialEq, Eq)]
pub struct Date {
    pub year: u32,
    pub month: u32,
    pub day: u32,
}

/// Gregorian leap-year rule.
pub open spec fn spec_is_leap_year(year: int) -> bool {
    (year % 4 == 0 && year % 100 != 0) || year % 400 == 0
}

/// Number of days in `month` of `year`, for a month in `1..=12`.
pub open spec fn spec_days_in_month(year: int, month: int) -> int {
    if month == 2 {
        if spec_is_leap_year(year) { 29 } else { 28 }
    } else if month == 4 || month == 6 || month == 9 || month == 11 {
        30
    } else {
        31
    }
}

/// Whether `(year, month, day)` names a real calendar day.
pub open spec fn is_valid_ymd(year: int, month: int, day: int) -> bool {
    1 <= month <= 12 && 1 <= day <= spec_days_in_month(year, month)
}

/// The day after `(year, month, day)`, as the deadline calculator advances it:
/// any day that is not before the month's last day rolls over to the 1st of
/// the next month.
pub open spec fn next_day(ymd: (int, int, int)) -> (int, int, int) {
    let (y, m, d) = ymd;
    if d < spec_days_in_month(y, m) {
        (y, m, d + 1)
    } else if m < 12 {
        (y, m + 1, 1)
    } else {
        (y + 1, 1, 1)
    }
}

/// `n` applications of [`next_day`].
pub open spec fn add_days_ymd(ymd: (int, int, int), n: nat) -> (int, int, int)
    decreases n,
{
    if n == 0 {
        ymd
    } else {
        add_days_ymd(next_day(ymd), (n - 1) as nat)
    }
}

/// The model of a date.
pub open spec fn ymd_of(d: Date) -> (int, int, int) {
    (d.year as int, d.month as int, d.day as int)
}

/// What `add_days(date, days)` needs to run: a month in `1..=12` whenever at
/// least one day is added, and a resulting year that still fits in a `u32`.
pub open spec fn add_days_defined(date: Date, days: u32) -> bool {
    &&& (days > 0 ==> 1 <= date.month <= 12)
    &&& add_days_ymd(ymd_of(date), days as nat).0 <= u32::MAX
}

proof fn lemma_add_days_year_monotone(ymd: (int, int, int), n: nat)
    ensures
        add_days_ymd(ymd, n).0 >= ymd.0,
    decreases n,
{
    if n > 0 {
        lemma_add_days_year_monotone(next_day(ymd), (n - 1) as nat);
    }
}

/// Days in the months of `year` before `month`.
pub open spec fn days_before_month(year: int, month: int) -> int
    decreases month,
{
    if month <= 1 {
        0
    } else {
        days_before_month(year, month - 1) + spec_days_in_month(year, month - 1)
    }
}

/// A measure of how far into the calendar a date lies: 365 per year, plus
/// the days elapsed in its year, counted at most up to 365. One step of
/// [`next_day`] raises it by at most one.
spec fn calendar_progress(ymd: (int, int, int)) -> int {
    let elapsed = days_before_month(ymd.0, ymd.1) + ymd.2;
    365 * ymd.0 + if elapsed < 365 { elapsed } else { 365 }
}

proof fn lemma_days_before_nonneg(year: int, month: int)
    ensures
        days_before_month(year, month) >= 0,
    decreases month,
{
    if month > 1 {
        lemma_days_before_nonneg(year, month - 1);
    }
}

proof fn lemma_days_before_december(year: int)
    ensures
        days_before_month(year, 12) >= 334,
{
    reveal_with_fuel(days_before_month, 12);
}

proof fn lemma_next_day_progress(ymd: (int, int, int))
    requires
        1 <= ymd.1 <= 12,
        ymd.2 >= 0,
    ensures
        1 <= next_day(ymd).1 <= 12,
        next_day(ymd).2 >= 0,
        calendar_progress(next_day(ymd)) <= calendar_progress(ymd) + 1,
{
    let (y, m, d) = ymd;
    if d >= spec_days_in_month(y, m) && m == 12 {
        lemma_days_before_december(y);
    }
}

proof fn lemma_add_days_progress(ymd: (int, int, int), n: nat)
    requires
        1 <= ymd.1 <= 12,
        ymd.2 >= 0,
    ensures
        calendar_progress(add_days_ymd(ymd, n)) <= calendar_progress(ymd) + n,
        1 <= add_days_ymd(ymd, n).1 <= 12,
        add_days_ymd(ymd, n).2 >= 0,
    decreases n,
{
    if n > 0 {
        lemma_next_day_progress(ymd);
        lemma_add_days_progress(next_day(ymd), (n - 1) as nat);
    }
}

/// Advances `date` by `days` calendar days.
pub fn add_days(date: Date, days: u32) -> (r: Date)
    requires
        add_days_defined(date, days),
    ensures
        ymd_of(r) == add_days_ymd(ymd_of(date), days as nat),
        r.year <= date.year + days / 365 + 1,
{
    proof {
        law_add_days_year_bound(ymd_of(date), days as nat);
    }
    let mut date = date;
    let mut days = days;
    let ghost target = add_days_ymd(ymd_of(date), days as nat);
    while days > 0
        invariant
            add_days_ymd(ymd_of(date), days as nat) == target,
            target.0 <= u32::MAX,
            days > 0 ==> 1 <= date.month <= 12,
        decreases days,
    {
        let dim = days_in_month(date.year, date.month);
        proof {
            lemma_add_days_year_monotone(next_day(ymd_of(date)), (days - 1) as nat);
        }
        if date.day < dim {
            date.day = date.day + 1;
        } else {
            date.day = 1;
            if date.month < 12 {
                date.month = date.month + 1;
            } else {
                date.month = 1;
                date.year = date.year + 1;
            }
        }
        days = days - 1;
    }
    date
}

/// Number of days in `month` of `year`.
pub fn days_in_month(year: u32, month: u32) -> (r: u32)
    requires
        1 <= month <= 12,
    ensures
        r == spec_days_in_month(year as int, month as int),
{
    match month {
        1 | 3 | 5 | 7 | 8 | 10 | 12 => 31,
        4 | 6 | 9 | 11 => 30,
        _ => {
            if is_leap_year(year) {
                29
            } else {
                28
            }
        },
    }
}

/// Returns whether `year` is a leap year.
pub fn is_leap_year(year: u32) -> (r: bool)
    ensures
        r == spec_is_leap_year(year as int),
{
    (year % 4 == 0 && year % 100 != 0) || (year % 400 == 0)
}

/// The deadline `contribution_interval_days` days after `start`. Leap years
/// count their February 29th: 365 days after January 1st of a leap year is
/// its December 31st, and 366 days reach the next year (`law_year_length`).
pub fn calculate_deadline(start: Date, contribution_interval_days: u32) -> (r: Date)
    requires
        add_days_defined(start, contribution_interval_days),
    ensures
        ymd_of(r) == add_days_ymd(ymd_of(start), contribution_interval_days as nat),
        r.year <= start.year + contribution_interval_days / 365 + 1,
{
    add_days(start, contribution_interval_days)
}

/// Every month has between 28 and 31 days.
pub proof fn law_days_in_month_range(year: int, month: int)
    ensures
        28 <= spec_days_in_month(year, month) <= 31,
{
}

/// Adding at least one day to a date whose month is valid always lands on a
/// real calendar day, whatever the starting day was.
pub proof fn law_add_days_lands_on_valid_date(ymd: (int, int, int), n: nat)
    requires
        1 <= ymd.1 <= 12,
        ymd.2 >= 0,
        n > 0,
    ensures
        is_valid_ymd(add_days_ymd(ymd, n).0, add_days_ymd(ymd, n).1, add_days_ymd(ymd, n).2),
    decreases n,
{
    let nd = next_day(ymd);
    if n > 1 {
        law_add_days_lands_on_valid_date(nd, (n - 1) as nat);
    } else {
        assert(add_days_ymd(ymd, 1) == add_days_ymd(nd, 0));
        law_days_in_month_range(ymd.0 + 1, 1);
        law_days_in_month_range(ymd.0, ymd.1 + 1);
    }
}

/// Adding `a` days and then `b` days is the same as adding `a + b` days.
pub proof fn law_add_days_additive(ymd: (int, int, int), a: nat, b: nat)
    ensures
        add_days_ymd(add_days_ymd(ymd, a), b) == add_days_ymd(ymd, a + b),
    decreases a,
{
    if a > 0 {
        law_add_days_additive(next_day(ymd), (a - 1) as nat, b);
        assert((a + b - 1) as nat == ((a - 1) as nat + b) as nat);
    }
}

/// Adding days never moves a date backwards in years.
pub proof fn law_add_days_year_never_decreases(ymd: (int, int, int), n: nat)
    ensures
        add_days_ymd(ymd, n).0 >= ymd.0,
{
    lemma_add_days_year_monotone(ymd, n);
}

/// Adding `n` days to a date with a valid month advances the year by at
/// most `n / 365 + 1`: after the first new year, every further one takes a
/// whole year of days.
pub proof fn law_add_days_year_bound(ymd: (int, int, int), n: nat)
    requires
        n > 0 ==> 1 <= ymd.1 <= 12,
        ymd.2 >= 0,
    ensures
        add_days_ymd(ymd, n).0 <= ymd.0 + n / 365 + 1,
{
    if n > 0 {
        lemma_add_days_progress(ymd, n);
        let e = add_days_ymd(ymd, n);
        lemma_days_before_nonneg(e.0, e.1);
        assert(calendar_progress(ymd) <= 365 * ymd.0 + 365);
        assert(365 * e.0 <= calendar_progress(e));
        assert(365 * (e.0 - ymd.0 - 1) <= n);
    }
}

/// A date whose month is valid can be advanced by `days` whenever its year
/// plus `days / 365 + 1` fits in a `u32`.
pub proof fn law_add_days_defined_when_year_fits(date: Date, days: u32)
    requires
        days > 0 ==> 1 <= date.month <= 12,
        date.year + days / 365 + 1 <= u32::MAX,
    ensures
        add_days_defined(date, days),
{
    law_add_days_year_bound(ymd_of(date), days as nat);
}

/// The date `ymd` names, as a `Date`.
pub open spec fn date_of(ymd: (int, int, int)) -> Date {
    Date { year: ymd.0 as u32, month: ymd.1 as u32, day: ymd.2 as u32 }
}

/// Advancing a date by `a` days and the result by `b` days gives the date
/// advanced by `a + b` days, and each of the three calls can be made
/// whenever the year plus `(a + b) / 365 + 1` fits in a `u32`.
pub proof fn law_add_days_compose(date: Date, a: u32, b: u32)
    requires
        1 <= date.month <= 12,
        a + b <= u32::MAX,
        date.year + (a + b) / 365 + 1 <= u32::MAX,
    ensures
        add_days_defined(date, a),
        add_days_defined(date, (a + b) as u32),
        ymd_of(date_of(add_days_ymd(ymd_of(date), a as nat))) == add_days_ymd(ymd_of(date), a as nat),
        add_days_defined(date_of(add_days_ymd(ymd_of(date), a as nat)), b),
        add_days_ymd(add_days_ymd(ymd_of(date), a as nat), b as nat) == add_days_ymd(ymd_of(date), (a + b) as nat),
{
    let ymd = ymd_of(date);
    law_add_days_year_bound(ymd, a as nat);
    law_add_days_year_bound(ymd, (a + b) as nat);
    law_add_days_additive(ymd, a as nat, b as nat);
    lemma_add_days_year_monotone(ymd, a as nat);
    let mid = add_days_ymd(ymd, a as nat);
    if a > 0 {
        law_add_days_lands_on_valid_date(ymd, a as nat);
        law_days_in_month_range(mid.0, mid.1);
    }
    assert(a as nat + b as nat == (a + b) as nat);
}

/// Number of leap years among the `n` years from `year` on.
pub open spec fn leap_years_from(year: int, n: nat) -> nat
    decreases n,
{
    if n == 0 {
        0
    } else {
        leap_years_from(year, (n - 1) as nat) + if spec_is_leap_year(year + n - 1) { 1nat } else { 0nat }
    }
}

proof fn lemma_leap_years_shift(year: int, n: nat)
    ensures
        leap_years_from(year + 1, n) + (if spec_is_leap_year(year) { 1int } else { 0int })
            == leap_years_from(year, n) + (if spec_is_leap_year(year + n) { 1int } else { 0int }),
    decreases n,
{
    if n > 0 {
        lemma_leap_years_shift(year, (n - 1) as nat);
    }
}

proof fn lemma_leap_years_split(year: int, n: nat, m: nat)
    ensures
        leap_years_from(year, n + m) == leap_years_from(year, n) + leap_years_from(year + n, m),
    decreases m,
{
    if m > 0 {
        lemma_leap_years_split(year, n, (m - 1) as nat);
        assert((n + m - 1) as nat == n + (m - 1) as nat);
    }
}

proof fn lemma_leap_years_in_four(k: int)
    requires
        k % 4 == 0,
    ensures
        leap_years_from(k, 4) == if spec_is_leap_year(k) { 1nat } else { 0nat },
{
    reveal_with_fuel(leap_years_from, 5);
    let p = k / 4;
    vstd::arithmetic::div_mod::lemma_fundamental_div_mod(k, 4);
    vstd::arithmetic::div_mod::lemma_mod_multiples_vanish(p, 1, 4);
    vstd::arithmetic::div_mod::lemma_mod_multiples_vanish(p, 2, 4);
    vstd::arithmetic::div_mod::lemma_mod_multiples_vanish(p, 3, 4);
    assert(k + 1 == 4 * p + 1 && k + 2 == 4 * p + 2 && k + 3 == 4 * p + 3);
}

proof fn lemma_leap_years_in_century(c: int, j: nat)
    requires
        c % 100 == 0,
        1 <= j <= 25,
    ensures
        leap_years_from(c, 4 * j) == (if spec_is_leap_year(c) { 1int } else { 0int }) + j - 1,
    decreases j,
{
    if j == 1 {
        lemma_leap_years_in_four(c);
    } else {
        let t: int = 4 * (j - 1);
        let k = c + t;
        let q = c / 100;
        lemma_leap_years_in_century(c, (j - 1) as nat);
        lemma_leap_years_split(c, t as nat, 4);
        vstd::arithmetic::div_mod::lemma_fundamental_div_mod(c, 100);
        assert(k == 100 * q + t);
        assert(k == 4 * (25 * q + j - 1));
        vstd::arithmetic::div_mod::lemma_mod_multiples_vanish(25 * q + j - 1, 0, 4);
        assert(k % 4 == 0);
        vstd::arithmetic::div_mod::lemma_mod_multiples_vanish(q, t, 100);
        vstd::arithmetic::div_mod::lemma_small_mod(t as nat, 100);
        assert(k % 100 == t);
        lemma_leap_years_in_four(k);
        assert((4 * (j - 1)) as nat + 4 == 4 * j);
    }
}

proof fn lemma_leap_years_per_cycle(year: nat)
    ensures
        leap_years_from(year as int, 400) == 97,
    decreases year,
{
    if year == 0 {
        lemma_leap_years_in_century(0, 25);
        lemma_leap_years_in_century(100, 25);
        lemma_leap_years_in_century(200, 25);
        lemma_leap_years_in_century(300, 25);
        lemma_leap_years_split(0, 100, 100);
        lemma_leap_years_split(0, 200, 100);
        lemma_leap_years_split(0, 300, 100);
    } else {
        lemma_leap_years_per_cycle((year - 1) as nat);
        lemma_leap_years_shift(year - 1, 400);
        law_leap_year_period(year - 1);
    }
}

/// The leap-year rule repeats every 400 years.
pub proof fn law_leap_year_period(year: int)
    ensures
        spec_is_leap_year(year + 400) == spec_is_leap_year(year),
{
    vstd::arithmetic::div_mod::lemma_mod_multiples_vanish(100, year, 4);
    vstd::arithmetic::div_mod::lemma_mod_multiples_vanish(4, year, 100);
    vstd::arithmetic::div_mod::lemma_mod_multiples_vanish(1, year, 400);
    assert(4 * 100 + year == year + 400 && 100 * 4 + year == year + 400 && 400 * 1 + year == year + 400);
}

/// Leap years fall on multiples of four, and every 400 consecutive years
/// (from year 0 on) hold exactly 97 of them.
pub proof fn law_leap_years_in_cycle(year: nat)
    ensures
        spec_is_leap_year(year as int) ==> year % 4 == 0,
        leap_years_from(year as int, 400) == 97,
{
    lemma_leap_years_per_cycle(year);
}

/// Number of days in `year`: 366 in a leap year, else 365.
pub open spec fn days_in_year(year: int) -> int {
    if spec_is_leap_year(year) { 366 } else { 365 }
}

proof fn lemma_add_days_within_month(y: int, m: int, d: int, k: nat)
    requires
        1 <= m <= 12,
        1 <= d,
        d + k <= spec_days_in_month(y, m),
    ensures
        add_days_ymd((y, m, d), k) == (y, m, d + k),
    decreases k,
{
    if k > 0 {
        lemma_add_days_within_month(y, m, d + 1, (k - 1) as nat);
    }
}

proof fn lemma_add_whole_month(y: int, m: int)
    requires
        1 <= m <= 12,
    ensures
        add_days_ymd((y, m, 1), spec_days_in_month(y, m) as nat) == (if m < 12 { (y, m + 1, 1int) } else { (y + 1, 1int, 1int) }),
{
    let n = spec_days_in_month(y, m);
    law_days_in_month_range(y, m);
    lemma_add_days_within_month(y, m, 1, (n - 1) as nat);
    law_add_days_additive((y, m, 1), (n - 1) as nat, 1);
    assert((n - 1) as nat + 1 == n as nat);
    assert(add_days_ymd((y, m, n), 1) == add_days_ymd(next_day((y, m, n)), 0));
}

proof fn lemma_add_days_to_month_start(y: int, m: int)
    requires
        1 <= m <= 12,
    ensures
        add_days_ymd((y, 1, 1), days_before_month(y, m) as nat) == (y, m, 1int),
    decreases m,
{
    if m > 1 {
        lemma_add_days_to_month_start(y, m - 1);
        lemma_days_before_nonneg(y, m - 1);
        law_days_in_month_range(y, m - 1);
        lemma_add_whole_month(y, m - 1);
        law_add_days_additive((y, 1, 1), days_before_month(y, m - 1) as nat, spec_days_in_month(y, m - 1) as nat);
        assert(days_before_month(y, m - 1) as nat + spec_days_in_month(y, m - 1) as nat == days_before_month(y, m) as nat);
    }
}

/// A year has 366 days when it is a leap year and 365 otherwise: from
/// January 1st, one day short of the year's length lands on December 31st
/// of the same year, and the full length on January 1st of the next.
pub proof fn law_year_length(year: int)
    ensures
        add_days_ymd((year, 1, 1), (days_in_year(year) - 1) as nat) == (year, 12int, 31int),
        add_days_ymd((year, 1, 1), days_in_year(year) as nat) == (year + 1, 1int, 1int),
{
    reveal_with_fuel(days_before_month, 12);
    let before = days_before_month(year, 12);
    assert(before + 31 == days_in_year(year));
    lemma_add_days_to_month_start(year, 12);
    lemma_add_days_within_month(year, 12, 1, 30);
    law_add_days_additive((year, 1, 1), before as nat, 30);
    lemma_add_whole_month(year, 12);
    law_add_days_additive((year, 1, 1), before as nat, 31);
    assert(before as nat + 30 == (days_in_year(year) - 1) as nat);
    assert(before as nat + 31 == days_in_year(year) as nat);
}

} // verus!
