//! The proleptic Gregorian calendar, counted in days from 1970-01-01.

use vstd::arithmetic::div_mod::lemma_fundamental_div_mod_converse;
use vstd::prelude::*;

verus! {

/// The civil date, as year, month and day of the proleptic Gregorian
/// calendar, of the day that lies `days` days after 1970-01-01.
///
/// The days are counted from 0000-03-01 in eras of 400 years (146097 days),
/// so that the leap day is the last day of a year that begins in March.
pub open spec fn civil_of_days(days: int) -> (int, int, int) {
    let z = days + 719_468;
    let era = z / 146_097;
    let day_of_era = z % 146_097;
    let year_of_era = (day_of_era - day_of_era / 1_460 + day_of_era / 36_524 - day_of_era
        / 146_096) / 365;
    let day_of_year = day_of_era - (365 * year_of_era + year_of_era / 4 - year_of_era / 100);
    let march_month = (5 * day_of_year + 2) / 153;
    let day = day_of_year - (153 * march_month + 2) / 5 + 1;
    let month = if march_month < 10 {
        march_month + 3
    } else {
        march_month - 9
    };
    let year = year_of_era + era * 400 + if month <= 2 {
        1int
    } else {
        0int
    };
    (year, month, day)
}

/// Whether the year `y` of the proleptic Gregorian calendar is a leap year.
pub open spec fn is_leap(y: int) -> bool {
    y % 4 == 0 && (y % 100 != 0 || y % 400 == 0)
}

/// The number of days of month `m` of year `y`.
pub open spec fn days_in_month(y: int, m: int) -> int {
    if m == 2 {
        if is_leap(y) {
            29
        } else {
            28
        }
    } else if m == 4 || m == 6 || m == 9 || m == 11 {
        30
    } else {
        31
    }
}

/// Whether year `y`, month `m` and day `d` make a date of the calendar.
pub open spec fn is_date(y: int, m: int, d: int) -> bool {
    1 <= m <= 12 && 1 <= d <= days_in_month(y, m)
}

/// The number of leap years among the years before `y`, counted from the
/// year 1 (negative for the years before it).
pub open spec fn leap_years_before(y: int) -> int {
    (y - 1) / 4 - (y - 1) / 100 + (y - 1) / 400
}

/// The number of days from 1970-01-01 to the first day of year `y`.
pub open spec fn days_before_year(y: int) -> int {
    365 * (y - 1970) + leap_years_before(y) - leap_years_before(1970)
}

/// The number of days of year `y` that lie before its month `m`.
pub open spec fn days_before_month(y: int, m: int) -> int
    decreases m,
{
    if m <= 1 {
        0
    } else {
        days_before_month(y, m - 1) + days_in_month(y, m - 1)
    }
}

/// The number of days from 1970-01-01 to the date of year `y`, month `m`
/// and day `d`.
pub open spec fn day_number(y: int, m: int, d: int) -> int {
    days_before_year(y) + days_before_month(y, m) + d - 1
}

/// The days of a year that begins in March, by the year's place in its era
/// of 400 years: 366 where the February at its end has a leap day.
spec fn march_year_len(year_of_era: int) -> int {
    if year_of_era % 4 == 3 && (year_of_era % 100 != 99 || year_of_era == 399) {
        366
    } else {
        365
    }
}

/// The days of an era that lie before its year `year_of_era`.
spec fn era_days_before(year_of_era: int) -> int {
    365 * year_of_era + year_of_era / 4 - year_of_era / 100
}

/// The year of the era that a day of the era falls in.
#[verifier::rlimit(50)]
proof fn lemma_year_of_era(doe: int)
    requires
        0 <= doe <= 146_096,
    ensures
        ({
            let yoe = (doe - doe / 1_460 + doe / 36_524 - doe / 146_096) / 365;
            &&& 0 <= yoe <= 399
            &&& era_days_before(yoe) <= doe < era_days_before(yoe) + march_year_len(yoe)
        }),
{
}

/// The month and day that a day of a year beginning in March falls on.
#[verifier::rlimit(50)]
proof fn lemma_month_of_march_year(y: int, doy: int)
    requires
        0 <= doy <= 365,
        doy == 365 ==> is_leap(y + 1),
    ensures
        ({
            let mp = (5 * doy + 2) / 153;
            let day = doy - (153 * mp + 2) / 5 + 1;
            let month = if mp < 10 {
                mp + 3
            } else {
                mp - 9
            };
            let year = if month <= 2 {
                y + 1
            } else {
                y
            };
            &&& is_date(year, month, day)
            &&& days_before_month(year, month) + day - 1 == (if month <= 2 {
                doy - 306
            } else {
                doy + 59 + (if is_leap(y) {
                    1int
                } else {
                    0int
                })
            })
        }),
{
    reveal_with_fuel(days_before_month, 13);
}

/// A year is as long as the calendar says: 366 days where it is a leap
/// year, else 365.
proof fn lemma_year_len(y: int)
    ensures
        days_before_year(y + 1) == days_before_year(y) + (if is_leap(y) {
            366int
        } else {
            365int
        }),
{
}

/// The year that begins in March of year `y` has a leap day at its end
/// where the year after `y` is a leap year.
proof fn lemma_march_year_len(era: int, yoe: int)
    requires
        0 <= yoe <= 399,
    ensures
        march_year_len(yoe) == 366 <==> is_leap(yoe + era * 400 + 1),
{
}

/// Whole eras pass through a division by 4, by 100 and by 400.
proof fn lemma_era_divides(era: int, k: int)
    ensures
        (400 * era + k) / 4 == 100 * era + k / 4,
        (400 * era + k) % 4 == k % 4,
        (400 * era + k) / 100 == 4 * era + k / 100,
        (400 * era + k) % 100 == k % 100,
        (400 * era + k) / 400 == era + k / 400,
        (400 * era + k) % 400 == k % 400,
{
    lemma_fundamental_div_mod_converse(400 * era + k, 4, 100 * era + k / 4, k % 4);
    lemma_fundamental_div_mod_converse(400 * era + k, 100, 4 * era + k / 100, k % 100);
    lemma_fundamental_div_mod_converse(400 * era + k, 400, era + k / 400, k % 400);
}

/// The leap years before a year, by the year's era and place in it.
proof fn lemma_leap_years_by_era(era: int, yoe: int)
    requires
        0 <= yoe <= 399,
    ensures
        leap_years_before(yoe + era * 400) == 97 * era + leap_years_before(yoe),
        is_leap(yoe + era * 400) <==> is_leap(yoe),
{
    lemma_era_divides(era, yoe - 1);
    lemma_era_divides(era, yoe);
}

/// The leap years of an era before one of its years, the leap day counted
/// with the year that begins in the March after it.
#[verifier::rlimit(50)]
proof fn lemma_leap_years_of_era(yoe: int)
    requires
        0 <= yoe <= 399,
    ensures
        leap_years_before(yoe) + (if is_leap(yoe) {
            1int
        } else {
            0int
        }) == yoe / 4 - yoe / 100,
{
}

/// The first of March of a year, counted in eras and counted from 1970.
proof fn lemma_first_of_march(era: int, yoe: int)
    requires
        0 <= yoe <= 399,
    ensures
        days_before_year(yoe + era * 400) + 59 + (if is_leap(yoe + era * 400) {
            1int
        } else {
            0int
        }) == era * 146_097 + era_days_before(yoe) - 719_468,
{
    lemma_leap_years_by_era(era, yoe);
    lemma_leap_years_of_era(yoe);
    assert(leap_years_before(1970) == 477);
}

/// The date that `civil_of_days` gives for a day is a date of the calendar,
/// and it is the date of that day: counting the days from 1970-01-01 to it
/// gives the day back.
pub proof fn lemma_civil_of_days_counts_back(days: int)
    ensures
        is_date(civil_of_days(days).0, civil_of_days(days).1, civil_of_days(days).2),
        day_number(civil_of_days(days).0, civil_of_days(days).1, civil_of_days(days).2)
            == days,
{
    let z = days + 719_468;
    let era = z / 146_097;
    let doe = z % 146_097;
    let yoe = (doe - doe / 1_460 + doe / 36_524 - doe / 146_096) / 365;
    let doy = doe - era_days_before(yoe);
    let y = yoe + era * 400;
    lemma_year_of_era(doe);
    lemma_march_year_len(era, yoe);
    lemma_month_of_march_year(y, doy);
    lemma_first_of_march(era, yoe);
    lemma_year_len(y);
}

/// The first days of the years come in the order of the years.
proof fn lemma_years_in_order(a: int, b: int)
    requires
        a <= b,
    ensures
        days_before_year(a) <= days_before_year(b),
    decreases b - a,
{
    if a < b {
        lemma_years_in_order(a, b - 1);
        lemma_year_len(b - 1);
    }
}

/// The days of a month lie within its year, and the months of a year
/// follow one another.
proof fn lemma_day_in_year(y: int, m: int, d: int)
    requires
        is_date(y, m, d),
    ensures
        days_before_year(y) + days_before_month(y, m) <= day_number(y, m, d) < days_before_year(y)
            + days_before_month(y, m + 1),
        0 <= days_before_month(y, m),
        days_before_month(y, m + 1) <= days_before_year(y + 1) - days_before_year(y),
{
    reveal_with_fuel(days_before_month, 14);
    lemma_year_len(y);
}

/// The months of a year follow one another.
proof fn lemma_months_in_order(y: int, m: int, n: int)
    requires
        1 <= m < n <= 12,
    ensures
        days_before_month(y, m + 1) <= days_before_month(y, n),
{
    reveal_with_fuel(days_before_month, 14);
}

/// No two dates have the same day number: the days are counted in the order
/// of the calendar.
pub proof fn lemma_day_number_tells_dates_apart(
    y1: int,
    m1: int,
    d1: int,
    y2: int,
    m2: int,
    d2: int,
)
    requires
        is_date(y1, m1, d1),
        is_date(y2, m2, d2),
        day_number(y1, m1, d1) == day_number(y2, m2, d2),
    ensures
        y1 == y2,
        m1 == m2,
        d1 == d2,
{
    lemma_day_in_year(y1, m1, d1);
    lemma_day_in_year(y2, m2, d2);
    if y1 < y2 {
        lemma_years_in_order(y1 + 1, y2);
    } else if y2 < y1 {
        lemma_years_in_order(y2 + 1, y1);
    } else if m1 < m2 {
        lemma_months_in_order(y1, m1, m2);
    } else if m2 < m1 {
        lemma_months_in_order(y1, m2, m1);
    }
}

/// Every date is the date that `civil_of_days` gives for its day number.
pub proof fn lemma_civil_of_day_number(y: int, m: int, d: int)
    requires
        is_date(y, m, d),
    ensures
        civil_of_days(day_number(y, m, d)) == (y, m, d),
{
    let found = civil_of_days(day_number(y, m, d));
    lemma_civil_of_days_counts_back(day_number(y, m, d));
    lemma_day_number_tells_dates_apart(found.0, found.1, found.2, y, m, d);
}

} // verus!
