//! The Gregorian calendar walked by the receipt stamp's day-to-date
//! conversion: day 0 is 1970-01-01, every day count names a valid date, and
//! each next day count names the next calendar date.

use vstd::prelude::*;

use crate::tuiwright::civil_from_days;

verus! {

/// Gregorian leap years: every fourth year, except centuries not divisible
/// by 400.
pub open spec fn is_leap_year(y: int) -> bool {
    y % 4 == 0 && (y % 100 != 0 || y % 400 == 0)
}

/// Number of days of month `m` (1 to 12) of year `y`.
pub open spec fn days_in_month(y: int, m: int) -> int {
    if m == 2 {
        if is_leap_year(y) {
            29
        } else {
            28
        }
    } else if m == 4 || m == 6 || m == 9 || m == 11 {
        30
    } else {
        31
    }
}

/// A `(year, month, day)` triple names a calendar date.
pub open spec fn valid_date(date: (int, int, int)) -> bool {
    let (y, m, d) = date;
    1 <= m <= 12 && 1 <= d <= days_in_month(y, m)
}

/// The calendar date after `date`.
pub open spec fn next_date(date: (int, int, int)) -> (int, int, int) {
    let (y, m, d) = date;
    if d < days_in_month(y, m) {
        (y, m, d + 1)
    } else if m < 12 {
        (y, m + 1, 1)
    } else {
        (y + 1, 1, 1)
    }
}

// ── The conversion, taken apart ────────────────────────────────────────
//
// Days are counted in 400-year eras that start on March 1st; an era splits
// into March-based years, and a March-based year into months March to
// February.

/// Days before March-based year `y` of an era.
pub open spec fn era_year_start(y: int) -> int {
    365 * y + y / 4 - y / 100
}

/// Length of March-based year `y` of an era; the last one ends the era.
pub open spec fn era_year_len(y: int) -> int {
    if y == 399 {
        366
    } else {
        era_year_start(y + 1) - era_year_start(y)
    }
}

/// The March-based year of an era that era day `doe` falls in.
pub open spec fn year_of_era_day(doe: int) -> int {
    (doe - doe / 1460 + doe / 36524 - doe / 146096) / 365
}

/// The date of day `doy` of March-based year `yoe` of era `era`.
pub open spec fn date_in_era(era: int, yoe: int, doy: int) -> (int, int, int) {
    let mp = (5 * doy + 2) / 153;
    let d = doy - (153 * mp + 2) / 5 + 1;
    let m = if mp < 10 {
        mp + 3
    } else {
        mp - 9
    };
    let y = yoe + era * 400;
    (if m <= 2 {
        y + 1
    } else {
        y
    }, m, d)
}

/// Every era day falls in exactly one March-based year, at an offset below
/// that year's length.
proof fn lemma_era_day_decomposes(doe: int)
    requires
        0 <= doe < 146097,
    ensures
        0 <= year_of_era_day(doe) < 400,
        0 <= doe - era_year_start(year_of_era_day(doe)) < era_year_len(year_of_era_day(doe)),
{
}

/// A March-based year lasts 366 days exactly when the February that ends
/// it is a leap February.
proof fn lemma_year_len_is_leap(era: int, yoe: int)
    requires
        0 <= yoe < 400,
    ensures
        era_year_len(yoe) == (if is_leap_year(yoe + era * 400 + 1) {
            366int
        } else {
            365int
        }),
{
}

/// Day `doy` of a March-based year of `len` days names a valid date, and the
/// next day of the same year names the next date.
proof fn lemma_day_of_year_walks(era: int, yoe: int, doy: int, len: int)
    requires
        0 <= yoe < 400,
        len == era_year_len(yoe),
        0 <= doy < len,
    ensures
        valid_date(date_in_era(era, yoe, doy)),
        doy + 1 < len ==> date_in_era(era, yoe, doy + 1) == next_date(date_in_era(era, yoe, doy)),
{
    lemma_year_len_is_leap(era, yoe);
}

/// The last day of a March-based year (the end of February) is followed by
/// March 1st of the next one, across era boundaries too.
proof fn lemma_year_end_walks(era: int, yoe: int)
    requires
        0 <= yoe < 400,
    ensures
        yoe < 399 ==> date_in_era(era, yoe + 1, 0) == next_date(
            date_in_era(era, yoe, era_year_len(yoe) - 1),
        ),
        yoe == 399 ==> date_in_era(era + 1, 0, 0) == next_date(
            date_in_era(era, yoe, era_year_len(yoe) - 1),
        ),
{
    lemma_year_len_is_leap(era, yoe);
}

/// Day 0 of the Unix epoch is 1970-01-01.
pub proof fn lemma_epoch_is_1970_01_01()
    ensures
        civil_from_days(0) == (1970int, 1int, 1int),
{
}

/// Counting days from the epoch walks the Gregorian calendar: every day
/// count names a valid date, and the next day count names the next date.
pub proof fn lemma_days_walk_the_calendar(n: int)
    requires
        n >= 0,
    ensures
        valid_date(civil_from_days(n)),
        civil_from_days(n + 1) == next_date(civil_from_days(n)),
{
    let z = n + 719468;
    let era = z / 146097;
    let doe = z - era * 146097;
    assert(0 <= doe < 146097);
    lemma_era_day_decomposes(doe);
    let yoe = year_of_era_day(doe);
    let doy = doe - era_year_start(yoe);
    let len = era_year_len(yoe);
    assert(civil_from_days(n) == date_in_era(era, yoe, doy));
    lemma_day_of_year_walks(era, yoe, doy, len);
    if doe + 1 < 146097 {
        lemma_era_day_decomposes(doe + 1);
        assert((z + 1) / 146097 == era);
        assert(civil_from_days(n + 1) == date_in_era(
            era,
            year_of_era_day(doe + 1),
            doe + 1 - era_year_start(year_of_era_day(doe + 1)),
        ));
        if doy + 1 < len {
            assert(year_of_era_day(doe + 1) == yoe);
        } else {
            assert(year_of_era_day(doe + 1) == yoe + 1);
            lemma_year_end_walks(era, yoe);
        }
    } else {
        assert((z + 1) / 146097 == era + 1);
        assert(civil_from_days(n + 1) == date_in_era(era + 1, 0, 0));
        lemma_year_end_walks(era, yoe);
    }
}

} // verus!
