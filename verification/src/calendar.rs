//! The Gregorian calendar in whole days: what a date is, how many days lie
//! between the Unix epoch and a date, and the conversion back from a day
//! count to the one date that lies there.

use vstd::prelude::*;

verus! {

/// Whether `year` is a leap year of the Gregorian calendar.
pub open spec fn is_leap_year(year: int) -> bool {
    year % 4 == 0 && (year % 100 != 0 || year % 400 == 0)
}

/// The number of days of `month` in `year`.
pub open spec fn days_in_month(year: int, month: int) -> int {
    if month == 2 {
        if is_leap_year(year) {
            29
        } else {
            28
        }
    } else if month == 4 || month == 6 || month == 9 || month == 11 {
        30
    } else {
        31
    }
}

/// Whether `year`-`month`-`day` is a date of the Gregorian calendar.
pub open spec fn is_date(year: int, month: int, day: int) -> bool {
    1 <= month <= 12 && 1 <= day <= days_in_month(year, month)
}

/// The number of days of `year` that lie before its month `month`.
pub open spec fn days_before_month(year: int, month: int) -> int {
    let leap: int = if is_leap_year(year) && month > 2 {
        1
    } else {
        0
    };
    leap + if month <= 1 {
        0int
    } else if month == 2 {
        31
    } else if month == 3 {
        59
    } else if month == 4 {
        90
    } else if month == 5 {
        120
    } else if month == 6 {
        151
    } else if month == 7 {
        181
    } else if month == 8 {
        212
    } else if month == 9 {
        243
    } else if month == 10 {
        273
    } else if month == 11 {
        304
    } else {
        334
    }
}

/// The number of leap years among the years `1 ..= year`, counted backwards
/// for years before 1.
pub open spec fn leap_years_through(year: int) -> int {
    year / 4 - year / 100 + year / 400
}

/// The number of days from 1 January 1970 to 1 January of `year`.
pub open spec fn days_before_year(year: int) -> int {
    365 * (year - 1970) + leap_years_through(year - 1) - leap_years_through(1969)
}

/// The number of days from 1 January 1970 to the date `year`-`month`-`day`.
pub open spec fn days_from_civil(year: int, month: int, day: int) -> int {
    days_before_year(year) + days_before_month(year, month) + day - 1
}

/// Days of an era of 400 years that lie before its year `k`, where years
/// begin on 1 March.
spec fn era_days_before(k: int) -> int {
    365 * k + k / 4 - k / 100
}

/// The year of the era that holds day `doe` of the era.
proof fn lemma_year_of_era(doe: int, yoe: int)
    requires
        0 <= doe <= 146_096,
        yoe == (doe - doe / 1460 + doe / 36_524 - doe / 146_096) / 365,
    ensures
        0 <= yoe <= 399,
        era_days_before(yoe) <= doe,
        doe - era_days_before(yoe) <= 365,
        doe - era_days_before(yoe) == 365 ==> (yoe + 1) % 4 == 0 && ((yoe + 1) % 100 != 0
            || yoe == 399),
{
    let c = doe / 36_524;
    if c == 0 {
        assert(0 <= yoe <= 99);
    } else if c == 1 {
        assert(100 <= yoe <= 199);
    } else if c == 2 {
        assert(200 <= yoe <= 299);
    } else if c == 3 {
        assert(300 <= yoe <= 399);
    } else {
        assert(doe == 146_096);
        assert(yoe == 399);
    }
}

/// Days of a year that begins on 1 March which lie before its month `mp`,
/// where month 0 is March and month 11 is February.
spec fn march_days_before(mp: int) -> int {
    (153 * mp + 2) / 5
}

/// The month and the day that hold day `doy` of a year that begins on
/// 1 March.
proof fn lemma_month_of_year(doy: int, mp: int, d: int)
    requires
        0 <= doy <= 365,
        mp == (5 * doy + 2) / 153,
        d == doy - march_days_before(mp) + 1,
    ensures
        0 <= mp <= 11,
        1 <= d <= 31,
        (mp == 1 || mp == 3 || mp == 6 || mp == 8) ==> d <= 30,
        mp == 11 ==> d <= 29,
        mp == 11 && d == 29 ==> doy == 365,
        doy == 365 ==> mp == 11 && d == 29,
{
}

/// Adding whole eras to a year changes neither its remainders by 4, 100
/// and 400 nor, therefore, whether it is a leap year; each era adds 97 leap
/// years.
proof fn lemma_era_shift(era: int, k: int)
    ensures
        (400 * era + k) % 4 == k % 4,
        (400 * era + k) % 100 == k % 100,
        (400 * era + k) % 400 == k % 400,
        is_leap_year(400 * era + k) == is_leap_year(k),
        leap_years_through(400 * era + k) == 97 * era + leap_years_through(k),
{
    assert((400 * era + k) / 4 == 100 * era + k / 4);
    assert((400 * era + k) / 100 == 4 * era + k / 100);
    assert((400 * era + k) / 400 == era + k / 400);
    assert((400 * era + k) % 4 == k % 4);
    assert((400 * era + k) % 100 == k % 100);
    assert((400 * era + k) % 400 == k % 400);
}

/// The days before a month, counted from 1 January and from 1 March.
proof fn lemma_month_tables(k: int, mp: int)
    requires
        0 <= mp <= 11,
    ensures
        mp < 10 ==> days_before_month(k, mp + 3) == march_days_before(mp) + 59 + if is_leap_year(
            k,
        ) {
            1int
        } else {
            0int
        },
        mp >= 10 ==> days_before_month(k, mp - 9) == march_days_before(mp) - 306,
{
}

/// Leap years before year `k` of an era, for a year that begins on 1 March.
proof fn lemma_leap_years_before(yoe: int)
    requires
        0 <= yoe <= 399,
    ensures
        leap_years_through(yoe) == yoe / 4 - yoe / 100 + yoe / 400,
        leap_years_through(yoe - 1) + (if is_leap_year(yoe) {
            1int
        } else {
            0int
        }) == yoe / 4 - yoe / 100,
{
    if yoe == 0 {
    } else {
        assert((yoe - 1) / 400 == 0);
        assert(yoe / 400 == 0);
        if yoe % 4 == 0 {
            assert((yoe - 1) / 4 == yoe / 4 - 1);
        } else {
            assert((yoe - 1) / 4 == yoe / 4);
        }
        if yoe % 100 == 0 {
            assert((yoe - 1) / 100 == yoe / 100 - 1);
            assert(yoe % 4 == 0);
        } else {
            assert((yoe - 1) / 100 == yoe / 100);
        }
        assert(yoe % 400 != 0);
    }
}

/// A date found by counting from 1 March of year 0 lies the right number of
/// days after 1 January 1970.
proof fn lemma_civil_days(era: int, yoe: int, doy: int, mp: int, d: int)
    requires
        0 <= yoe <= 399,
        0 <= mp <= 11,
        d == doy - march_days_before(mp) + 1,
    ensures
        ({
            let m = if mp < 10 {
                mp + 3
            } else {
                mp - 9
            };
            let year = 400 * era + yoe + if m <= 2 {
                1int
            } else {
                0int
            };
            days_from_civil(year, m, d) == 146_097 * era + era_days_before(yoe) + doy - 719_468
        }),
{
    let k = yoe + if mp < 10 {
        0int
    } else {
        1int
    };
    let year = 400 * era + k;
    lemma_era_shift(era, k - 1);
    lemma_era_shift(era, k);
    lemma_month_tables(year, mp);
    lemma_leap_years_before(yoe);
    assert(leap_years_through(1969) == 477);
    assert(year - 1 == 400 * era + (k - 1));
    assert(days_before_year(year) == 146_097 * era + 365 * k + leap_years_through(k - 1)
        - 719_527);
}

/// The date found by counting from 1 March of year 0 is a date of the
/// calendar.
proof fn lemma_civil_is_date(era: int, yoe: int, doy: int, mp: int, d: int)
    requires
        0 <= yoe <= 399,
        0 <= mp <= 11,
        1 <= d <= 31,
        (mp == 1 || mp == 3 || mp == 6 || mp == 8) ==> d <= 30,
        mp == 11 ==> d <= 29,
        mp == 11 && d == 29 ==> doy == 365,
        doy == 365 ==> (yoe + 1) % 4 == 0 && ((yoe + 1) % 100 != 0 || yoe == 399),
    ensures
        ({
            let m = if mp < 10 {
                mp + 3
            } else {
                mp - 9
            };
            let year = 400 * era + yoe + if m <= 2 {
                1int
            } else {
                0int
            };
            is_date(year, m, d)
        }),
{
    if mp == 11 {
        lemma_era_shift(era, yoe + 1);
        assert(400 * era + yoe + 1 == 400 * era + (yoe + 1));
        if yoe == 399 {
            assert(400int % 400 == 0 && 400int % 4 == 0);
        }
    }
}

proof fn lemma_step_by_4(n: int)
    ensures
        n / 4 - (n - 1) / 4 == if n % 4 == 0 {
            1int
        } else {
            0int
        },
{
}

proof fn lemma_step_by_100(n: int)
    ensures
        n / 100 - (n - 1) / 100 == if n % 100 == 0 {
            1int
        } else {
            0int
        },
{
}

proof fn lemma_step_by_400(n: int)
    ensures
        n / 400 - (n - 1) / 400 == if n % 400 == 0 {
            1int
        } else {
            0int
        },
{
}

proof fn lemma_centuries(n: int)
    ensures
        n % 400 == 0 ==> n % 100 == 0,
        n % 100 == 0 ==> n % 4 == 0,
{
    if n % 400 == 0 {
        assert(n == 100 * (4 * (n / 400)));
    }
    if n % 100 == 0 {
        assert(n == 4 * (25 * (n / 100)));
    }
}

/// A year has 365 days, and one more if it is a leap year.
proof fn lemma_year_length(year: int)
    ensures
        days_before_year(year + 1) - days_before_year(year) == 365 + if is_leap_year(year) {
            1int
        } else {
            0int
        },
{
    lemma_step_by_4(year);
    lemma_step_by_100(year);
    lemma_step_by_400(year);
    lemma_centuries(year);
}

/// Later years begin later.
proof fn lemma_years_in_order(earlier: int, later: int)
    requires
        earlier < later,
    ensures
        days_before_year(earlier + 1) <= days_before_year(later),
    decreases later - earlier,
{
    if earlier + 1 < later {
        lemma_years_in_order(earlier, later - 1);
        lemma_year_length(later - 1);
    }
}

/// A date lies within its year.
proof fn lemma_date_within_year(year: int, month: int, day: int)
    requires
        is_date(year, month, day),
    ensures
        days_before_year(year) <= days_from_civil(year, month, day) < days_before_year(year + 1),
{
    lemma_year_length(year);
}

/// No two dates lie the same number of days after 1 January 1970.
pub proof fn lemma_date_of_days_unique(y1: int, m1: int, d1: int, y2: int, m2: int, d2: int)
    requires
        is_date(y1, m1, d1),
        is_date(y2, m2, d2),
        days_from_civil(y1, m1, d1) == days_from_civil(y2, m2, d2),
    ensures
        y1 == y2,
        m1 == m2,
        d1 == d2,
{
    lemma_date_within_year(y1, m1, d1);
    lemma_date_within_year(y2, m2, d2);
    if y1 < y2 {
        lemma_years_in_order(y1, y2);
    }
    if y2 < y1 {
        lemma_years_in_order(y2, y1);
    }
}

/// A date on or after 1 January 1970 has a year of at least 1970.
pub proof fn lemma_year_since_epoch(year: int, month: int, day: int)
    requires
        is_date(year, month, day),
        days_from_civil(year, month, day) >= 0,
    ensures
        year >= 1970,
{
    lemma_date_within_year(year, month, day);
    if year < 1970 {
        lemma_years_in_order(year, 1970);
        assert(days_before_year(1970) == 0);
    }
}

/// The date that lies `days` days after 1 January 1970.
pub open spec fn date_of_days(days: int) -> (int, int, int) {
    choose|date: (int, int, int)|
        is_date(date.0, date.1, date.2) && days_from_civil(date.0, date.1, date.2) == days
}

/// A date that lies `days` days after 1 January 1970 is `date_of_days(days)`.
pub proof fn lemma_date_of_days(days: int, year: int, month: int, day: int)
    requires
        is_date(year, month, day),
        days_from_civil(year, month, day) == days,
    ensures
        date_of_days(days) == (year, month, day),
{
    let witness = (year, month, day);
    assert(is_date(witness.0, witness.1, witness.2) && days_from_civil(
        witness.0,
        witness.1,
        witness.2,
    ) == days);
    let found = date_of_days(days);
    lemma_date_of_days_unique(found.0, found.1, found.2, year, month, day);
}

/// Converts days since the Unix epoch, 1 January 1970, into year, month and
/// day of the Gregorian calendar. The result is a date of the calendar, it
/// lies `days` days after the epoch, and it is the only such date.
pub fn civil_from_days(days: i64) -> (date: (i64, u32, u32))
    requires
        days <= i64::MAX - 719_468,
    ensures
        is_date(date.0 as int, date.1 as int, date.2 as int),
        days_from_civil(date.0 as int, date.1 as int, date.2 as int) == days,
        (date.0 as int, date.1 as int, date.2 as int) == date_of_days(days as int),
{
    // Count from 1 March of year 0, so that the leap day ends a year.
    let z: i64 = days + 719_468;
    let era: i64 = (if z >= 0 {
        z
    } else {
        z - 146_096
    }) / 146_097;
    let doe: u32 = (z - era * 146_097) as u32;
    assert(0 <= doe <= 146_096 && z == era * 146_097 + doe);
    let yoe: u32 = (doe - doe / 1460 + doe / 36_524 - doe / 146_096) / 365;
    proof {
        lemma_year_of_era(doe as int, yoe as int);
    }
    let y: i64 = era * 400 + yoe as i64;
    let doy: u32 = doe - (365 * yoe + yoe / 4 - yoe / 100);
    assert(doy == doe - era_days_before(yoe as int));
    let mp: u32 = (5 * doy + 2) / 153;
    let d: u32 = doy - (153 * mp + 2) / 5 + 1;
    proof {
        lemma_month_of_year(doy as int, mp as int, d as int);
        lemma_civil_days(era as int, yoe as int, doy as int, mp as int, d as int);
        lemma_civil_is_date(era as int, yoe as int, doy as int, mp as int, d as int);
    }
    let m: u32 = if mp < 10 {
        mp + 3
    } else {
        mp - 9
    };
    let year: i64 = if m <= 2 {
        y + 1
    } else {
        y
    };
    proof {
        lemma_date_of_days(days as int, year as int, m as int, d as int);
    }
    (year, m, d)
}

/// Every day count has its date: `date_of_days` is a date of the calendar
/// that lies `days` days after 1 January 1970.
pub proof fn lemma_every_day_has_a_date(days: int)
    ensures
        ({
            let date = date_of_days(days);
            is_date(date.0, date.1, date.2) && days_from_civil(date.0, date.1, date.2) == days
        }),
{
    let z = days + 719_468;
    let era = z / 146_097;
    let doe = z % 146_097;
    let yoe = (doe - doe / 1460 + doe / 36_524 - doe / 146_096) / 365;
    lemma_year_of_era(doe, yoe);
    let doy = doe - era_days_before(yoe);
    let mp = (5 * doy + 2) / 153;
    let d = doy - march_days_before(mp) + 1;
    lemma_month_of_year(doy, mp, d);
    lemma_civil_days(era, yoe, doy, mp, d);
    lemma_civil_is_date(era, yoe, doy, mp, d);
    let m = if mp < 10 {
        mp + 3
    } else {
        mp - 9
    };
    let year = 400 * era + yoe + if m <= 2 {
        1int
    } else {
        0int
    };
    lemma_date_of_days(days, year, m, d);
}

/// Dates before the year 10000 lie fewer than 2 932 897 days after
/// 1 January 1970, and no others do.
pub proof fn lemma_year_before_10000(year: int, month: int, day: int)
    requires
        is_date(year, month, day),
        days_from_civil(year, month, day) < 2_932_897,
    ensures
        year <= 9999,
{
    lemma_date_within_year(year, month, day);
    if year > 10000 {
        lemma_years_in_order(9999, year);
    }
    assert(days_before_year(10000) == 2_932_897);
}

} // verus!
