//! Gregorian calendar arithmetic on plain year/month/day values.
//!
//! Every date the engine works with is reduced to a day index: the number of
//! days elapsed since 1900-01-01. The index is the bridge between the solar
//! calendar, the lunar table walk and the solar-term instants.

use vstd::prelude::*;

verus! {

/// First year any part of the engine supports.
pub const MIN_YEAR: i32 = 1900;

/// Last year a `SolarDate` may carry; far beyond every table bound, so the
/// bound never masks an in-range query.
pub const MAX_DATE_YEAR: i32 = 9999;

/// A Gregorian calendar date held as plain values.
#[derive(Clone, Copy, Debug, PartialEq, Eq, Structural)]
pub struct SolarDate {
    pub year: i32,
    pub month: u8,
    pub day: u8,
}

pub open spec fn is_leap_year(y: int) -> bool {
    (y % 4 == 0 && y % 100 != 0) || y % 400 == 0
}

pub open spec fn year_len(y: int) -> int {
    if is_leap_year(y) {
        366
    } else {
        365
    }
}

pub open spec fn month_len(y: int, m: int) -> int {
    if m == 2 {
        if is_leap_year(y) {
            29
        } else {
            28
        }
    } else if m == 4 || m == 6 || m == 9 || m == 11 {
        30
    } else {
        31
    }
}

/// Days of year `y` that precede month `m`.
pub open spec fn days_before_month(y: int, m: int) -> int
    decreases m,
{
    if m <= 1 {
        0
    } else {
        days_before_month(y, m - 1) + month_len(y, m - 1)
    }
}

/// Days between 1900-01-01 and the first day of year `y`.
pub open spec fn days_before_year(y: int) -> int
    decreases y - MIN_YEAR,
{
    if y <= MIN_YEAR {
        0
    } else {
        days_before_year(y - 1) + year_len(y - 1)
    }
}

impl SolarDate {
    /// A calendar-valid date within the years the engine can index.
    pub open spec fn wf(self) -> bool {
        MIN_YEAR <= self.year <= MAX_DATE_YEAR && 1 <= self.month <= 12 && 1 <= self.day
            && self.day <= month_len(self.year as int, self.month as int)
    }

    /// Days elapsed since 1900-01-01.
    pub open spec fn index_spec(self) -> int {
        days_before_year(self.year as int) + days_before_month(
            self.year as int,
            self.month as int,
        ) + self.day - 1
    }
}

/// The twelve month lengths sum to the year length.
pub proof fn lemma_months_fill_year(y: int)
    ensures
        days_before_month(y, 13) == year_len(y),
{
    reveal_with_fuel(days_before_month, 13);
}

/// `days_before_month` grows with the month.
pub proof fn lemma_days_before_month_mono(y: int, m1: int, m2: int)
    requires
        m1 <= m2,
    ensures
        days_before_month(y, m1) <= days_before_month(y, m2),
    decreases m2 - m1,
{
    if m1 < m2 {
        lemma_days_before_month_mono(y, m1, m2 - 1);
        if m2 <= 1 {
        } else {
            assert(days_before_month(y, m2) == days_before_month(y, m2 - 1) + month_len(y, m2 - 1));
        }
    }
}

/// `days_before_year` grows strictly with the year.
pub proof fn lemma_days_before_year_mono(y1: int, y2: int)
    requires
        MIN_YEAR <= y1 <= y2,
    ensures
        days_before_year(y1) + 365 * (y2 - y1) <= days_before_year(y2),
        days_before_year(y2) <= days_before_year(y1) + 366 * (y2 - y1),
    decreases y2 - y1,
{
    if y1 < y2 {
        lemma_days_before_year_mono(y1, y2 - 1);
    }
}

/// A date's index falls inside its own year's slice of the day line.
pub proof fn lemma_index_in_year(d: SolarDate)
    requires
        d.wf(),
    ensures
        days_before_year(d.year as int) <= d.index_spec(),
        d.index_spec() < days_before_year(d.year as int + 1),
{
    let y = d.year as int;
    let m = d.month as int;
    lemma_days_before_month_mono(y, 1, m);
    assert(days_before_month(y, m + 1) == days_before_month(y, m) + month_len(y, m));
    lemma_days_before_month_mono(y, m + 1, 13);
    lemma_months_fill_year(y);
    assert(days_before_year(y + 1) == days_before_year(y) + year_len(y));
}

/// Distinct well-formed dates have distinct day indexes; the index is a
/// faithful, order-preserving picture of the calendar.
pub proof fn lemma_index_injective(d1: SolarDate, d2: SolarDate)
    requires
        d1.wf(),
        d2.wf(),
        d1.index_spec() == d2.index_spec(),
    ensures
        d1 == d2,
{
    lemma_index_in_year(d1);
    lemma_index_in_year(d2);
    if d1.year < d2.year {
        lemma_days_before_year_mono(d1.year as int + 1, d2.year as int);
        assert(false);
    }
    if d2.year < d1.year {
        lemma_days_before_year_mono(d2.year as int + 1, d1.year as int);
        assert(false);
    }
    let y = d1.year as int;
    let m1 = d1.month as int;
    let m2 = d2.month as int;
    if m1 < m2 {
        assert(days_before_month(y, m1 + 1) == days_before_month(y, m1) + month_len(y, m1));
        lemma_days_before_month_mono(y, m1 + 1, m2);
        assert(false);
    }
    if m2 < m1 {
        assert(days_before_month(y, m2 + 1) == days_before_month(y, m2) + month_len(y, m2));
        lemma_days_before_month_mono(y, m2 + 1, m1);
        assert(false);
    }
}

/// Day count of one Gregorian month, for any nonnegative year the
/// proleptic Gregorian calendar can write with four digits.
pub fn days_in_month(year: i32, month: u8) -> (n: u8)
    requires
        0 <= year <= MAX_DATE_YEAR,
        1 <= month <= 12,
    ensures
        n == month_len(year as int, month as int),
{
    if month == 2 {
        if (year % 4 == 0 && year % 100 != 0) || year % 400 == 0 {
            29
        } else {
            28
        }
    } else if month == 4 || month == 6 || month == 9 || month == 11 {
        30
    } else {
        31
    }
}

impl SolarDate {
    /// Build a date after checking calendar validity.
    pub fn new(year: i32, month: u8, day: u8) -> (r: Option<SolarDate>)
        ensures
            match r {
                Some(d) => d.wf() && d.year == year && d.month == month && d.day == day,
                None => !(SolarDate { year, month, day }).wf(),
            },
    {
        if year < MIN_YEAR || year > MAX_DATE_YEAR || month < 1 || month > 12 {
            return None;
        }
        let len = days_in_month(year, month);
        if day < 1 || day > len {
            return None;
        }
        Some(SolarDate { year, month, day })
    }

    /// Days elapsed since 1900-01-01.
    pub fn day_index(&self) -> (n: i64)
        requires
            self.wf(),
        ensures
            n == self.index_spec(),
            0 <= n < 3000000,
    {
        let mut n: i64 = 0;
        let mut y: i32 = MIN_YEAR;
        while y < self.year
            invariant
                MIN_YEAR <= y <= self.year <= MAX_DATE_YEAR,
                n == days_before_year(y as int),
                0 <= n <= 366 * (y - MIN_YEAR),
            decreases self.year - y,
        {
            proof {
                lemma_days_before_year_mono(MIN_YEAR as int, y as int + 1);
            }
            if (y % 4 == 0 && y % 100 != 0) || y % 400 == 0 {
                n = n + 366;
            } else {
                n = n + 365;
            }
            y = y + 1;
        }
        let mut m: u8 = 1;
        let ghost base = n;
        while m < self.month
            invariant
                self.wf(),
                1 <= m <= self.month,
                base == days_before_year(self.year as int),
                0 <= base <= 366 * (MAX_DATE_YEAR - MIN_YEAR),
                n == base + days_before_month(self.year as int, m as int),
                base <= n <= base + 31 * (m - 1),
            decreases self.month - m,
        {
            n = n + days_in_month(self.year, m) as i64;
            m = m + 1;
        }
        n + (self.day - 1) as i64
    }
}

/// Upper bound used when walking the day line back to a date.
pub open spec fn max_day_index() -> int {
    days_before_year(MAX_DATE_YEAR as int + 1) - 1
}

/// Length of Gregorian year `y` in days.
pub fn gregorian_year_len(y: i32) -> (n: i64)
    requires
        MIN_YEAR <= y <= MAX_DATE_YEAR,
    ensures
        n == year_len(y as int),
{
    if (y % 4 == 0 && y % 100 != 0) || y % 400 == 0 {
        366
    } else {
        365
    }
}

/// Rebuild the date that sits `n` days after 1900-01-01: the inverse of
/// `day_index` over the supported window.
pub fn date_from_index(n: i64) -> (r: SolarDate)
    requires
        0 <= n <= max_day_index(),
    ensures
        r.wf(),
        r.index_spec() == n,
{
    let mut rem: i64 = n;
    let mut y: i32 = MIN_YEAR;
    while rem >= gregorian_year_len(y)
        invariant
            MIN_YEAR <= y <= MAX_DATE_YEAR,
            rem == n - days_before_year(y as int),
            0 <= rem,
            n <= max_day_index(),
        decreases MAX_DATE_YEAR - y,
    {
        proof {
            if y == MAX_DATE_YEAR {
                assert(days_before_year(MAX_DATE_YEAR as int + 1) == days_before_year(
                    MAX_DATE_YEAR as int,
                ) + year_len(MAX_DATE_YEAR as int));
                assert(false);
            }
        }
        rem = rem - gregorian_year_len(y);
        y = y + 1;
    }
    let mut m: u8 = 1;
    while rem >= days_in_month(y, m) as i64
        invariant
            1 <= m <= 12,
            MIN_YEAR <= y <= MAX_DATE_YEAR,
            rem == n - days_before_year(y as int) - days_before_month(y as int, m as int),
            0 <= rem,
            rem + days_before_month(y as int, m as int) < year_len(y as int),
        decreases 12 - m,
    {
        proof {
            if m == 12 {
                lemma_months_fill_year(y as int);
                assert(days_before_month(y as int, 13) == days_before_month(y as int, 12)
                    + month_len(y as int, 12));
                assert(false);
            }
        }
        rem = rem - days_in_month(y, m) as i64;
        m = m + 1;
    }
    SolarDate { year: y, month: m, day: (rem + 1) as u8 }
}

impl SolarDate {
    /// Weekday as days from Monday (0 = Monday); 1900-01-01 was a Monday.
    pub fn weekday_from_monday(&self) -> (w: u8)
        requires
            self.wf(),
        ensures
            w == self.index_spec() % 7,
            w < 7,
    {
        let n = self.day_index();
        (n % 7) as u8
    }
}

} // verus!
