//! The 24 solar terms, located by a fixed-coefficient approximation: a
//! base instant (1900-01-06 02:05:00) plus, per term and year, a minute
//! offset and a whole number of mean tropical years.
//!
//! All arithmetic is exact: the mean tropical year is carried in tenths
//! of a millisecond, and the final offset is rounded to the nearest
//! millisecond, half away from zero.

use vstd::prelude::*;

use crate::dates::SolarDate;

verus! {

/// Names of the 24 solar terms, in order within the tropical year.
pub const SOLAR_TERM_NAMES: [&'static str; 24] = [
    "小寒", "大寒", "立春", "雨水", "惊蛰", "春分", "清明", "谷雨", "立夏", "小满", "芒种", "夏至",
    "小暑", "大暑", "立秋", "处暑", "白露", "秋分", "寒露", "霜降", "立冬", "小雪", "大雪", "冬至",
];

/// Minutes from the base instant to each term of the base year.
pub const SOLAR_TERM_OFFSETS: [i64; 24] = [
    0, 21208, 42467, 63836, 85337, 107014, 128867, 150921, 173149, 195551, 218072, 240693, 263343,
    285989, 308563, 331033, 353350, 375494, 397447, 419210, 440795, 462224, 483532, 504758,
];

/// First year the approximation is trusted for.
pub const SOLAR_TERM_MIN_YEAR: i32 = 1900;

/// Last year the approximation is trusted for.
pub const SOLAR_TERM_MAX_YEAR: i32 = 2100;

/// The mean tropical year, in tenths of a millisecond.
pub const TROPICAL_YEAR_TENTH_MS: i64 = 315569259747;

/// Milliseconds from 1900-01-01 00:00 to the base instant,
/// 1900-01-06 02:05:00.
pub const BASE_INSTANT_MS: i64 = 439500000;

/// Milliseconds from the base instant to term `i` of year `y`: the
/// year offset plus the term's minute offset, rounded to the nearest
/// millisecond (half rounds up; the sum is never negative in range).
pub open spec fn term_offset_ms_spec(y: int, i: int) -> int {
    ((y - 1900) * TROPICAL_YEAR_TENTH_MS + SOLAR_TERM_OFFSETS[i] * 600000 + 5) / 10
}

/// Day index (days since 1900-01-01) on which term `i` of year `y` falls.
pub open spec fn term_day_index(y: int, i: int) -> int {
    (BASE_INSTANT_MS + term_offset_ms_spec(y, i)) / 86400000
}

/// Whether term `i` falls on date `d`.
pub open spec fn term_matches(d: SolarDate, i: int) -> bool {
    term_day_index(d.year as int, i) == d.index_spec()
}

/// View of the name of term `i`.
pub open spec fn term_name_seq(i: int) -> Seq<char> {
    SOLAR_TERM_NAMES[i]@
}

/// Rounded millisecond offset of term `index` of `year` from the base
/// instant; `None` only for a term index past the 24 terms.
pub fn solar_term_offset_ms(year: i32, index: usize) -> (r: Option<i64>)
    requires
        SOLAR_TERM_MIN_YEAR <= year <= SOLAR_TERM_MAX_YEAR,
    ensures
        index < 24 ==> r is Some && r->0 == term_offset_ms_spec(year as int, index as int),
        index >= 24 ==> r is None,
{
    if index >= 24 {
        return None;
    }
    let minutes = SOLAR_TERM_OFFSETS[index];
    assert(0 <= minutes <= 504758);
    let n: i64 = (year - 1900) as i64 * TROPICAL_YEAR_TENTH_MS + minutes * 600000 + 5;
    Some(n / 10)
}

/// Day index on which term `index` of `year` falls.
pub fn solar_term_day(year: i32, index: usize) -> (d: i64)
    requires
        SOLAR_TERM_MIN_YEAR <= year <= SOLAR_TERM_MAX_YEAR,
        index < 24,
    ensures
        d == term_day_index(year as int, index as int),
{
    let off = match solar_term_offset_ms(year, index) {
        Some(o) => o,
        None => 0,
    };
    proof {
        vstd::arithmetic::div_mod::lemma_div_pos_is_pos(
            (year - 1900) as int * TROPICAL_YEAR_TENTH_MS + SOLAR_TERM_OFFSETS[index as int]
                * 600000 + 5,
            10,
        );
    }
    (BASE_INSTANT_MS + off) / 86400000
}

/// What `solar_term_name` promises of its result: a name only inside the
/// trusted year window, and then the first of the 24 terms whose computed
/// date is the query date; `None` when no term falls on the date.
pub open spec fn term_result_ok(date: SolarDate, r: Option<&str>) -> bool {
    match r {
        Some(name) => SOLAR_TERM_MIN_YEAR <= date.year <= SOLAR_TERM_MAX_YEAR && exists|i: int|
            0 <= i < 24 && term_matches(date, i) && name@ == term_name_seq(i) && (forall|j: int|
                0 <= j < i ==> !term_matches(date, j)),
        None => !(SOLAR_TERM_MIN_YEAR <= date.year <= SOLAR_TERM_MAX_YEAR) || (forall|i: int|
            0 <= i < 24 ==> !term_matches(date, i)),
    }
}

/// The solar term falling on `date`, if any. Outside the trusted year
/// window the calculator reports none; inside it, the answer is the
/// first of the 24 terms whose computed date is the query date.
pub fn solar_term_name(date: SolarDate) -> (r: Option<&'static str>)
    requires
        date.wf(),
    ensures
        term_result_ok(date, r),
{
    if date.year < SOLAR_TERM_MIN_YEAR || date.year > SOLAR_TERM_MAX_YEAR {
        return None;
    }
    let idx = date.day_index();
    let mut i: usize = 0;
    while i < 24
        invariant
            date.wf(),
            SOLAR_TERM_MIN_YEAR <= date.year <= SOLAR_TERM_MAX_YEAR,
            idx == date.index_spec(),
            0 <= i <= 24,
            forall|j: int| 0 <= j < i ==> !term_matches(date, j),
        decreases 24 - i,
    {
        if solar_term_day(date.year, i) == idx {
            let name = SOLAR_TERM_NAMES[i];
            proof {
                let wi = i as int;
                assert(0 <= wi < 24 && term_matches(date, wi) && name@ == term_name_seq(wi) && (
                forall|j: int| 0 <= j < wi ==> !term_matches(date, j)));
            }
            return Some(name);
        }
        i = i + 1;
    }
    None
}

/// Adjacent terms sit at least 21208 minutes apart in the offset table.
proof fn lemma_offset_gap(i: int)
    requires
        0 <= i < 23,
    ensures
        SOLAR_TERM_OFFSETS[i] + 21208 <= SOLAR_TERM_OFFSETS[i + 1],
{
}

/// Within one year, the 24 term dates come out strictly increasing: each
/// term falls on a strictly later day than every term before it.
pub proof fn lemma_terms_strictly_increasing(y: int, i: int, j: int)
    requires
        SOLAR_TERM_MIN_YEAR <= y <= SOLAR_TERM_MAX_YEAR,
        0 <= i < j < 24,
    ensures
        term_day_index(y, i) < term_day_index(y, j),
    decreases j - i,
{
    if j == i + 1 {
        lemma_offset_gap(i);
        let dy = (y - 1900) * TROPICAL_YEAR_TENTH_MS;
        let ni = dy + SOLAR_TERM_OFFSETS[i] * 600000 + 5;
        let nj = dy + SOLAR_TERM_OFFSETS[j] * 600000 + 5;
        let gap = SOLAR_TERM_OFFSETS[j] - SOLAR_TERM_OFFSETS[i];
        assert(nj == ni + gap * 600000) by (nonlinear_arith)
            requires
                gap == SOLAR_TERM_OFFSETS[j] - SOLAR_TERM_OFFSETS[i],
                ni == dy + SOLAR_TERM_OFFSETS[i] * 600000 + 5,
                nj == dy + SOLAR_TERM_OFFSETS[j] * 600000 + 5,
        ;
        assert(gap * 600000 >= 21208 * 600000) by (nonlinear_arith)
            requires
                gap >= 21208,
        ;
        vstd::arithmetic::div_mod::lemma_fundamental_div_mod(ni, 10);
        vstd::arithmetic::div_mod::lemma_mod_multiples_vanish(gap * 60000, ni, 10);
        assert(nj / 10 == ni / 10 + gap * 60000) by {
            assert(nj == 10 * (ni / 10 + gap * 60000) + ni % 10) by (nonlinear_arith)
                requires
                    nj == ni + gap * 600000,
                    ni == 10 * (ni / 10) + ni % 10,
            ;
            vstd::arithmetic::div_mod::lemma_div_multiples_vanish_fancy(
                ni / 10 + gap * 60000,
                ni % 10,
                10,
            );
        }
        assert(gap * 60000 >= 86400000) by (nonlinear_arith)
            requires
                gap >= 21208,
        ;
        let bi = BASE_INSTANT_MS + ni / 10;
        let bj = BASE_INSTANT_MS + nj / 10;
        assert(bj >= bi + 86400000);
        vstd::arithmetic::div_mod::lemma_div_is_ordered(bi + 86400000, bj, 86400000);
        vstd::arithmetic::div_mod::lemma_div_plus_one(bi, 86400000);
    } else {
        lemma_terms_strictly_increasing(y, i, j - 1);
        lemma_terms_strictly_increasing(y, j - 1, j);
    }
}

/// Each term name comes out at most once per calendar year: two dates of
/// one year on which the same term falls are the same date.
pub proof fn lemma_term_at_most_once(d1: SolarDate, d2: SolarDate, i: int)
    requires
        d1.wf(),
        d2.wf(),
        d1.year == d2.year,
        0 <= i < 24,
        term_matches(d1, i),
        term_matches(d2, i),
    ensures
        d1 == d2,
{
    crate::dates::lemma_index_injective(d1, d2);
}

} // verus!
