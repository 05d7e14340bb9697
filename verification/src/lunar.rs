//! The lunisolar calendar: a packed table of lunar-year encodings, the
//! conversion from a Gregorian date to a lunar date, festival attachment,
//! and the sexagenary/zodiac year names.
//!
//! Each table entry packs one lunar year: bits 0-3 hold the leap-month
//! index (0 means none), bits 4-15 hold one flag per regular month (bit
//! `16 - m` set means month `m` has 30 days, else 29), and bit 16 holds
//! the leap month's length (set means 30 days).

use vstd::prelude::*;

pub use crate::dates::MIN_YEAR;

use crate::dates::SolarDate;

verus! {

/// Packed lunar-year encodings for the years 1900 and on, one entry per year.
pub const LUNAR_INFO: [u32; 213] = [
    0x04bd8, 0x04ae0, 0x0a570, 0x054d5, 0x0d260, 0x0d950, 0x16554, 0x056a0, 0x09ad0, 0x055d2,
    0x04ae0, 0x0a5b6, 0x0a4d0, 0x0d250, 0x1d255, 0x0b540, 0x0d6a0, 0x0ada2, 0x095b0, 0x14977,
    0x04970, 0x0a4b0, 0x0b4b5, 0x06a50, 0x06d40, 0x1ab54, 0x02b60, 0x09570, 0x052f2, 0x04970,
    0x06566, 0x0d4a0, 0x0ea50, 0x06e95, 0x05ad0, 0x02b60, 0x186e3, 0x092e0, 0x1c8d7, 0x0c950,
    0x0d4a0, 0x1d8a6, 0x0b550, 0x056a0, 0x1a5b4, 0x025d0, 0x092d0, 0x0d2b2, 0x0a950, 0x0b557,
    0x06ca0, 0x0b550, 0x15355, 0x04da0, 0x0a5d0, 0x14573, 0x052d0, 0x0a9a8, 0x0e950, 0x06aa0,
    0x0aea6, 0x0ab50, 0x04b60, 0x0aae4, 0x0a570, 0x05260, 0x0f263, 0x0d950, 0x05b57, 0x056a0,
    0x096d0, 0x04dd5, 0x04ad0, 0x0a4d0, 0x0d4d4, 0x0d250, 0x0d558, 0x0b540, 0x0b5a0, 0x195a6,
    0x095b0, 0x049b0, 0x0a974, 0x0a4b0, 0x0b27a, 0x06a50, 0x06d40, 0x0af46, 0x0ab60, 0x09570,
    0x04af5, 0x04970, 0x064b0, 0x074a3, 0x0ea50, 0x06b58, 0x05ac0, 0x0ab60, 0x096d5, 0x092e0,
    0x0c960, 0x0d954, 0x0d4a0, 0x0da50, 0x07552, 0x056a0, 0x0abb7, 0x025d0, 0x092d0, 0x0cab5,
    0x0a950, 0x0b4a0, 0x0baa4, 0x0ad50, 0x055d9, 0x04ba0, 0x0a5b0, 0x15176, 0x052b0, 0x0a930,
    0x07954, 0x06aa0, 0x0ad50, 0x05b52, 0x04b60, 0x0a6e6, 0x0a4e0, 0x0d260, 0x0ea65, 0x0d530,
    0x05aa0, 0x076a3, 0x096d0, 0x04bd7, 0x04ad0, 0x0a4d0, 0x1d0b6, 0x0d250, 0x0d520, 0x0dd45,
    0x0b5a0, 0x056d0, 0x055b2, 0x049b0, 0x0a577, 0x0a4b0, 0x0aa50, 0x1b255, 0x06d20, 0x0ada0,
    0x14b63, 0x09370, 0x049f8, 0x04970, 0x064b0, 0x168a6, 0x0ea50, 0x06b20, 0x1a6c4, 0x0aae0,
    0x0a2e0, 0x0d2e3, 0x0c960, 0x0d557, 0x0d4a0, 0x0da50, 0x05d55, 0x056a0, 0x0a6d0, 0x055d4,
    0x052d0, 0x0a9b8, 0x0a950, 0x0b4a0, 0x0b6a6, 0x0ad50, 0x055a0, 0x0aba4, 0x0a5b0, 0x052b0,
    0x0b273, 0x06930, 0x07337, 0x06aa0, 0x0ad50, 0x04b55, 0x04b60, 0x0a570, 0x054e4, 0x0d160,
    0x0e968, 0x0d520, 0x0daa0, 0x16aa6, 0x056d0, 0x04ae0, 0x0a9d4, 0x0a2d0, 0x0d150, 0x0f252,
    0x0d520, 0x0dd45, 0x0b5a0, 0x056d0, 0x055b2, 0x049b0, 0x0a577, 0x0a4b0, 0x0aa50, 0x1b255,
    0x06d20, 0x0ada0, 0x14b63,
];

/// Last year the table covers.
pub open spec fn max_year() -> int {
    MIN_YEAR + 213 - 1
}

/// The packed entry of year `y`; 0 ("no leap month, all months 29 days")
/// outside the table, so every decoder below is total.
pub open spec fn year_info_spec(y: int) -> u32 {
    if MIN_YEAR <= y <= max_year() {
        LUNAR_INFO[y - MIN_YEAR]
    } else {
        0u32
    }
}

/// Index of the leap month of year `y` (0 when the year has none):
/// the low four bits of the packed entry.
pub open spec fn leap_month_spec(y: int) -> int {
    year_info_spec(y) as int % 16
}

/// Mask of the flag bit of regular month `m`: bit `16 - m`, so month 1
/// sits at 0x8000 and month 12 at 0x10.
pub open spec fn month_mask(m: int) -> int {
    if m == 1 {
        0x8000
    } else if m == 2 {
        0x4000
    } else if m == 3 {
        0x2000
    } else if m == 4 {
        0x1000
    } else if m == 5 {
        0x800
    } else if m == 6 {
        0x400
    } else if m == 7 {
        0x200
    } else if m == 8 {
        0x100
    } else if m == 9 {
        0x80
    } else if m == 10 {
        0x40
    } else if m == 11 {
        0x20
    } else {
        0x10
    }
}

/// Length of the leap month of year `y` (bit 16 picks 30 over 29 days);
/// 0 when the year has none.
pub open spec fn leap_days_spec(y: int) -> int {
    if leap_month_spec(y) == 0 {
        0
    } else if (year_info_spec(y) as int / 0x10000) % 2 == 1 {
        30
    } else {
        29
    }
}

/// Length of regular lunar month `m` (1-12) of year `y`.
pub open spec fn month_days_spec(y: int, m: int) -> int {
    if (year_info_spec(y) as int / month_mask(m)) % 2 == 1 {
        30
    } else {
        29
    }
}

/// Total days of the regular months 1..=m of lunar year `y`.
pub open spec fn months_total(y: int, m: int) -> int
    decreases m,
{
    if m <= 0 {
        0
    } else {
        months_total(y, m - 1) + month_days_spec(y, m)
    }
}

/// Total days of lunar year `y`: its twelve regular months plus its leap
/// month, if it has one.
pub open spec fn lunar_year_days_spec(y: int) -> int {
    months_total(y, 12) + leap_days_spec(y)
}

/// Days between the lunar epoch (lunar 1900-01-01) and the first day of
/// lunar year `y`.
pub open spec fn days_before_lunar_year(y: int) -> int
    decreases y - MIN_YEAR,
{
    if y <= MIN_YEAR {
        0
    } else {
        days_before_lunar_year(y - 1) + lunar_year_days_spec(y - 1)
    }
}

/// Days of lunar year `y` that precede position (`m`, `is_leap`), the
/// months running 1, 2, ... with the leap month, if any, interleaved
/// right after its regular counterpart.
pub open spec fn days_before_lunar_month(y: int, m: int, is_leap: bool) -> int {
    months_total(y, m - 1) + (if 1 <= leap_month_spec(y) < m {
        leap_days_spec(y)
    } else {
        0
    }) + (if is_leap {
        month_days_spec(y, m)
    } else {
        0
    })
}

/// A date in the lunisolar calendar.
#[derive(Clone, Copy, Debug, PartialEq, Eq, Structural)]
pub struct LunarDate {
    pub year: i32,
    pub month: u8,
    pub day: u8,
    pub is_leap: bool,
}

impl LunarDate {
    /// A lunar date the table actually contains: the month exists in that
    /// year (leap months only where the entry declares one) and the day
    /// lies within the month's real length.
    pub open spec fn wf(self) -> bool {
        MIN_YEAR <= self.year <= max_year() && 1 <= self.month <= 12 && 1 <= self.day && (
        if self.is_leap {
            self.month == leap_month_spec(self.year as int) && self.day <= leap_days_spec(
                self.year as int,
            )
        } else {
            self.day <= month_days_spec(self.year as int, self.month as int)
        })
    }

    /// Days between the lunar epoch and this lunar date.
    pub open spec fn offset_spec(self) -> int {
        days_before_lunar_year(self.year as int) + days_before_lunar_month(
            self.year as int,
            self.month as int,
            self.is_leap,
        ) + self.day - 1
    }
}

/// Day index (days since 1900-01-01) of the lunar epoch, 1900-01-31.
pub open spec fn epoch_day_index() -> int {
    30
}

/// Last supported year of the lunar table.
pub fn max_supported_year() -> (y: i32)
    ensures
        y == max_year(),
{
    MIN_YEAR + (LUNAR_INFO.len() as i32) - 1
}

/// The packed entry of `year`, when the table covers it.
pub fn year_info(year: i32) -> (r: Option<u32>)
    ensures
        MIN_YEAR <= year <= max_year() ==> r == Some(year_info_spec(year as int)),
        !(MIN_YEAR <= year <= max_year()) ==> r is None,
{
    if MIN_YEAR <= year && year <= max_supported_year() {
        Some(LUNAR_INFO[(year - MIN_YEAR) as usize])
    } else {
        None
    }
}

/// Leap-month index of `year`, 0 when it has none (or is out of range).
pub fn leap_month(year: i32) -> (m: u8)
    ensures
        m == leap_month_spec(year as int),
        m <= 15,
{
    let info = match year_info(year) {
        Some(i) => i,
        None => 0,
    };
    proof {
        assert(info & 0xF == info % 16 && info % 16u32 < 16u32) by (bit_vector);
    }
    (info & 0xF) as u8
}

/// Length of the leap month of `year`; 0 when it has none.
pub fn leap_days(year: i32) -> (n: u8)
    ensures
        n == leap_days_spec(year as int),
{
    let leap = leap_month(year);
    if leap != 0 {
        let info = match year_info(year) {
            Some(i) => i,
            None => 0,
        };
        proof {
            assert((info & 0x10000u32 != 0) == ((info / 0x10000u32) % 2u32 == 1u32))
                by (bit_vector);
        }
        if info & 0x10000 != 0 {
            30
        } else {
            29
        }
    } else {
        0
    }
}

/// Length of regular lunar month `month` of `year`; 29 outside the table.
pub fn month_days(year: i32, month: i32) -> (n: u8)
    requires
        1 <= month <= 12,
    ensures
        n == month_days_spec(year as int, month as int),
        29 <= n <= 30,
{
    let info = match year_info(year) {
        Some(i) => i,
        None => 0,
    };
    let mask: u32 = 0x10000u32 >> (month as u32);
    proof {
        let m = month as u32;
        assert((1u32 <= m && m <= 12u32) ==> (0x10000u32 >> m) == (if m == 1u32 {
            0x8000u32
        } else if m == 2u32 {
            0x4000u32
        } else if m == 3u32 {
            0x2000u32
        } else if m == 4u32 {
            0x1000u32
        } else if m == 5u32 {
            0x800u32
        } else if m == 6u32 {
            0x400u32
        } else if m == 7u32 {
            0x200u32
        } else if m == 8u32 {
            0x100u32
        } else if m == 9u32 {
            0x80u32
        } else if m == 10u32 {
            0x40u32
        } else {
            if m == 11u32 {
                0x20u32
            } else {
                0x10u32
            }
        })) by (bit_vector);
        assert((1u32 <= m && m <= 12u32) ==> ((info & (0x10000u32 >> m) != 0) == ((info / (
        0x10000u32 >> m)) % 2u32 == 1u32))) by (bit_vector);
        assert(mask == month_mask(month as int));
    }
    if info & mask != 0 {
        30
    } else {
        29
    }
}

/// Total days of lunar year `year`.
pub fn lunar_year_days(year: i32) -> (r: i32)
    ensures
        r == lunar_year_days_spec(year as int),
        348 <= r <= 390,
{
    let mut sum: i32 = 0;
    let mut m: i32 = 1;
    while m <= 12
        invariant
            1 <= m <= 13,
            sum == months_total(year as int, m - 1),
            29 * (m - 1) <= sum <= 30 * (m - 1),
        decreases 13 - m,
    {
        sum = sum + month_days(year, m) as i32;
        m = m + 1;
    }
    sum + leap_days(year) as i32
}

/// A lunar date plus the festival, if any, that falls on it.
#[derive(Clone, Copy, Debug)]
pub struct LunarInfo {
    pub date: LunarDate,
    pub festival: Option<&'static str>,
}

/// The fixed lunar festivals, keyed by (month, day).
pub open spec fn festival_name(m: int, d: int) -> Option<Seq<char>> {
    if m == 1 && d == 1 {
        Some("春节"@)
    } else if m == 1 && d == 15 {
        Some("元宵节"@)
    } else if m == 2 && d == 2 {
        Some("龙抬头"@)
    } else if m == 5 && d == 5 {
        Some("端午节"@)
    } else if m == 7 && d == 7 {
        Some("七夕节"@)
    } else if m == 7 && d == 15 {
        Some("中元节"@)
    } else if m == 8 && d == 15 {
        Some("中秋节"@)
    } else if m == 9 && d == 9 {
        Some("重阳节"@)
    } else if m == 12 && d == 8 {
        Some("腊八节"@)
    } else if m == 12 && d == 23 {
        Some("小年"@)
    } else {
        None
    }
}

/// The festival attached to a lunar date: leap months carry none, the
/// last day of month 12 is New Year's Eve whatever else falls on it, and
/// otherwise the fixed table decides.
pub open spec fn lunar_label_spec(y: int, m: int, d: int, is_leap: bool) -> Option<Seq<char>> {
    if is_leap {
        None
    } else if m == 12 && d == month_days_spec(y, 12) {
        Some("除夕"@)
    } else {
        festival_name(m, d)
    }
}

/// Festival on lunar (month, day), from the fixed table alone.
pub fn lunar_festival(month: u8, day: u8) -> (r: Option<&'static str>)
    ensures
        (match r {
            Some(s) => festival_name(month as int, day as int) == Some(s@),
            None => festival_name(month as int, day as int) is None,
        }),
{
    if month == 1 && day == 1 {
        Some("春节")
    } else if month == 1 && day == 15 {
        Some("元宵节")
    } else if month == 2 && day == 2 {
        Some("龙抬头")
    } else if month == 5 && day == 5 {
        Some("端午节")
    } else if month == 7 && day == 7 {
        Some("七夕节")
    } else if month == 7 && day == 15 {
        Some("中元节")
    } else if month == 8 && day == 15 {
        Some("中秋节")
    } else if month == 9 && day == 9 {
        Some("重阳节")
    } else if month == 12 && day == 8 {
        Some("腊八节")
    } else if month == 12 && day == 23 {
        Some("小年")
    } else {
        None
    }
}

/// Length of the month at walk position (`month`, `is_leap`) of `year`.
fn lunar_month_len(year: i32, month: i32, is_leap: bool) -> (n: u8)
    requires
        1 <= month <= 12,
    ensures
        n == (if is_leap {
            leap_days_spec(year as int)
        } else {
            month_days_spec(year as int, month as int)
        }),
        n <= 30,
{
    if is_leap {
        leap_days(year)
    } else {
        month_days(year, month)
    }
}

/// What `solar_to_lunar` promises of its result: `None` exactly off the
/// day range the table covers; otherwise a well-formed lunar date whose
/// day count from the lunar epoch equals the query's, carrying the
/// festival of the day.
pub open spec fn lunar_result_ok(date: SolarDate, r: Option<LunarInfo>) -> bool {
    match r {
        None => date.index_spec() < epoch_day_index() || date.index_spec() - epoch_day_index()
            >= days_before_lunar_year(max_year() + 1),
        Some(info) => info.date.wf() && info.date.offset_spec() == date.index_spec()
            - epoch_day_index() && (match info.festival {
            Some(name) => lunar_label_spec(
                info.date.year as int,
                info.date.month as int,
                info.date.day as int,
                info.date.is_leap,
            ) == Some(name@),
            None => lunar_label_spec(
                info.date.year as int,
                info.date.month as int,
                info.date.day as int,
                info.date.is_leap,
            ) is None,
        }),
    }
}

/// Convert a Gregorian date to its lunar representation: walk whole lunar
/// years, then the located year's months (leap month interleaved after its
/// regular counterpart), and attach the festival of the day. Dates before
/// the lunar epoch 1900-01-31 or past the table's last year yield `None`.
pub fn solar_to_lunar(date: SolarDate) -> (r: Option<LunarInfo>)
    requires
        date.wf(),
    ensures
        lunar_result_ok(date, r),
{
    let idx = date.day_index();
    if idx < 30 {
        return None;
    }
    let mut offset: i64 = idx - 30;
    let ghost off_total = offset as int;
    let maxy = max_supported_year();
    let mut year: i32 = MIN_YEAR;
    while year <= maxy && offset >= lunar_year_days(year) as i64
        invariant
            MIN_YEAR <= year <= maxy + 1,
            maxy == max_year(),
            offset == off_total - days_before_lunar_year(year as int),
            0 <= offset,
            off_total == date.index_spec() - epoch_day_index(),
            off_total < 3000000,
        decreases maxy + 1 - year,
    {
        offset = offset - lunar_year_days(year) as i64;
        year = year + 1;
    }
    if year > maxy {
        return None;
    }
    let leap = leap_month(year);
    proof {
        lemma_leap_month_bounded(year as int);
    }
    let ghost off_year = offset as int;
    let mut month: i32 = 1;
    let mut is_leap: bool = false;
    while offset >= lunar_month_len(year, month, is_leap) as i64
        invariant
            1 <= month <= 12,
            MIN_YEAR <= year <= max_year(),
            leap == leap_month_spec(year as int),
            leap <= 12,
            is_leap ==> month == leap as i32 && leap != 0,
            offset == off_year - days_before_lunar_month(year as int, month as int, is_leap),
            0 <= offset,
            0 <= off_year < lunar_year_days_spec(year as int),
        decreases 13 - month, (if is_leap {
            0int
        } else {
            1int
        }),
    {
        let len = lunar_month_len(year, month, is_leap) as i64;
        offset = offset - len;
        proof {
            assert(months_total(year as int, month as int) == months_total(
                year as int,
                month as int - 1,
            ) + month_days_spec(year as int, month as int));
        }
        if leap != 0 && month == leap as i32 && !is_leap {
            is_leap = true;
        } else {
            proof {
                if month == 12 {
                    assert(false);
                }
            }
            if is_leap {
                is_leap = false;
            }
            month = month + 1;
        }
    }
    let day_num = (offset + 1) as u8;
    let month_u8 = month as u8;
    let festival: Option<&'static str> = if is_leap {
        None
    } else {
        let base = lunar_festival(month_u8, day_num);
        if month == 12 && day_num == month_days(year, 12) {
            Some("除夕")
        } else {
            base
        }
    };
    Some(
        LunarInfo {
            date: LunarDate { year, month: month_u8, day: day_num, is_leap },
            festival,
        },
    )
}

/// The ten heavenly stems of the sexagenary cycle.
pub const STEMS: [char; 10] = ['甲', '乙', '丙', '丁', '戊', '己', '庚', '辛', '壬', '癸'];

/// The twelve earthly branches of the sexagenary cycle.
pub const BRANCHES: [char; 12] = [
    '子', '丑', '寅', '卯', '辰', '巳', '午', '未', '申', '酉', '戌', '亥',
];

/// The twelve zodiac animals, aligned with the earthly branches.
pub const ZODIAC: [char; 12] = [
    '鼠', '牛', '虎', '兔', '龙', '蛇', '马', '羊', '猴', '鸡', '狗', '猪',
];

/// Names of the twelve lunar months.
pub const MONTH_NAMES: [char; 12] = [
    '正', '二', '三', '四', '五', '六', '七', '八', '九', '十', '冬', '腊',
];

/// Names of the thirty days of a lunar month.
pub const DAY_NAMES: [&'static str; 30] = [
    "初一", "初二", "初三", "初四", "初五", "初六", "初七", "初八", "初九", "初十", "十一", "十二",
    "十三", "十四", "十五", "十六", "十七", "十八", "十九", "二十", "廿一", "廿二", "廿三", "廿四",
    "廿五", "廿六", "廿七", "廿八", "廿九", "三十",
];

/// Stem cycle position of a year; year 4 CE opens the cycle.
pub open spec fn stem_index(y: int) -> int {
    (y - 4) % 10
}

/// Branch (and zodiac) cycle position of a year.
pub open spec fn branch_index(y: int) -> int {
    (y - 4) % 12
}

/// Shift a year into nonnegative range without moving its cycle
/// positions: the added constant is a multiple of 60.
fn cycle_base(year: i32) -> (y: i64)
    ensures
        0 <= y,
        y % 10 == stem_index(year as int),
        y % 12 == branch_index(year as int),
{
    let y: i64 = year as i64 + 2147483696;
    proof {
        vstd::arithmetic::div_mod::lemma_mod_multiples_vanish(214748370, year as int - 4, 10);
        vstd::arithmetic::div_mod::lemma_mod_multiples_vanish(178956975, year as int - 4, 12);
    }
    y
}

/// Sexagenary (stem-branch) name of a lunar year, two characters.
pub fn gan_zhi_year(year: i32) -> (r: String)
    ensures
        r@.len() == 2,
        r@[0] == STEMS[stem_index(year as int)],
        r@[1] == BRANCHES[branch_index(year as int)],
{
    let y = cycle_base(year);
    let si = (y % 10) as usize;
    let bi = (y % 12) as usize;
    let mut r = String::new();
    r.push(STEMS[si]);
    r.push(BRANCHES[bi]);
    r
}

/// Zodiac animal of a lunar year.
pub fn zodiac_animal(year: i32) -> (c: char)
    ensures
        c == ZODIAC[branch_index(year as int)],
{
    let y = cycle_base(year);
    ZODIAC[(y % 12) as usize]
}

/// Name of lunar month `m`; out-of-range months fall back to month 1.
pub open spec fn month_name_spec(m: int) -> char {
    if 1 <= m <= 12 {
        MONTH_NAMES[m - 1]
    } else {
        MONTH_NAMES[0]
    }
}

/// Name of lunar month `month`.
pub fn month_name_for(month: u8) -> (c: char)
    ensures
        c == month_name_spec(month as int),
{
    if 1 <= month && month <= 12 {
        MONTH_NAMES[(month - 1) as usize]
    } else {
        MONTH_NAMES[0]
    }
}

/// Name of lunar day `d`; out-of-range days fall back to day 1.
pub open spec fn day_name_spec(d: int) -> Seq<char> {
    if 1 <= d <= 30 {
        DAY_NAMES[d - 1]@
    } else {
        DAY_NAMES[0]@
    }
}

/// Name of lunar day `day`.
pub fn day_name_for(day: u8) -> (r: &'static str)
    ensures
        r@ == day_name_spec(day as int),
{
    if 1 <= day && day <= 30 {
        DAY_NAMES[(day - 1) as usize]
    } else {
        DAY_NAMES[0]
    }
}

/// Label of a lunar month: its name, marked as leap where it is one.
pub open spec fn month_label_spec(m: int, is_leap: bool) -> Seq<char> {
    (if is_leap {
        Seq::empty().push('闰')
    } else {
        Seq::empty()
    }).push(month_name_spec(m)).push('月')
}

impl LunarInfo {
    /// The day's short label: its festival where it has one, else the
    /// day's name.
    pub fn display_label(&self) -> (r: &'static str)
        ensures
            r@ == (match self.festival {
                Some(s) => s@,
                None => day_name_spec(self.date.day as int),
            }),
    {
        match self.festival {
            Some(s) => s,
            None => day_name_for(self.date.day),
        }
    }

    /// The month's label, a leap month marked as such.
    pub fn month_label(&self) -> (r: String)
        ensures
            r@ == month_label_spec(self.date.month as int, self.date.is_leap),
    {
        let mut s = String::new();
        if self.date.is_leap {
            s.push('闰');
        }
        s.push(month_name_for(self.date.month));
        s.push('月');
        s
    }
}

/// Walk back from a lunar date to its day count from the lunar epoch:
/// the re-derivation that inverts `solar_to_lunar`.
pub fn lunar_day_offset(l: LunarDate) -> (n: i64)
    requires
        l.wf(),
    ensures
        n == l.offset_spec(),
        0 <= n,
{
    let mut n: i64 = 0;
    let mut y: i32 = MIN_YEAR;
    while y < l.year
        invariant
            MIN_YEAR <= y <= l.year <= max_year(),
            n == days_before_lunar_year(y as int),
            0 <= n <= 390 * (y - MIN_YEAR),
        decreases l.year - y,
    {
        n = n + lunar_year_days(y) as i64;
        y = y + 1;
    }
    let leap = leap_month(l.year);
    let mut m: i32 = 1;
    let ghost base = n as int;
    while m < l.month as i32
        invariant
            1 <= m <= l.month <= 12,
            base == days_before_lunar_year(l.year as int),
            0 <= base <= 390 * (max_year() - MIN_YEAR),
            n == base + months_total(l.year as int, m - 1),
            base <= n <= base + 30 * (m - 1),
        decreases l.month as i32 - m,
    {
        n = n + month_days(l.year, m) as i64;
        m = m + 1;
    }
    if leap != 0 && (leap as i32) < l.month as i32 {
        n = n + leap_days(l.year) as i64;
    }
    if l.is_leap {
        n = n + month_days(l.year, l.month as i32) as i64;
    }
    n + (l.day - 1) as i64
}

/// Round trip: the day count re-derived from a conversion result leads
/// back to the original Gregorian date and to no other.
pub proof fn lemma_lunar_round_trip(d1: SolarDate, d2: SolarDate, l: LunarDate)
    requires
        d1.wf(),
        d2.wf(),
        l.offset_spec() == d1.index_spec() - epoch_day_index(),
        d2.index_spec() == epoch_day_index() + l.offset_spec(),
    ensures
        d2 == d1,
{
    crate::dates::lemma_index_injective(d1, d2);
}

/// Monotone: of two convertible Gregorian dates, the earlier one's lunar
/// representation lies no later on the lunar day line.
pub proof fn lemma_lunar_monotone(d1: SolarDate, l1: LunarDate, d2: SolarDate, l2: LunarDate)
    requires
        l1.offset_spec() == d1.index_spec() - epoch_day_index(),
        l2.offset_spec() == d2.index_spec() - epoch_day_index(),
        d1.index_spec() <= d2.index_spec(),
    ensures
        l1.offset_spec() <= l2.offset_spec(),
{
}

/// What a table entry must satisfy to describe a lunisolar year: a day
/// count of 12 or 13 months of 29 or 30 days each, and a leap-month
/// index that names a real month or none.
pub open spec fn year_entry_ok(y: int) -> bool {
    353 <= lunar_year_days_spec(y) <= 385 && leap_month_spec(y) <= 12
}

/// The entry conditions hold for the first `n` table years.
spec fn band_ok_upto(n: int) -> bool
    decreases n,
{
    if n <= 0 {
        true
    } else {
        band_ok_upto(n - 1) && year_entry_ok(MIN_YEAR + n - 1)
    }
}

proof fn lemma_band_upto(n: int, i: int)
    requires
        band_ok_upto(n),
        0 <= i < n,
    ensures
        year_entry_ok(MIN_YEAR + i),
    decreases n,
{
    if i < n - 1 {
        lemma_band_upto(n - 1, i);
    }
}

/// Every supported lunar year has between 353 and 385 days: the year
/// lengths the table encodes never leave the lunisolar band.
pub proof fn lemma_lunar_year_days_band(y: int)
    requires
        MIN_YEAR <= y <= max_year(),
    ensures
        353 <= lunar_year_days_spec(y) <= 385,
{
    lemma_band_all();
    lemma_band_upto(213, y - MIN_YEAR);
}

/// Every supported lunar year's leap-month index names one of its twelve
/// months, or no month at all.
pub proof fn lemma_leap_month_bounded(y: int)
    requires
        MIN_YEAR <= y <= max_year(),
    ensures
        0 <= leap_month_spec(y) <= 12,
{
    lemma_band_all();
    lemma_band_upto(213, y - MIN_YEAR);
}


/// The twelve regular months unfold to 348 days plus the twelve
/// month-length flag bits of the packed entry.
proof fn lemma_months_total_formula(y: int)
    ensures
        months_total(y, 12) == 348 + (year_info_spec(y) as int / 0x8000) % 2 + (year_info_spec(y)
            as int / 0x4000) % 2 + (year_info_spec(y) as int / 0x2000) % 2 + (year_info_spec(y)
            as int / 0x1000) % 2 + (year_info_spec(y) as int / 0x800) % 2 + (year_info_spec(y)
            as int / 0x400) % 2 + (year_info_spec(y) as int / 0x200) % 2 + (year_info_spec(y)
            as int / 0x100) % 2 + (year_info_spec(y) as int / 0x80) % 2 + (year_info_spec(y)
            as int / 0x40) % 2 + (year_info_spec(y) as int / 0x20) % 2 + (year_info_spec(y)
            as int / 0x10) % 2,
{
    reveal_with_fuel(months_total, 13);
}

/// The entry conditions hold for the whole table. The check is ground:
/// the parts below each evaluate a run of twenty entries, through the
/// closed form that `lemma_months_total_formula` gives the month sum.
proof fn lemma_band_all()
    ensures
        band_ok_upto(213),
{
    lemma_band_part10();
}

#[verifier::spinoff_prover]
#[verifier::rlimit(60)]
proof fn lemma_band_part0()
    ensures
        band_ok_upto(20),
{
    reveal_with_fuel(band_ok_upto, 22);
    lemma_months_total_formula(1900);
    assert(year_entry_ok(1900));
    lemma_months_total_formula(1901);
    assert(year_entry_ok(1901));
    lemma_months_total_formula(1902);
    assert(year_entry_ok(1902));
    lemma_months_total_formula(1903);
    assert(year_entry_ok(1903));
    lemma_months_total_formula(1904);
    assert(year_entry_ok(1904));
    lemma_months_total_formula(1905);
    assert(year_entry_ok(1905));
    lemma_months_total_formula(1906);
    assert(year_entry_ok(1906));
    lemma_months_total_formula(1907);
    assert(year_entry_ok(1907));
    lemma_months_total_formula(1908);
    assert(year_entry_ok(1908));
    lemma_months_total_formula(1909);
    assert(year_entry_ok(1909));
    lemma_months_total_formula(1910);
    assert(year_entry_ok(1910));
    lemma_months_total_formula(1911);
    assert(year_entry_ok(1911));
    lemma_months_total_formula(1912);
    assert(year_entry_ok(1912));
    lemma_months_total_formula(1913);
    assert(year_entry_ok(1913));
    lemma_months_total_formula(1914);
    assert(year_entry_ok(1914));
    lemma_months_total_formula(1915);
    assert(year_entry_ok(1915));
    lemma_months_total_formula(1916);
    assert(year_entry_ok(1916));
    lemma_months_total_formula(1917);
    assert(year_entry_ok(1917));
    lemma_months_total_formula(1918);
    assert(year_entry_ok(1918));
    lemma_months_total_formula(1919);
    assert(year_entry_ok(1919));
}

#[verifier::spinoff_prover]
#[verifier::rlimit(60)]
proof fn lemma_band_part1()
    ensures
        band_ok_upto(40),
{
    lemma_band_part0();
    reveal_with_fuel(band_ok_upto, 22);
    lemma_months_total_formula(1920);
    assert(year_entry_ok(1920));
    lemma_months_total_formula(1921);
    assert(year_entry_ok(1921));
    lemma_months_total_formula(1922);
    assert(year_entry_ok(1922));
    lemma_months_total_formula(1923);
    assert(year_entry_ok(1923));
    lemma_months_total_formula(1924);
    assert(year_entry_ok(1924));
    lemma_months_total_formula(1925);
    assert(year_entry_ok(1925));
    lemma_months_total_formula(1926);
    assert(year_entry_ok(1926));
    lemma_months_total_formula(1927);
    assert(year_entry_ok(1927));
    lemma_months_total_formula(1928);
    assert(year_entry_ok(1928));
    lemma_months_total_formula(1929);
    assert(year_entry_ok(1929));
    lemma_months_total_formula(1930);
    assert(year_entry_ok(1930));
    lemma_months_total_formula(1931);
    assert(year_entry_ok(1931));
    lemma_months_total_formula(1932);
    assert(year_entry_ok(1932));
    lemma_months_total_formula(1933);
    assert(year_entry_ok(1933));
    lemma_months_total_formula(1934);
    assert(year_entry_ok(1934));
    lemma_months_total_formula(1935);
    assert(year_entry_ok(1935));
    lemma_months_total_formula(1936);
    assert(year_entry_ok(1936));
    lemma_months_total_formula(1937);
    assert(year_entry_ok(1937));
    lemma_months_total_formula(1938);
    assert(year_entry_ok(1938));
    lemma_months_total_formula(1939);
    assert(year_entry_ok(1939));
}

#[verifier::spinoff_prover]
#[verifier::rlimit(60)]
proof fn lemma_band_part2()
    ensures
        band_ok_upto(60),
{
    lemma_band_part1();
    reveal_with_fuel(band_ok_upto, 22);
    lemma_months_total_formula(1940);
    assert(year_entry_ok(1940));
    lemma_months_total_formula(1941);
    assert(year_entry_ok(1941));
    lemma_months_total_formula(1942);
    assert(year_entry_ok(1942));
    lemma_months_total_formula(1943);
    assert(year_entry_ok(1943));
    lemma_months_total_formula(1944);
    assert(year_entry_ok(1944));
    lemma_months_total_formula(1945);
    assert(year_entry_ok(1945));
    lemma_months_total_formula(1946);
    assert(year_entry_ok(1946));
    lemma_months_total_formula(1947);
    assert(year_entry_ok(1947));
    lemma_months_total_formula(1948);
    assert(year_entry_ok(1948));
    lemma_months_total_formula(1949);
    assert(year_entry_ok(1949));
    lemma_months_total_formula(1950);
    assert(year_entry_ok(1950));
    lemma_months_total_formula(1951);
    assert(year_entry_ok(1951));
    lemma_months_total_formula(1952);
    assert(year_entry_ok(1952));
    lemma_months_total_formula(1953);
    assert(year_entry_ok(1953));
    lemma_months_total_formula(1954);
    assert(year_entry_ok(1954));
    lemma_months_total_formula(1955);
    assert(year_entry_ok(1955));
    lemma_months_total_formula(1956);
    assert(year_entry_ok(1956));
    lemma_months_total_formula(1957);
    assert(year_entry_ok(1957));
    lemma_months_total_formula(1958);
    assert(year_entry_ok(1958));
    lemma_months_total_formula(1959);
    assert(year_entry_ok(1959));
}

#[verifier::spinoff_prover]
#[verifier::rlimit(60)]
proof fn lemma_band_part3()
    ensures
        band_ok_upto(80),
{
    lemma_band_part2();
    reveal_with_fuel(band_ok_upto, 22);
    lemma_months_total_formula(1960);
    assert(year_entry_ok(1960));
    lemma_months_total_formula(1961);
    assert(year_entry_ok(1961));
    lemma_months_total_formula(1962);
    assert(year_entry_ok(1962));
    lemma_months_total_formula(1963);
    assert(year_entry_ok(1963));
    lemma_months_total_formula(1964);
    assert(year_entry_ok(1964));
    lemma_months_total_formula(1965);
    assert(year_entry_ok(1965));
    lemma_months_total_formula(1966);
    assert(year_entry_ok(1966));
    lemma_months_total_formula(1967);
    assert(year_entry_ok(1967));
    lemma_months_total_formula(1968);
    assert(year_entry_ok(1968));
    lemma_months_total_formula(1969);
    assert(year_entry_ok(1969));
    lemma_months_total_formula(1970);
    assert(year_entry_ok(1970));
    lemma_months_total_formula(1971);
    assert(year_entry_ok(1971));
    lemma_months_total_formula(1972);
    assert(year_entry_ok(1972));
    lemma_months_total_formula(1973);
    assert(year_entry_ok(1973));
    lemma_months_total_formula(1974);
    assert(year_entry_ok(1974));
    lemma_months_total_formula(1975);
    assert(year_entry_ok(1975));
    lemma_months_total_formula(1976);
    assert(year_entry_ok(1976));
    lemma_months_total_formula(1977);
    assert(year_entry_ok(1977));
    lemma_months_total_formula(1978);
    assert(year_entry_ok(1978));
    lemma_months_total_formula(1979);
    assert(year_entry_ok(1979));
}

#[verifier::spinoff_prover]
#[verifier::rlimit(60)]
proof fn lemma_band_part4()
    ensures
        band_ok_upto(100),
{
    lemma_band_part3();
    reveal_with_fuel(band_ok_upto, 22);
    lemma_months_total_formula(1980);
    assert(year_entry_ok(1980));
    lemma_months_total_formula(1981);
    assert(year_entry_ok(1981));
    lemma_months_total_formula(1982);
    assert(year_entry_ok(1982));
    lemma_months_total_formula(1983);
    assert(year_entry_ok(1983));
    lemma_months_total_formula(1984);
    assert(year_entry_ok(1984));
    lemma_months_total_formula(1985);
    assert(year_entry_ok(1985));
    lemma_months_total_formula(1986);
    assert(year_entry_ok(1986));
    lemma_months_total_formula(1987);
    assert(year_entry_ok(1987));
    lemma_months_total_formula(1988);
    assert(year_entry_ok(1988));
    lemma_months_total_formula(1989);
    assert(year_entry_ok(1989));
    lemma_months_total_formula(1990);
    assert(year_entry_ok(1990));
    lemma_months_total_formula(1991);
    assert(year_entry_ok(1991));
    lemma_months_total_formula(1992);
    assert(year_entry_ok(1992));
    lemma_months_total_formula(1993);
    assert(year_entry_ok(1993));
    lemma_months_total_formula(1994);
    assert(year_entry_ok(1994));
    lemma_months_total_formula(1995);
    assert(year_entry_ok(1995));
    lemma_months_total_formula(1996);
    assert(year_entry_ok(1996));
    lemma_months_total_formula(1997);
    assert(year_entry_ok(1997));
    lemma_months_total_formula(1998);
    assert(year_entry_ok(1998));
    lemma_months_total_formula(1999);
    assert(year_entry_ok(1999));
}

#[verifier::spinoff_prover]
#[verifier::rlimit(60)]
proof fn lemma_band_part5()
    ensures
        band_ok_upto(120),
{
    lemma_band_part4();
    reveal_with_fuel(band_ok_upto, 22);
    lemma_months_total_formula(2000);
    assert(year_entry_ok(2000));
    lemma_months_total_formula(2001);
    assert(year_entry_ok(2001));
    lemma_months_total_formula(2002);
    assert(year_entry_ok(2002));
    lemma_months_total_formula(2003);
    assert(year_entry_ok(2003));
    lemma_months_total_formula(2004);
    assert(year_entry_ok(2004));
    lemma_months_total_formula(2005);
    assert(year_entry_ok(2005));
    lemma_months_total_formula(2006);
    assert(year_entry_ok(2006));
    lemma_months_total_formula(2007);
    assert(year_entry_ok(2007));
    lemma_months_total_formula(2008);
    assert(year_entry_ok(2008));
    lemma_months_total_formula(2009);
    assert(year_entry_ok(2009));
    lemma_months_total_formula(2010);
    assert(year_entry_ok(2010));
    lemma_months_total_formula(2011);
    assert(year_entry_ok(2011));
    lemma_months_total_formula(2012);
    assert(year_entry_ok(2012));
    lemma_months_total_formula(2013);
    assert(year_entry_ok(2013));
    lemma_months_total_formula(2014);
    assert(year_entry_ok(2014));
    lemma_months_total_formula(2015);
    assert(year_entry_ok(2015));
    lemma_months_total_formula(2016);
    assert(year_entry_ok(2016));
    lemma_months_total_formula(2017);
    assert(year_entry_ok(2017));
    lemma_months_total_formula(2018);
    assert(year_entry_ok(2018));
    lemma_months_total_formula(2019);
    assert(year_entry_ok(2019));
}

#[verifier::spinoff_prover]
#[verifier::rlimit(60)]
proof fn lemma_band_part6()
    ensures
        band_ok_upto(140),
{
    lemma_band_part5();
    reveal_with_fuel(band_ok_upto, 22);
    lemma_months_total_formula(2020);
    assert(year_entry_ok(2020));
    lemma_months_total_formula(2021);
    assert(year_entry_ok(2021));
    lemma_months_total_formula(2022);
    assert(year_entry_ok(2022));
    lemma_months_total_formula(2023);
    assert(year_entry_ok(2023));
    lemma_months_total_formula(2024);
    assert(year_entry_ok(2024));
    lemma_months_total_formula(2025);
    assert(year_entry_ok(2025));
    lemma_months_total_formula(2026);
    assert(year_entry_ok(2026));
    lemma_months_total_formula(2027);
    assert(year_entry_ok(2027));
    lemma_months_total_formula(2028);
    assert(year_entry_ok(2028));
    lemma_months_total_formula(2029);
    assert(year_entry_ok(2029));
    lemma_months_total_formula(2030);
    assert(year_entry_ok(2030));
    lemma_months_total_formula(2031);
    assert(year_entry_ok(2031));
    lemma_months_total_formula(2032);
    assert(year_entry_ok(2032));
    lemma_months_total_formula(2033);
    assert(year_entry_ok(2033));
    lemma_months_total_formula(2034);
    assert(year_entry_ok(2034));
    lemma_months_total_formula(2035);
    assert(year_entry_ok(2035));
    lemma_months_total_formula(2036);
    assert(year_entry_ok(2036));
    lemma_months_total_formula(2037);
    assert(year_entry_ok(2037));
    lemma_months_total_formula(2038);
    assert(year_entry_ok(2038));
    lemma_months_total_formula(2039);
    assert(year_entry_ok(2039));
}

#[verifier::spinoff_prover]
#[verifier::rlimit(60)]
proof fn lemma_band_part7()
    ensures
        band_ok_upto(160),
{
    lemma_band_part6();
    reveal_with_fuel(band_ok_upto, 22);
    lemma_months_total_formula(2040);
    assert(year_entry_ok(2040));
    lemma_months_total_formula(2041);
    assert(year_entry_ok(2041));
    lemma_months_total_formula(2042);
    assert(year_entry_ok(2042));
    lemma_months_total_formula(2043);
    assert(year_entry_ok(2043));
    lemma_months_total_formula(2044);
    assert(year_entry_ok(2044));
    lemma_months_total_formula(2045);
    assert(year_entry_ok(2045));
    lemma_months_total_formula(2046);
    assert(year_entry_ok(2046));
    lemma_months_total_formula(2047);
    assert(year_entry_ok(2047));
    lemma_months_total_formula(2048);
    assert(year_entry_ok(2048));
    lemma_months_total_formula(2049);
    assert(year_entry_ok(2049));
    lemma_months_total_formula(2050);
    assert(year_entry_ok(2050));
    lemma_months_total_formula(2051);
    assert(year_entry_ok(2051));
    lemma_months_total_formula(2052);
    assert(year_entry_ok(2052));
    lemma_months_total_formula(2053);
    assert(year_entry_ok(2053));
    lemma_months_total_formula(2054);
    assert(year_entry_ok(2054));
    lemma_months_total_formula(2055);
    assert(year_entry_ok(2055));
    lemma_months_total_formula(2056);
    assert(year_entry_ok(2056));
    lemma_months_total_formula(2057);
    assert(year_entry_ok(2057));
    lemma_months_total_formula(2058);
    assert(year_entry_ok(2058));
    lemma_months_total_formula(2059);
    assert(year_entry_ok(2059));
}

#[verifier::spinoff_prover]
#[verifier::rlimit(60)]
proof fn lemma_band_part8()
    ensures
        band_ok_upto(180),
{
    lemma_band_part7();
    reveal_with_fuel(band_ok_upto, 22);
    lemma_months_total_formula(2060);
    assert(year_entry_ok(2060));
    lemma_months_total_formula(2061);
    assert(year_entry_ok(2061));
    lemma_months_total_formula(2062);
    assert(year_entry_ok(2062));
    lemma_months_total_formula(2063);
    assert(year_entry_ok(2063));
    lemma_months_total_formula(2064);
    assert(year_entry_ok(2064));
    lemma_months_total_formula(2065);
    assert(year_entry_ok(2065));
    lemma_months_total_formula(2066);
    assert(year_entry_ok(2066));
    lemma_months_total_formula(2067);
    assert(year_entry_ok(2067));
    lemma_months_total_formula(2068);
    assert(year_entry_ok(2068));
    lemma_months_total_formula(2069);
    assert(year_entry_ok(2069));
    lemma_months_total_formula(2070);
    assert(year_entry_ok(2070));
    lemma_months_total_formula(2071);
    assert(year_entry_ok(2071));
    lemma_months_total_formula(2072);
    assert(year_entry_ok(2072));
    lemma_months_total_formula(2073);
    assert(year_entry_ok(2073));
    lemma_months_total_formula(2074);
    assert(year_entry_ok(2074));
    lemma_months_total_formula(2075);
    assert(year_entry_ok(2075));
    lemma_months_total_formula(2076);
    assert(year_entry_ok(2076));
    lemma_months_total_formula(2077);
    assert(year_entry_ok(2077));
    lemma_months_total_formula(2078);
    assert(year_entry_ok(2078));
    lemma_months_total_formula(2079);
    assert(year_entry_ok(2079));
}

#[verifier::spinoff_prover]
#[verifier::rlimit(60)]
proof fn lemma_band_part9()
    ensures
        band_ok_upto(200),
{
    lemma_band_part8();
    reveal_with_fuel(band_ok_upto, 22);
    lemma_months_total_formula(2080);
    assert(year_entry_ok(2080));
    lemma_months_total_formula(2081);
    assert(year_entry_ok(2081));
    lemma_months_total_formula(2082);
    assert(year_entry_ok(2082));
    lemma_months_total_formula(2083);
    assert(year_entry_ok(2083));
    lemma_months_total_formula(2084);
    assert(year_entry_ok(2084));
    lemma_months_total_formula(2085);
    assert(year_entry_ok(2085));
    lemma_months_total_formula(2086);
    assert(year_entry_ok(2086));
    lemma_months_total_formula(2087);
    assert(year_entry_ok(2087));
    lemma_months_total_formula(2088);
    assert(year_entry_ok(2088));
    lemma_months_total_formula(2089);
    assert(year_entry_ok(2089));
    lemma_months_total_formula(2090);
    assert(year_entry_ok(2090));
    lemma_months_total_formula(2091);
    assert(year_entry_ok(2091));
    lemma_months_total_formula(2092);
    assert(year_entry_ok(2092));
    lemma_months_total_formula(2093);
    assert(year_entry_ok(2093));
    lemma_months_total_formula(2094);
    assert(year_entry_ok(2094));
    lemma_months_total_formula(2095);
    assert(year_entry_ok(2095));
    lemma_months_total_formula(2096);
    assert(year_entry_ok(2096));
    lemma_months_total_formula(2097);
    assert(year_entry_ok(2097));
    lemma_months_total_formula(2098);
    assert(year_entry_ok(2098));
    lemma_months_total_formula(2099);
    assert(year_entry_ok(2099));
}

#[verifier::spinoff_prover]
#[verifier::rlimit(60)]
proof fn lemma_band_part10()
    ensures
        band_ok_upto(213),
{
    lemma_band_part9();
    reveal_with_fuel(band_ok_upto, 22);
    lemma_months_total_formula(2100);
    assert(year_entry_ok(2100));
    lemma_months_total_formula(2101);
    assert(year_entry_ok(2101));
    lemma_months_total_formula(2102);
    assert(year_entry_ok(2102));
    lemma_months_total_formula(2103);
    assert(year_entry_ok(2103));
    lemma_months_total_formula(2104);
    assert(year_entry_ok(2104));
    lemma_months_total_formula(2105);
    assert(year_entry_ok(2105));
    lemma_months_total_formula(2106);
    assert(year_entry_ok(2106));
    lemma_months_total_formula(2107);
    assert(year_entry_ok(2107));
    lemma_months_total_formula(2108);
    assert(year_entry_ok(2108));
    lemma_months_total_formula(2109);
    assert(year_entry_ok(2109));
    lemma_months_total_formula(2110);
    assert(year_entry_ok(2110));
    lemma_months_total_formula(2111);
    assert(year_entry_ok(2111));
    lemma_months_total_formula(2112);
    assert(year_entry_ok(2112));
}

} // verus!
