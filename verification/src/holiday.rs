//! Holiday resolution: an ordered cascade over the solar date, the lunar
//! representation and the solar term, picking at most one label per date.
//!
//! The spring-festival rule follows the edition that labels lunar 1-1
//! alone (not days 2 and 3); New Year's Eve is caught one rule earlier
//! through the festival tag.

use vstd::prelude::*;

use crate::dates::SolarDate;
use crate::lunar::LunarInfo;
use crate::text::str_eq;

verus! {

/// The kind of observance a holiday is.
#[derive(Clone, Copy, Debug, PartialEq, Eq, Structural)]
pub enum HolidayCategory {
    Statutory,
    Traditional,
    OtherTraditional,
}

/// A resolved holiday: name, kind, and a short note.
#[derive(Clone, Copy, Debug)]
pub struct HolidayInfo {
    pub name: &'static str,
    pub category: HolidayCategory,
    pub note: &'static str,
}

/// Identity of each holiday the resolver can select.
#[derive(Clone, Copy, Debug, PartialEq, Eq, Structural)]
pub enum Holiday {
    NewYear,
    LaborDay,
    NationalDay,
    Qingming,
    SpringEve,
    SpringFestival,
    DragonBoat,
    MidAutumn,
    Lantern,
    Qixi,
    Chongyang,
    Longtaitou,
    Zhongyuan,
    Laba,
    Dongzhi,
}

pub open spec fn holiday_name_spec(h: Holiday) -> Seq<char> {
    match h {
        Holiday::NewYear => "元旦"@,
        Holiday::LaborDay => "劳动节"@,
        Holiday::NationalDay => "国庆节"@,
        Holiday::Qingming => "清明节"@,
        Holiday::SpringEve => "除夕"@,
        Holiday::SpringFestival => "春节"@,
        Holiday::DragonBoat => "端午节"@,
        Holiday::MidAutumn => "中秋节"@,
        Holiday::Lantern => "元宵节"@,
        Holiday::Qixi => "七夕节"@,
        Holiday::Chongyang => "重阳节"@,
        Holiday::Longtaitou => "龙抬头"@,
        Holiday::Zhongyuan => "中元节"@,
        Holiday::Laba => "腊八节"@,
        Holiday::Dongzhi => "冬至"@,
    }
}

pub open spec fn holiday_category_spec(h: Holiday) -> HolidayCategory {
    match h {
        Holiday::NewYear => HolidayCategory::Statutory,
        Holiday::LaborDay => HolidayCategory::Statutory,
        Holiday::NationalDay => HolidayCategory::Statutory,
        Holiday::Qingming => HolidayCategory::Statutory,
        Holiday::SpringEve => HolidayCategory::Statutory,
        Holiday::SpringFestival => HolidayCategory::Statutory,
        Holiday::DragonBoat => HolidayCategory::Statutory,
        Holiday::MidAutumn => HolidayCategory::Statutory,
        Holiday::Lantern => HolidayCategory::Traditional,
        Holiday::Qixi => HolidayCategory::Traditional,
        Holiday::Chongyang => HolidayCategory::Traditional,
        Holiday::Longtaitou => HolidayCategory::OtherTraditional,
        Holiday::Zhongyuan => HolidayCategory::OtherTraditional,
        Holiday::Laba => HolidayCategory::OtherTraditional,
        Holiday::Dongzhi => HolidayCategory::OtherTraditional,
    }
}

pub open spec fn holiday_note_spec(h: Holiday) -> Seq<char> {
    match h {
        Holiday::NewYear => "公历1月1日 · 放假1天"@,
        Holiday::LaborDay => "公历5月1日 · 放假2天"@,
        Holiday::NationalDay => "公历10月1日至3日 · 放假3天"@,
        Holiday::Qingming => "清明时节 · 踏青祭祖 · 放假1天"@,
        Holiday::SpringEve => "春节前夜 · 合家团圆"@,
        Holiday::SpringFestival => "农历正月初一 · 放假4天（除夕至初三）"@,
        Holiday::DragonBoat => "农历五月初五 · 放假1天"@,
        Holiday::MidAutumn => "农历八月十五 · 放假1天"@,
        Holiday::Lantern => "农历正月十五 · 元宵赏灯"@,
        Holiday::Qixi => "农历七月初七 · 牛郎织女传说"@,
        Holiday::Chongyang => "农历九月初九 · 登高敬老"@,
        Holiday::Longtaitou => "农历二月初二 · 春耕开犁"@,
        Holiday::Zhongyuan => "农历七月十五 · 中元祭祖"@,
        Holiday::Laba => "农历腊月初八 · 喝腊八粥"@,
        Holiday::Dongzhi => "冬至日 · 最重要节气之一"@,
    }
}

/// Whether an execution result carries exactly the holiday the spec names.
pub open spec fn holiday_result_matches(r: Option<HolidayInfo>, s: Option<Holiday>) -> bool {
    match (r, s) {
        (Some(info), Some(h)) => info.name@ == holiday_name_spec(h) && info.category
            == holiday_category_spec(h) && info.note@ == holiday_note_spec(h),
        (None, None) => true,
        _ => false,
    }
}

/// The lunar input as a plain value.
pub open spec fn opt_lunar(lunar: Option<&LunarInfo>) -> Option<LunarInfo> {
    match lunar {
        Some(l) => Some(*l),
        None => None,
    }
}

/// The solar-term input as a character sequence.
pub open spec fn opt_term(t: Option<&str>) -> Option<Seq<char>> {
    match t {
        Some(s) => Some(s@),
        None => None,
    }
}

/// Rule 1: fixed solar-date holidays, independent of year and calendar.
pub open spec fn spec_solar_holiday(m: int, d: int) -> Option<Holiday> {
    if m == 1 && d == 1 {
        Some(Holiday::NewYear)
    } else if m == 5 && d == 1 {
        Some(Holiday::LaborDay)
    } else if m == 10 && d == 1 {
        Some(Holiday::NationalDay)
    } else {
        None
    }
}

/// Rule 2: the Qingming term doubles as a statutory holiday.
pub open spec fn spec_qingming(term: Option<Seq<char>>) -> Option<Holiday> {
    if term == Some("清明"@) {
        Some(Holiday::Qingming)
    } else {
        None
    }
}

/// Rule 3: lunar statutory holidays; the eve comes through the festival
/// tag, the spring festival labels lunar 1-1 alone.
pub open spec fn spec_lunar_statutory(lunar: Option<LunarInfo>) -> Option<Holiday> {
    match lunar {
        None => None,
        Some(info) => {
            if (match info.festival {
                Some(f) => f@ == "除夕"@,
                None => false,
            }) {
                Some(Holiday::SpringEve)
            } else if info.date.month == 1 && info.date.day == 1 {
                Some(Holiday::SpringFestival)
            } else if info.date.month == 5 && info.date.day == 5 {
                Some(Holiday::DragonBoat)
            } else if info.date.month == 8 && info.date.day == 15 {
                Some(Holiday::MidAutumn)
            } else {
                None
            }
        },
    }
}

/// Rule 4: major traditional (non-statutory) lunar holidays.
pub open spec fn spec_major_traditional(lunar: Option<LunarInfo>) -> Option<Holiday> {
    match lunar {
        None => None,
        Some(info) => {
            if info.date.month == 1 && info.date.day == 15 {
                Some(Holiday::Lantern)
            } else if info.date.month == 7 && info.date.day == 7 {
                Some(Holiday::Qixi)
            } else if info.date.month == 9 && info.date.day == 9 {
                Some(Holiday::Chongyang)
            } else {
                None
            }
        },
    }
}

/// Rule 5: folk holidays, with the Dongzhi term as the last resort.
pub open spec fn spec_other_traditional(
    lunar: Option<LunarInfo>,
    term: Option<Seq<char>>,
) -> Option<Holiday> {
    let by_lunar = match lunar {
        None => None,
        Some(info) => {
            if info.date.month == 2 && info.date.day == 2 {
                Some(Holiday::Longtaitou)
            } else if info.date.month == 7 && info.date.day == 15 {
                Some(Holiday::Zhongyuan)
            } else if info.date.month == 12 && info.date.day == 8 {
                Some(Holiday::Laba)
            } else {
                None
            }
        },
    };
    if by_lunar is Some {
        by_lunar
    } else if term == Some("冬至"@) {
        Some(Holiday::Dongzhi)
    } else {
        None
    }
}

/// The whole cascade, first match winning.
pub open spec fn spec_holiday_for(
    date: SolarDate,
    lunar: Option<LunarInfo>,
    term: Option<Seq<char>>,
) -> Option<Holiday> {
    let r1 = spec_solar_holiday(date.month as int, date.day as int);
    let r2 = spec_qingming(term);
    let r3 = spec_lunar_statutory(lunar);
    let r4 = spec_major_traditional(lunar);
    let r5 = spec_other_traditional(lunar, term);
    if r1 is Some {
        r1
    } else if r2 is Some {
        r2
    } else if r3 is Some {
        r3
    } else if r4 is Some {
        r4
    } else {
        r5
    }
}

impl HolidayCategory {
    /// Short label of the category.
    pub fn label(self) -> (r: &'static str)
        ensures
            r@ == (match self {
                HolidayCategory::Statutory => "法定节假日"@,
                HolidayCategory::Traditional => "传统节日"@,
                HolidayCategory::OtherTraditional => "民俗节日"@,
            }),
    {
        match self {
            HolidayCategory::Statutory => "法定节假日",
            HolidayCategory::Traditional => "传统节日",
            HolidayCategory::OtherTraditional => "民俗节日",
        }
    }
}

/// The one `HolidayInfo` describing holiday `h`.
pub fn holiday_info(h: Holiday) -> (r: HolidayInfo)
    ensures
        holiday_result_matches(Some(r), Some(h)),
{
    match h {
        Holiday::NewYear => HolidayInfo {
            name: "元旦",
            category: HolidayCategory::Statutory,
            note: "公历1月1日 · 放假1天",
        },
        Holiday::LaborDay => HolidayInfo {
            name: "劳动节",
            category: HolidayCategory::Statutory,
            note: "公历5月1日 · 放假2天",
        },
        Holiday::NationalDay => HolidayInfo {
            name: "国庆节",
            category: HolidayCategory::Statutory,
            note: "公历10月1日至3日 · 放假3天",
        },
        Holiday::Qingming => HolidayInfo {
            name: "清明节",
            category: HolidayCategory::Statutory,
            note: "清明时节 · 踏青祭祖 · 放假1天",
        },
        Holiday::SpringEve => HolidayInfo {
            name: "除夕",
            category: HolidayCategory::Statutory,
            note: "春节前夜 · 合家团圆",
        },
        Holiday::SpringFestival => HolidayInfo {
            name: "春节",
            category: HolidayCategory::Statutory,
            note: "农历正月初一 · 放假4天（除夕至初三）",
        },
        Holiday::DragonBoat => HolidayInfo {
            name: "端午节",
            category: HolidayCategory::Statutory,
            note: "农历五月初五 · 放假1天",
        },
        Holiday::MidAutumn => HolidayInfo {
            name: "中秋节",
            category: HolidayCategory::Statutory,
            note: "农历八月十五 · 放假1天",
        },
        Holiday::Lantern => HolidayInfo {
            name: "元宵节",
            category: HolidayCategory::Traditional,
            note: "农历正月十五 · 元宵赏灯",
        },
        Holiday::Qixi => HolidayInfo {
            name: "七夕节",
            category: HolidayCategory::Traditional,
            note: "农历七月初七 · 牛郎织女传说",
        },
        Holiday::Chongyang => HolidayInfo {
            name: "重阳节",
            category: HolidayCategory::Traditional,
            note: "农历九月初九 · 登高敬老",
        },
        Holiday::Longtaitou => HolidayInfo {
            name: "龙抬头",
            category: HolidayCategory::OtherTraditional,
            note: "农历二月初二 · 春耕开犁",
        },
        Holiday::Zhongyuan => HolidayInfo {
            name: "中元节",
            category: HolidayCategory::OtherTraditional,
            note: "农历七月十五 · 中元祭祖",
        },
        Holiday::Laba => HolidayInfo {
            name: "腊八节",
            category: HolidayCategory::OtherTraditional,
            note: "农历腊月初八 · 喝腊八粥",
        },
        Holiday::Dongzhi => HolidayInfo {
            name: "冬至",
            category: HolidayCategory::OtherTraditional,
            note: "冬至日 · 最重要节气之一",
        },
    }
}

/// Rule 1 as executable code.
pub fn solar_holiday(date: SolarDate) -> (r: Option<HolidayInfo>)
    ensures
        holiday_result_matches(r, spec_solar_holiday(date.month as int, date.day as int)),
{
    if date.month == 1 && date.day == 1 {
        Some(holiday_info(Holiday::NewYear))
    } else if date.month == 5 && date.day == 1 {
        Some(holiday_info(Holiday::LaborDay))
    } else if date.month == 10 && date.day == 1 {
        Some(holiday_info(Holiday::NationalDay))
    } else {
        None
    }
}

/// Rule 2 as executable code.
pub fn qingming_holiday(solar_term: Option<&str>) -> (r: Option<HolidayInfo>)
    ensures
        holiday_result_matches(r, spec_qingming(opt_term(solar_term))),
{
    match solar_term {
        Some(t) => {
            if str_eq(t, "清明") {
                Some(holiday_info(Holiday::Qingming))
            } else {
                None
            }
        },
        None => None,
    }
}

/// Rule 3 as executable code.
pub fn lunar_statutory_holiday(lunar: Option<&LunarInfo>) -> (r: Option<HolidayInfo>)
    ensures
        holiday_result_matches(r, spec_lunar_statutory(opt_lunar(lunar))),
{
    match lunar {
        None => None,
        Some(info) => {
            let is_eve = match info.festival {
                Some(f) => str_eq(f, "除夕"),
                None => false,
            };
            if is_eve {
                Some(holiday_info(Holiday::SpringEve))
            } else if info.date.month == 1 && info.date.day == 1 {
                Some(holiday_info(Holiday::SpringFestival))
            } else if info.date.month == 5 && info.date.day == 5 {
                Some(holiday_info(Holiday::DragonBoat))
            } else if info.date.month == 8 && info.date.day == 15 {
                Some(holiday_info(Holiday::MidAutumn))
            } else {
                None
            }
        },
    }
}

/// Rule 4 as executable code.
pub fn major_traditional_holiday(lunar: Option<&LunarInfo>) -> (r: Option<HolidayInfo>)
    ensures
        holiday_result_matches(r, spec_major_traditional(opt_lunar(lunar))),
{
    match lunar {
        None => None,
        Some(info) => {
            if info.date.month == 1 && info.date.day == 15 {
                Some(holiday_info(Holiday::Lantern))
            } else if info.date.month == 7 && info.date.day == 7 {
                Some(holiday_info(Holiday::Qixi))
            } else if info.date.month == 9 && info.date.day == 9 {
                Some(holiday_info(Holiday::Chongyang))
            } else {
                None
            }
        },
    }
}

/// Rule 5 as executable code.
pub fn other_traditional_holiday(
    lunar: Option<&LunarInfo>,
    solar_term: Option<&str>,
) -> (r: Option<HolidayInfo>)
    ensures
        holiday_result_matches(r, spec_other_traditional(opt_lunar(lunar), opt_term(solar_term))),
{
    match lunar {
        None => {},
        Some(info) => {
            if info.date.month == 2 && info.date.day == 2 {
                return Some(holiday_info(Holiday::Longtaitou));
            } else if info.date.month == 7 && info.date.day == 15 {
                return Some(holiday_info(Holiday::Zhongyuan));
            } else if info.date.month == 12 && info.date.day == 8 {
                return Some(holiday_info(Holiday::Laba));
            }
        },
    }
    match solar_term {
        Some(t) => {
            if str_eq(t, "冬至") {
                Some(holiday_info(Holiday::Dongzhi))
            } else {
                None
            }
        },
        None => None,
    }
}

/// Resolve the holiday of a date: the five rules in fixed priority order,
/// the first match winning, none combining.
pub fn holiday_for(
    date: SolarDate,
    lunar: Option<&LunarInfo>,
    solar_term: Option<&str>,
) -> (r: Option<HolidayInfo>)
    ensures
        holiday_result_matches(
            r,
            spec_holiday_for(date, opt_lunar(lunar), opt_term(solar_term)),
        ),
{
    let r1 = solar_holiday(date);
    if r1.is_some() {
        return r1;
    }
    let r2 = qingming_holiday(solar_term);
    if r2.is_some() {
        return r2;
    }
    let r3 = lunar_statutory_holiday(lunar);
    if r3.is_some() {
        return r3;
    }
    let r4 = major_traditional_holiday(lunar);
    if r4.is_some() {
        return r4;
    }
    other_traditional_holiday(lunar, solar_term)
}

} // verus!
