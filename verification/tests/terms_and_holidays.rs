use moli::dates::{SolarDate, date_from_index};
use moli::holiday::{
    HolidayCategory, holiday_for, lunar_statutory_holiday, major_traditional_holiday,
    other_traditional_holiday, qingming_holiday, solar_holiday,
};
use moli::lunar::{day_name_for, month_name_for, solar_to_lunar};
use moli::solar_term::{solar_term_day, solar_term_name, solar_term_offset_ms};

fn date(y: i32, m: u8, d: u8) -> SolarDate {
    SolarDate::new(y, m, d).expect("valid date")
}

#[test]
fn qingming_and_dongzhi_2023() {
    assert_eq!(solar_term_name(date(2023, 4, 5)), Some("清明"));
    assert_eq!(solar_term_name(date(2023, 12, 22)), Some("冬至"));
}

#[test]
fn first_term_of_1900() {
    assert_eq!(solar_term_name(date(1900, 1, 6)), Some("小寒"));
    assert_eq!(solar_term_offset_ms(1900, 0), Some(0));
    assert!(solar_term_offset_ms(1900, 24).is_none());
}

#[test]
fn ordinary_day_has_no_term() {
    assert_eq!(solar_term_name(date(2023, 4, 10)), None);
    assert_eq!(solar_term_name(date(2023, 1, 1)), None);
}

#[test]
fn terms_outside_year_window() {
    assert_eq!(solar_term_name(date(2101, 4, 5)), None);
    assert_eq!(solar_term_name(date(2100, 3, 20)), Some("春分"));
}

#[test]
fn term_days_strictly_increase_within_each_year() {
    for y in [1900, 1955, 2023, 2100] {
        for i in 1..24 {
            assert!(solar_term_day(y, i - 1) < solar_term_day(y, i));
        }
    }
}

#[test]
fn each_term_name_once_in_2023() {
    let first = date(2023, 1, 1).day_index();
    let last = date(2023, 12, 31).day_index();
    let mut seen: Vec<&'static str> = Vec::new();
    let mut idx = first;
    while idx <= last {
        if let Some(name) = solar_term_name(date_from_index(idx)) {
            assert!(!seen.contains(&name), "term {name} repeated");
            seen.push(name);
        }
        idx += 1;
    }
    assert_eq!(seen.len(), 24);
}

#[test]
fn national_day_wins_regardless_of_lunar_state() {
    let d = date(2023, 10, 1);
    let lunar = solar_to_lunar(d);
    let term = solar_term_name(d);
    let holiday = holiday_for(d, lunar.as_ref(), term).expect("national day");
    assert_eq!(holiday.name, "国庆节");
    assert!(matches!(holiday.category, HolidayCategory::Statutory));
    let bare = holiday_for(d, None, None).expect("national day");
    assert_eq!(bare.name, "国庆节");
}

#[test]
fn fixed_solar_holidays() {
    assert_eq!(solar_holiday(date(2023, 1, 1)).expect("new year").name, "元旦");
    assert_eq!(solar_holiday(date(2023, 5, 1)).expect("labor day").name, "劳动节");
    assert!(solar_holiday(date(2023, 5, 2)).is_none());
}

#[test]
fn spring_eve_overrides_other_rules() {
    let d = date(2023, 1, 21);
    let lunar = solar_to_lunar(d);
    assert_eq!(lunar.as_ref().unwrap().festival, Some("除夕"));
    let holiday = holiday_for(d, lunar.as_ref(), None).expect("spring eve");
    assert_eq!(holiday.name, "除夕");
    assert!(matches!(holiday.category, HolidayCategory::Statutory));
}

#[test]
fn qingming_rule_fires_on_term_name() {
    let holiday = qingming_holiday(Some("清明")).expect("qingming");
    assert_eq!(holiday.name, "清明节");
    assert!(qingming_holiday(Some("冬至")).is_none());
    assert!(qingming_holiday(None).is_none());
}

#[test]
fn lunar_statutory_rule() {
    let spring = solar_to_lunar(date(2023, 1, 22));
    let h = lunar_statutory_holiday(spring.as_ref()).expect("spring festival");
    assert_eq!(h.name, "春节");
    let db = solar_to_lunar(date(2024, 6, 10));
    assert_eq!(lunar_statutory_holiday(db.as_ref()).expect("dragon boat").name, "端午节");
    let ma = solar_to_lunar(date(2023, 9, 29));
    assert_eq!(lunar_statutory_holiday(ma.as_ref()).expect("mid autumn").name, "中秋节");
    let plain = solar_to_lunar(date(2023, 3, 1));
    assert!(lunar_statutory_holiday(plain.as_ref()).is_none());
    assert!(lunar_statutory_holiday(None).is_none());
}

#[test]
fn spring_festival_labels_first_day_only() {
    let second = solar_to_lunar(date(2023, 1, 23));
    let info = second.as_ref().unwrap();
    assert_eq!((info.date.month, info.date.day), (1, 2));
    assert!(lunar_statutory_holiday(second.as_ref()).is_none());
}

#[test]
fn major_traditional_rule() {
    let lantern = solar_to_lunar(date(2023, 2, 5));
    assert_eq!(major_traditional_holiday(lantern.as_ref()).expect("lantern").name, "元宵节");
    let qixi = solar_to_lunar(date(2023, 8, 22));
    assert_eq!(major_traditional_holiday(qixi.as_ref()).expect("qixi").name, "七夕节");
    assert!(major_traditional_holiday(None).is_none());
}

#[test]
fn other_traditional_rule() {
    let laba = solar_to_lunar(date(2022, 12, 30));
    let info = laba.as_ref().unwrap();
    assert_eq!((info.date.month, info.date.day), (12, 8));
    assert_eq!(other_traditional_holiday(laba.as_ref(), None).expect("laba").name, "腊八节");
    let longtaitou = solar_to_lunar(date(2023, 2, 21));
    assert_eq!(
        other_traditional_holiday(longtaitou.as_ref(), None).expect("longtaitou").name,
        "龙抬头"
    );
    let dongzhi = other_traditional_holiday(None, Some("冬至")).expect("dongzhi");
    assert_eq!(dongzhi.name, "冬至");
    assert!(matches!(dongzhi.category, HolidayCategory::OtherTraditional));
    assert!(other_traditional_holiday(None, Some("清明")).is_none());
}

#[test]
fn no_holiday_on_plain_day() {
    let d = date(2023, 3, 7);
    let lunar = solar_to_lunar(d);
    let term = solar_term_name(d);
    assert!(holiday_for(d, lunar.as_ref(), term).is_none());
}

#[test]
fn category_labels() {
    assert_eq!(HolidayCategory::Statutory.label(), "法定节假日");
    assert_eq!(HolidayCategory::Traditional.label(), "传统节日");
    assert_eq!(HolidayCategory::OtherTraditional.label(), "民俗节日");
}

#[test]
fn lunar_name_tables() {
    assert_eq!(day_name_for(1), "初一");
    assert_eq!(day_name_for(15), "十五");
    assert_eq!(day_name_for(30), "三十");
    assert_eq!(day_name_for(0), "初一");
    assert_eq!(day_name_for(31), "初一");
    assert_eq!(month_name_for(1), '正');
    assert_eq!(month_name_for(11), '冬');
    assert_eq!(month_name_for(12), '腊');
    assert_eq!(month_name_for(0), '正');
}

#[test]
fn lunar_info_labels() {
    let leap = solar_to_lunar(date(2023, 3, 22)).expect("leap month day");
    assert_eq!(leap.month_label(), "闰二月");
    assert_eq!(leap.display_label(), "初一");
    let eve = solar_to_lunar(date(2023, 1, 21)).expect("eve");
    assert_eq!(eve.month_label(), "腊月");
    assert_eq!(eve.display_label(), "除夕");
}
