use moli::dates::{SolarDate, date_from_index, days_in_month};
use moli::lunar::{
    gan_zhi_year, leap_days, leap_month, lunar_day_offset, lunar_festival, lunar_year_days,
    max_supported_year, month_days, solar_to_lunar, year_info, zodiac_animal,
};

fn date(y: i32, m: u8, d: u8) -> SolarDate {
    SolarDate::new(y, m, d).expect("valid date")
}

#[test]
fn epoch_alignment() {
    let info = solar_to_lunar(date(1900, 1, 31)).expect("in range");
    assert_eq!(info.date.year, 1900);
    assert_eq!(info.date.month, 1);
    assert_eq!(info.date.day, 1);
    assert!(!info.date.is_leap);
    assert_eq!(info.festival, Some("春节"));
}

#[test]
fn spring_festival_2023() {
    let info = solar_to_lunar(date(2023, 1, 22)).expect("in range");
    assert_eq!(info.date.year, 2023);
    assert_eq!(info.date.month, 1);
    assert_eq!(info.date.day, 1);
    assert!(!info.date.is_leap);
    assert_eq!(info.festival, Some("春节"));
}

#[test]
fn new_years_eve_2023() {
    let info = solar_to_lunar(date(2023, 1, 21)).expect("in range");
    assert_eq!(info.date.year, 2022);
    assert_eq!(info.date.month, 12);
    assert_eq!(info.date.day, 30);
    assert!(!info.date.is_leap);
    assert_eq!(info.festival, Some("除夕"));
}

#[test]
fn leap_month_2023() {
    assert_eq!(leap_month(2023), 2);
    assert_eq!(leap_days(2023), 29);
    let info = solar_to_lunar(date(2023, 3, 22)).expect("in range");
    assert_eq!(info.date.year, 2023);
    assert_eq!(info.date.month, 2);
    assert_eq!(info.date.day, 1);
    assert!(info.date.is_leap);
    assert_eq!(info.festival, None);
    let after = solar_to_lunar(date(2023, 4, 20)).expect("in range");
    assert_eq!(after.date.month, 3);
    assert_eq!(after.date.day, 1);
    assert!(!after.date.is_leap);
}

#[test]
fn before_epoch_is_none() {
    assert!(solar_to_lunar(date(1900, 1, 1)).is_none());
    assert!(solar_to_lunar(date(1900, 1, 30)).is_none());
}

#[test]
fn past_table_is_none() {
    assert!(solar_to_lunar(date(2113, 2, 15)).is_none());
    assert!(solar_to_lunar(date(2120, 6, 1)).is_none());
    let last = solar_to_lunar(date(2113, 2, 14)).expect("last covered day");
    assert_eq!(last.date.year, 2112);
}

#[test]
fn max_supported_year_value() {
    assert_eq!(max_supported_year(), 2112);
}

#[test]
fn year_days_in_band_for_all_supported_years() {
    for y in 1900..=2112 {
        let days = lunar_year_days(y);
        assert!((353..=385).contains(&days), "year {y} has {days} days");
    }
}

#[test]
fn year_days_concrete() {
    assert_eq!(lunar_year_days(1900), 384);
    assert_eq!(lunar_year_days(2023), 384);
    assert_eq!(lunar_year_days(1899), 348);
    assert_eq!(lunar_year_days(2113), 348);
}

#[test]
fn month_days_concrete() {
    assert_eq!(month_days(2022, 12), 30);
    assert!(year_info(1899).is_none());
    assert!(year_info(2113).is_none());
    assert_eq!(year_info(1900), Some(0x04bd8));
}

#[test]
fn round_trip_over_sampled_dates() {
    let first = date(1900, 1, 31).day_index();
    let last = date(2113, 2, 14).day_index();
    let mut idx = first;
    while idx <= last {
        let d = date_from_index(idx);
        let info = solar_to_lunar(d).expect("covered day");
        let rebuilt = date_from_index(30 + lunar_day_offset(info.date));
        assert_eq!(rebuilt, d);
        idx += 97;
    }
}

#[test]
fn lunar_offset_monotone_over_consecutive_days() {
    let first = date(2023, 1, 1).day_index();
    let mut prev = None;
    for k in 0..400 {
        let d = date_from_index(first + k);
        let off = lunar_day_offset(solar_to_lunar(d).expect("in range").date);
        if let Some(p) = prev {
            assert!(off == p + 1);
        }
        prev = Some(off);
    }
}

#[test]
fn festival_table_lookup() {
    assert_eq!(lunar_festival(1, 15), Some("元宵节"));
    assert_eq!(lunar_festival(5, 5), Some("端午节"));
    assert_eq!(lunar_festival(12, 23), Some("小年"));
    assert_eq!(lunar_festival(3, 3), None);
}

#[test]
fn dragon_boat_and_mid_autumn_dates() {
    let db = solar_to_lunar(date(2024, 6, 10)).expect("in range");
    assert_eq!((db.date.month, db.date.day), (5, 5));
    assert_eq!(db.festival, Some("端午节"));
    let ma = solar_to_lunar(date(2023, 9, 29)).expect("in range");
    assert_eq!((ma.date.month, ma.date.day), (8, 15));
    assert_eq!(ma.festival, Some("中秋节"));
}

#[test]
fn sexagenary_names() {
    assert_eq!(gan_zhi_year(2024), "甲辰");
    assert_eq!(gan_zhi_year(1900), "庚子");
    assert_eq!(gan_zhi_year(1984), "甲子");
}

#[test]
fn zodiac_animals() {
    assert_eq!(zodiac_animal(2024), '龙');
    assert_eq!(zodiac_animal(1900), '鼠');
    assert_eq!(zodiac_animal(3), '猪');
    assert_eq!(zodiac_animal(0), '猴');
    assert_eq!(zodiac_animal(-5), '兔');
}

#[test]
fn gregorian_month_lengths() {
    assert_eq!(days_in_month(2023, 2), 28);
    assert_eq!(days_in_month(2024, 2), 29);
    assert_eq!(days_in_month(1900, 2), 28);
    assert_eq!(days_in_month(2000, 2), 29);
    assert_eq!(days_in_month(2023, 4), 30);
    assert_eq!(days_in_month(2023, 1), 31);
}

#[test]
fn day_index_round_trip() {
    for &(y, m, d) in &[(1900, 1, 1), (1970, 1, 1), (2000, 2, 29), (2023, 12, 31), (9999, 12, 31)]
    {
        let sd = date(y, m, d);
        assert_eq!(date_from_index(sd.day_index()), sd);
    }
    assert_eq!(date(1900, 1, 1).day_index(), 0);
    assert_eq!(date(1900, 1, 31).day_index(), 30);
    assert_eq!(date(2023, 1, 22).day_index(), 44946);
}

#[test]
fn weekday_from_monday_values() {
    assert_eq!(date(1900, 1, 1).weekday_from_monday(), 0);
    assert_eq!(date(2023, 1, 1).weekday_from_monday(), 6);
}
