use moli::app::{App, parse_jump_input};
use moli::dates::SolarDate;

fn date(y: i32, m: u8, d: u8) -> SolarDate {
    SolarDate::new(y, m, d).expect("valid date")
}

fn chars(s: &str) -> Vec<char> {
    s.chars().collect()
}

#[test]
fn new_app_opens_on_today() {
    let app = App::new(date(2023, 1, 22));
    assert_eq!(app.view_year(), 2023);
    assert_eq!(app.view_month(), 1);
    assert_eq!(app.selected_date(), date(2023, 1, 22));
    assert!(!app.jump_prompt_active());
}

#[test]
fn month_navigation_wraps_years() {
    let mut app = App::new(date(2023, 1, 15));
    app.prev_month();
    assert_eq!((app.view_year(), app.view_month()), (2022, 12));
    app.next_month();
    app.next_month();
    assert_eq!((app.view_year(), app.view_month()), (2023, 2));
}

#[test]
fn month_navigation_clamps_day() {
    let mut app = App::new(date(2023, 3, 31));
    app.prev_month();
    assert_eq!(app.selected_date(), date(2023, 2, 28));
}

#[test]
fn year_navigation_clamps_to_window() {
    let mut app = App::new(date(1900, 6, 1));
    app.prev_year();
    assert_eq!(app.view_year(), 1900);
    let mut app2 = App::new(date(2112, 6, 1));
    app2.next_year();
    assert_eq!(app2.view_year(), 2112);
}

#[test]
fn leap_day_clamped_across_years() {
    let mut app = App::new(date(2024, 2, 29));
    app.next_year();
    assert_eq!(app.selected_date(), date(2025, 2, 28));
}

#[test]
fn move_selection_walks_and_clamps() {
    let mut app = App::new(date(2023, 1, 22));
    app.move_selection(10);
    assert_eq!(app.selected_date(), date(2023, 2, 1));
    app.move_selection(-7);
    assert_eq!(app.selected_date(), date(2023, 1, 25));
    app.move_selection(-9000000);
    assert_eq!(app.selected_date(), date(1900, 1, 1));
    app.move_selection(i64::MAX);
    assert_eq!(app.selected_date(), date(2112, 12, 31));
    app.move_selection(i64::MIN);
    assert_eq!(app.selected_date(), date(1900, 1, 1));
}

#[test]
fn back_to_today_restores_selection() {
    let mut app = App::new(date(2023, 1, 22));
    app.move_selection(40);
    app.next_year();
    app.back_to_today();
    assert_eq!(app.selected_date(), date(2023, 1, 22));
}

#[test]
fn jump_prompt_accepts_date_input() {
    let mut app = App::new(date(2023, 1, 22));
    app.start_jump_prompt();
    assert!(app.jump_prompt_active());
    for ch in "2024-06-10".chars() {
        app.push_jump_input(ch);
    }
    let view = app.jump_prompt_view().expect("prompt open");
    assert_eq!(view.input, "2024-06-10");
    assert!(view.error.is_none());
    app.confirm_jump_prompt();
    assert!(!app.jump_prompt_active());
    assert_eq!(app.selected_date(), date(2024, 6, 10));
}

#[test]
fn jump_prompt_rejects_letters_and_limits_length() {
    let mut app = App::new(date(2023, 1, 22));
    app.start_jump_prompt();
    app.push_jump_input('x');
    assert_eq!(app.jump_prompt_view().expect("open").input, "");
    for _ in 0..20 {
        app.push_jump_input('1');
    }
    assert_eq!(app.jump_prompt_view().expect("open").input.chars().count(), 16);
}

#[test]
fn jump_prompt_backspace() {
    let mut app = App::new(date(2023, 1, 22));
    app.start_jump_prompt();
    app.push_jump_input('2');
    app.push_jump_input('0');
    app.pop_jump_input();
    assert_eq!(app.jump_prompt_view().expect("open").input, "2");
    app.pop_jump_input();
    app.pop_jump_input();
    assert_eq!(app.jump_prompt_view().expect("open").input, "");
}

#[test]
fn jump_prompt_reports_bad_format() {
    let mut app = App::new(date(2023, 1, 22));
    app.start_jump_prompt();
    for ch in "202401".chars() {
        app.push_jump_input(ch);
    }
    app.confirm_jump_prompt();
    assert!(app.jump_prompt_active());
    assert_eq!(app.jump_prompt_view().expect("open").error, Some("无法识别日期格式"));
    assert_eq!(app.selected_date(), date(2023, 1, 22));
}

#[test]
fn jump_prompt_reports_out_of_range_year() {
    let mut app = App::new(date(2023, 1, 22));
    app.start_jump_prompt();
    for ch in "18991231".chars() {
        app.push_jump_input(ch);
    }
    app.confirm_jump_prompt();
    assert!(app.jump_prompt_active());
    assert_eq!(app.jump_prompt_view().expect("open").error, Some("超出支持范围"));
}

#[test]
fn jump_prompt_cancel() {
    let mut app = App::new(date(2023, 1, 22));
    app.start_jump_prompt();
    app.push_jump_input('9');
    app.cancel_jump_prompt();
    assert!(!app.jump_prompt_active());
    assert!(app.jump_prompt_view().is_none());
}

#[test]
fn parse_jump_input_formats() {
    assert_eq!(parse_jump_input(&chars("20230122")), Some((2023, 1, 22)));
    assert_eq!(parse_jump_input(&chars("2023-01-22")), Some((2023, 1, 22)));
    assert_eq!(parse_jump_input(&chars("2023/01/22")), Some((2023, 1, 22)));
    assert_eq!(parse_jump_input(&chars("0100.01.01")), Some((100, 1, 1)));
    assert_eq!(parse_jump_input(&chars("202301")), None);
    assert_eq!(parse_jump_input(&chars("202301223")), None);
    assert_eq!(parse_jump_input(&chars("20231301")), None);
    assert_eq!(parse_jump_input(&chars("20230230")), None);
    assert_eq!(parse_jump_input(&chars("20240229")), Some((2024, 2, 29)));
    assert_eq!(parse_jump_input(&chars("20230229")), None);
}

#[test]
fn month_rows_cover_six_weeks() {
    let app = App::new(date(2023, 1, 22));
    let rows = app.month_rows();
    assert_eq!(rows.len(), 6);
    for row in &rows {
        assert_eq!(row.len(), 7);
    }
    assert_eq!(rows[0][0].date, date(2022, 12, 26));
    assert_eq!(rows[5][6].date, date(2023, 2, 5));
    assert!(!rows[0][0].is_current_month);
    let sel = &rows[3][6];
    assert_eq!(sel.date, date(2023, 1, 22));
    assert!(sel.is_selected);
    assert!(sel.is_today);
    assert!(sel.is_current_month);
    assert_eq!(sel.holiday.expect("spring festival").name, "春节");
    let lunar = sel.lunar.expect("in range");
    assert_eq!((lunar.date.year, lunar.date.month, lunar.date.day), (2023, 1, 1));
}

#[test]
fn month_anchor_lunar_of_view() {
    let app = App::new(date(2023, 1, 22));
    let anchor = app.month_anchor_lunar().expect("in range");
    assert_eq!(anchor.date.year, 2022);
    assert_eq!(anchor.date.month, 12);
    assert_eq!(anchor.date.day, 10);
}

#[test]
fn selected_queries_agree_with_engine() {
    let mut app = App::new(date(2023, 4, 5));
    assert_eq!(app.selected_solar_term(), Some("清明"));
    assert_eq!(app.selected_holiday().expect("qingming").name, "清明节");
    app.move_selection(1);
    assert_eq!(app.selected_solar_term(), None);
    let lunar = app.selected_lunar().expect("in range");
    assert_eq!(lunar.date.year, 2023);
}

#[test]
fn new_app_past_window_clamps_view() {
    let app = App::new(date(2113, 3, 1));
    assert_eq!(app.view_year(), 2112);
    assert_eq!(app.view_month(), 3);
    assert_eq!(app.today(), date(2113, 3, 1));
}
