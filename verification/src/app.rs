//! The calendar view's state: the viewed month, the selected day, and
//! the jump prompt, with every move clamped to the supported window.
//!
//! The surrounding terminal layer owns the clock and the keyboard; this
//! state machine only ever sees plain dates and characters.

use vstd::prelude::*;

use crate::dates::{
    MIN_YEAR, SolarDate, date_from_index, days_in_month, max_day_index, month_len,
};
use crate::holiday::{HolidayInfo, holiday_for, holiday_result_matches, opt_term, spec_holiday_for};
use crate::keys::{Action, KeyCode, Modifiers};
use crate::lunar::{LunarInfo, lunar_result_ok, max_supported_year, max_year, solar_to_lunar};
use crate::solar_term::{solar_term_name, term_result_ok};
use crate::text::seq_num;

verus! {

/// One cell of the month grid: a date with everything the calendar shows
/// about it.
#[derive(Clone, Copy, Debug)]
pub struct DayCell {
    pub date: SolarDate,
    pub is_current_month: bool,
    pub is_today: bool,
    pub is_selected: bool,
    pub lunar: Option<LunarInfo>,
    pub holiday: Option<HolidayInfo>,
    pub solar_term: Option<&'static str>,
}

/// The jump prompt's state: what was typed, and the complaint about it.
pub struct JumpPrompt {
    pub buffer: Vec<char>,
    pub error: Option<&'static str>,
}

/// A read-only picture of the jump prompt for rendering.
pub struct JumpPromptView {
    pub input: String,
    pub error: Option<&'static str>,
}

/// The calendar application's state.
pub struct App {
    pub today: SolarDate,
    pub view_year: i32,
    pub view_month: u8,
    pub selected_day: u8,
    pub jump_prompt: Option<JumpPrompt>,
}

/// Clamp a view year into the years the lunar table supports.
pub open spec fn clamp_year(y: int) -> int {
    if y < MIN_YEAR {
        MIN_YEAR as int
    } else if y > max_year() {
        max_year()
    } else {
        y
    }
}

/// Day index of the last selectable date, the last day of the table's
/// last year.
pub open spec fn max_sel_index() -> int {
    (SolarDate { year: (MIN_YEAR + 212) as i32, month: 12, day: 31 }).index_spec()
}

/// Clamp a day index into the selectable window.
pub open spec fn clamp_index(t: int) -> int {
    if t < 0 {
        0
    } else if t > max_sel_index() {
        max_sel_index()
    } else {
        t
    }
}

/// Everything the month grid promises of one of its cells.
pub open spec fn day_cell_ok(c: DayCell, today: SolarDate, sel: SolarDate, vy: int, vm: int) -> bool {
    c.date.wf() && (c.is_today == (c.date == today)) && (c.is_selected == (c.date == sel)) && (
    c.is_current_month == (c.date.year == vy && c.date.month == vm)) && lunar_result_ok(
        c.date,
        c.lunar,
    ) && term_result_ok(c.date, c.solar_term) && holiday_result_matches(
        c.holiday,
        spec_holiday_for(c.date, c.lunar, opt_term(c.solar_term)),
    )
}

impl App {
    /// The state the navigation keeps: a calendar-valid selection within
    /// the years the lunar table supports.
    pub open spec fn wf(self) -> bool {
        self.today.wf() && MIN_YEAR <= self.view_year <= max_year() && 1 <= self.view_month <= 12
            && 1 <= self.selected_day && self.selected_day <= month_len(
            self.view_year as int,
            self.view_month as int,
        )
    }

    /// The selected date as a value.
    pub open spec fn sel_spec(self) -> SolarDate {
        SolarDate { year: self.view_year, month: self.view_month, day: self.selected_day }
    }

    pub open spec fn today_spec(self) -> SolarDate {
        self.today
    }

    pub open spec fn view_year_spec(self) -> int {
        self.view_year as int
    }

    pub open spec fn view_month_spec(self) -> int {
        self.view_month as int
    }

    pub open spec fn prompt_open(self) -> bool {
        self.jump_prompt is Some
    }

    /// Fresh state, opened on today's date; a date past the supported
    /// years opens on the nearest supported one.
    pub fn new(today: SolarDate) -> (r: App)
        requires
            today.wf(),
        ensures
            r.wf(),
            r.today_spec() == today,
            !r.prompt_open(),
            r.view_year_spec() == clamp_year(today.year as int),
            r.view_month_spec() == today.month,
            MIN_YEAR <= today.year <= max_year() ==> r.sel_spec() == today,
    {
        let mut app = App {
            today,
            view_year: today.year,
            view_month: today.month,
            selected_day: today.day,
            jump_prompt: None,
        };
        app.constrain_year();
        app.sync_day();
        app
    }

    pub fn view_year(&self) -> (y: i32)
        ensures
            y == self.view_year_spec(),
    {
        self.view_year
    }

    pub fn view_month(&self) -> (m: u8)
        ensures
            m == self.view_month_spec(),
    {
        self.view_month
    }

    pub fn today(&self) -> (d: SolarDate)
        ensures
            d == self.today_spec(),
    {
        self.today
    }

    pub fn selected_date(&self) -> (d: SolarDate)
        requires
            self.wf(),
        ensures
            d == self.sel_spec(),
            d.wf(),
    {
        SolarDate { year: self.view_year, month: self.view_month, day: self.selected_day }
    }

    /// Lunar representation of the selected date.
    pub fn selected_lunar(&self) -> (r: Option<LunarInfo>)
        requires
            self.wf(),
        ensures
            lunar_result_ok(self.sel_spec(), r),
    {
        solar_to_lunar(self.selected_date())
    }

    /// Solar term of the selected date.
    pub fn selected_solar_term(&self) -> (r: Option<&'static str>)
        requires
            self.wf(),
        ensures
            term_result_ok(self.sel_spec(), r),
    {
        solar_term_name(self.selected_date())
    }

    /// Holiday of the selected date, resolved from all three calendars.
    pub fn selected_holiday(&self) -> (r: Option<HolidayInfo>)
        requires
            self.wf(),
        ensures
            exists|lunar: Option<LunarInfo>, term: Option<&str>|
                lunar_result_ok(self.sel_spec(), lunar) && term_result_ok(self.sel_spec(), term)
                    && holiday_result_matches(
                    r,
                    spec_holiday_for(self.sel_spec(), lunar, opt_term(term)),
                ),
    {
        let date = self.selected_date();
        let lunar = solar_to_lunar(date);
        let solar_term = self.selected_solar_term();
        let r = holiday_for(date, lunar.as_ref(), solar_term);
        proof {
            let lg = lunar;
            let tg = solar_term;
            assert(lunar_result_ok(self.sel_spec(), lg) && term_result_ok(self.sel_spec(), tg)
                && holiday_result_matches(
                r,
                spec_holiday_for(self.sel_spec(), lg, opt_term(tg)),
            ));
        }
        r
    }

    /// Day index of the grid's first cell: the Monday on or before the
    /// first day of the viewed month (1900-01-01 was a Monday).
    pub open spec fn month_grid_start(self) -> int {
        let first = SolarDate { year: self.view_year, month: self.view_month, day: 1 };
        first.index_spec() - first.index_spec() % 7
    }

    /// The month grid: six weeks of seven days, Monday first, starting
    /// in the week of the month's first day; each cell carries the
    /// lunar date, solar term and holiday of its day.
    pub fn month_rows(&self) -> (rows: Vec<Vec<DayCell>>)
        requires
            self.wf(),
        ensures
            rows@.len() == 6,
            forall|i: int| 0 <= i < 6 ==> #[trigger] rows@[i]@.len() == 7,
            forall|i: int, j: int|
                0 <= i < 6 && 0 <= j < 7 ==> (#[trigger] rows@[i]@[j]).date.index_spec()
                    == self.month_grid_start() + 7 * i + j && day_cell_ok(
                    rows@[i]@[j],
                    self.today,
                    self.sel_spec(),
                    self.view_year as int,
                    self.view_month as int,
                ),
    {
        let first = SolarDate { year: self.view_year, month: self.view_month, day: 1 };
        let fi = first.day_index();
        proof {
            vstd::arithmetic::div_mod::lemma_fundamental_div_mod(fi as int, 7);
            vstd::arithmetic::div_mod::lemma_div_pos_is_pos(fi as int, 7);
            crate::dates::lemma_index_in_year(first);
            crate::dates::lemma_days_before_year_mono(
                self.view_year as int + 1,
                crate::dates::MAX_DATE_YEAR + 1,
            );
        }
        let start = fi - fi % 7;
        let selected = self.selected_date();
        let mut rows: Vec<Vec<DayCell>> = Vec::new();
        let mut i: usize = 0;
        while i < 6
            invariant
                self.wf(),
                0 <= i <= 6,
                start == self.month_grid_start(),
                0 <= start < 3000000,
                start + 41 <= max_day_index(),
                selected == self.sel_spec(),
                rows@.len() == i,
                forall|a: int| 0 <= a < i ==> #[trigger] rows@[a]@.len() == 7,
                forall|a: int, b: int|
                    0 <= a < i && 0 <= b < 7 ==> (#[trigger] rows@[a]@[b]).date.index_spec()
                        == self.month_grid_start() + 7 * a + b && day_cell_ok(
                        rows@[a]@[b],
                        self.today,
                        self.sel_spec(),
                        self.view_year as int,
                        self.view_month as int,
                    ),
            decreases 6 - i,
        {
            let mut week: Vec<DayCell> = Vec::new();
            let mut j: usize = 0;
            while j < 7
                invariant
                    self.wf(),
                    0 <= i < 6,
                    0 <= j <= 7,
                    start == self.month_grid_start(),
                    0 <= start < 3000000,
                    start + 41 <= max_day_index(),
                    selected == self.sel_spec(),
                    week@.len() == j,
                    forall|b: int|
                        0 <= b < j ==> (#[trigger] week@[b]).date.index_spec()
                            == self.month_grid_start() + 7 * i + b && day_cell_ok(
                            week@[b],
                            self.today,
                            self.sel_spec(),
                            self.view_year as int,
                            self.view_month as int,
                        ),
                decreases 7 - j,
            {
                let date = date_from_index(start + (7 * i + j) as i64);
                let is_current_month = date.month == self.view_month && date.year
                    == self.view_year;
                let is_today = date == self.today;
                let is_selected = date == selected;
                let lunar = solar_to_lunar(date);
                let solar_term = solar_term_name(date);
                let holiday = holiday_for(date, lunar.as_ref(), solar_term);
                week.push(
                    DayCell {
                        date,
                        is_current_month,
                        is_today,
                        is_selected,
                        lunar,
                        holiday,
                        solar_term,
                    },
                );
                j = j + 1;
            }
            rows.push(week);
            i = i + 1;
        }
        rows
    }

    /// Lunar representation of the viewed month's first day.
    pub fn month_anchor_lunar(&self) -> (r: Option<LunarInfo>)
        requires
            self.wf(),
        ensures
            lunar_result_ok(
                SolarDate { year: self.view_year, month: self.view_month, day: 1 },
                r,
            ),
    {
        let anchor = SolarDate { year: self.view_year, month: self.view_month, day: 1 };
        solar_to_lunar(anchor)
    }

    /// Clamp the view year into the supported window.
    fn constrain_year(&mut self)
        requires
            1 <= old(self).view_month <= 12,
            MIN_YEAR - 1 <= old(self).view_year <= crate::dates::MAX_DATE_YEAR + 1,
        ensures
            final(self).view_year == clamp_year(old(self).view_year as int),
            final(self).view_month == old(self).view_month,
            final(self).selected_day == old(self).selected_day,
            final(self).today == old(self).today,
            final(self).jump_prompt is Some == old(self).jump_prompt is Some,
    {
        let min_year = MIN_YEAR;
        let max_year = max_supported_year();
        if self.view_year < min_year {
            self.view_year = min_year;
        } else if self.view_year > max_year {
            self.view_year = max_year;
        }
    }

    /// Clamp the selected day into the viewed month.
    fn sync_day(&mut self)
        requires
            MIN_YEAR <= old(self).view_year <= crate::dates::MAX_DATE_YEAR,
            1 <= old(self).view_month <= 12,
            1 <= old(self).selected_day,
        ensures
            final(self).selected_day == (if old(self).selected_day > month_len(
                old(self).view_year as int,
                old(self).view_month as int,
            ) {
                month_len(old(self).view_year as int, old(self).view_month as int)
            } else {
                old(self).selected_day as int
            }),
            final(self).view_year == old(self).view_year,
            final(self).view_month == old(self).view_month,
            final(self).today == old(self).today,
            final(self).jump_prompt is Some == old(self).jump_prompt is Some,
    {
        let max_day = days_in_month(self.view_year, self.view_month);
        if self.selected_day > max_day {
            self.selected_day = max_day;
        }
    }

    /// Show the previous month, clamped to the supported years.
    pub fn prev_month(&mut self)
        requires
            old(self).wf(),
        ensures
            final(self).wf(),
            final(self).view_month == (if old(self).view_month == 1 {
                12int
            } else {
                old(self).view_month - 1
            }),
            final(self).view_year == clamp_year(
                if old(self).view_month == 1 {
                    old(self).view_year - 1
                } else {
                    old(self).view_year as int
                },
            ),
            final(self).today == old(self).today,
            final(self).jump_prompt is Some == old(self).jump_prompt is Some,
    {
        if self.view_month == 1 {
            self.view_month = 12;
            self.view_year = self.view_year - 1;
        } else {
            self.view_month = self.view_month - 1;
        }
        self.constrain_year();
        self.sync_day();
    }

    /// Show the next month, clamped to the supported years.
    pub fn next_month(&mut self)
        requires
            old(self).wf(),
        ensures
            final(self).wf(),
            final(self).view_month == (if old(self).view_month == 12 {
                1int
            } else {
                old(self).view_month + 1
            }),
            final(self).view_year == clamp_year(
                if old(self).view_month == 12 {
                    old(self).view_year + 1
                } else {
                    old(self).view_year as int
                },
            ),
            final(self).today == old(self).today,
            final(self).jump_prompt is Some == old(self).jump_prompt is Some,
    {
        if self.view_month == 12 {
            self.view_month = 1;
            self.view_year = self.view_year + 1;
        } else {
            self.view_month = self.view_month + 1;
        }
        self.constrain_year();
        self.sync_day();
    }

    /// Show the previous year, clamped to the supported years.
    pub fn prev_year(&mut self)
        requires
            old(self).wf(),
        ensures
            final(self).wf(),
            final(self).view_month == old(self).view_month,
            final(self).view_year == clamp_year(old(self).view_year - 1),
            final(self).today == old(self).today,
            final(self).jump_prompt is Some == old(self).jump_prompt is Some,
    {
        self.view_year = self.view_year - 1;
        self.constrain_year();
        self.sync_day();
    }

    /// Show the next year, clamped to the supported years.
    pub fn next_year(&mut self)
        requires
            old(self).wf(),
        ensures
            final(self).wf(),
            final(self).view_month == old(self).view_month,
            final(self).view_year == clamp_year(old(self).view_year + 1),
            final(self).today == old(self).today,
            final(self).jump_prompt is Some == old(self).jump_prompt is Some,
    {
        self.view_year = self.view_year + 1;
        self.constrain_year();
        self.sync_day();
    }

    /// Bring the view and the selection back to today.
    pub fn back_to_today(&mut self)
        requires
            old(self).wf(),
        ensures
            final(self).wf(),
            final(self).today == old(self).today,
            final(self).view_year_spec() == clamp_year(old(self).today.year as int),
            final(self).view_month_spec() == old(self).today.month,
            MIN_YEAR <= old(self).today.year <= max_year() ==> final(self).sel_spec() == old(self).today,
            final(self).jump_prompt is Some == old(self).jump_prompt is Some,
    {
        self.view_year = self.today.year;
        self.view_month = self.today.month;
        self.selected_day = self.today.day;
        self.constrain_year();
        self.sync_day();
    }

    /// Move the selection by `delta_days` days, clamped to the window
    /// from 1900-01-01 to the last day of the table's last year.
    pub fn move_selection(&mut self, delta_days: i64)
        requires
            old(self).wf(),
        ensures
            final(self).wf(),
            final(self).sel_spec().index_spec() == clamp_index(
                old(self).sel_spec().index_spec() + delta_days,
            ),
            final(self).today == old(self).today,
            final(self).jump_prompt is Some == old(self).jump_prompt is Some,
    {
        let last = SolarDate { year: max_supported_year(), month: 12, day: 31 };
        proof {
            crate::dates::lemma_index_in_year(last);
            crate::dates::lemma_days_before_year_mono(
                max_year() + 1,
                crate::dates::MAX_DATE_YEAR + 1,
            );
        }
        let max_idx = last.day_index();
        let cur = self.selected_date().day_index();
        let capped: i64 = if delta_days > 4000000 {
            4000000
        } else if delta_days < -4000000 {
            -4000000
        } else {
            delta_days
        };
        let mut target: i64 = cur + capped;
        if target < 0 {
            target = 0;
        }
        if target > max_idx {
            target = max_idx;
        }
        let d = date_from_index(target);
        proof {
            crate::dates::lemma_index_in_year(d);
            if d.year > max_year() {
                crate::dates::lemma_days_before_year_mono(max_year() + 1, d.year as int);
                assert(false);
            }
        }
        self.view_year = d.year;
        self.view_month = d.month;
        self.selected_day = d.day;
    }

    /// Runtime check of the state invariant, for callers outside the
    /// verifier's sight.
    pub fn is_wf(&self) -> (r: bool)
        ensures
            r == self.wf(),
    {
        self.today.year >= MIN_YEAR && self.today.year <= crate::dates::MAX_DATE_YEAR
            && self.today.month >= 1 && self.today.month <= 12 && self.today.day >= 1
            && self.today.day <= days_in_month(self.today.year, self.today.month)
            && self.view_year >= MIN_YEAR && self.view_year <= max_supported_year()
            && self.view_month >= 1 && self.view_month <= 12 && self.selected_day >= 1
            && self.selected_day <= days_in_month(self.view_year, self.view_month)
    }

    /// Whether the jump prompt is open.
    pub fn jump_prompt_active(&self) -> (r: bool)
        ensures
            r == self.prompt_open(),
    {
        self.jump_prompt.is_some()
    }

    /// Open the jump prompt, empty.
    pub fn start_jump_prompt(&mut self)
        requires
            old(self).wf(),
        ensures
            final(self).wf(),
            final(self).prompt_open(),
            final(self).prompt_buffer() == Seq::<char>::empty(),
            final(self).prompt_error() is None,
            final(self).sel_spec() == old(self).sel_spec(),
            final(self).today == old(self).today,
    {
        self.jump_prompt = Some(JumpPrompt { buffer: Vec::new(), error: None });
    }

    /// Close the jump prompt without acting on it.
    pub fn cancel_jump_prompt(&mut self)
        requires
            old(self).wf(),
        ensures
            final(self).wf(),
            !final(self).prompt_open(),
            final(self).sel_spec() == old(self).sel_spec(),
            final(self).today == old(self).today,
    {
        self.jump_prompt = None;
    }

    /// What the open prompt holds.
    pub open spec fn prompt_buffer(self) -> Seq<char> {
        self.jump_prompt->0.buffer@
    }

    pub open spec fn prompt_error(self) -> Option<&'static str> {
        self.jump_prompt->0.error
    }

    /// Take one typed character into the open prompt: digits and the
    /// separators `-`, `/`, `.` and space, up to 16 characters.
    pub fn push_jump_input(&mut self, ch: char)
        requires
            old(self).wf(),
        ensures
            final(self).wf(),
            final(self).prompt_open() == old(self).prompt_open(),
            old(self).prompt_open() ==> {
                if old(self).prompt_buffer().len() < 16 && jump_char_allowed(ch) {
                    final(self).prompt_buffer() == old(self).prompt_buffer().push(ch)
                        && final(self).prompt_error() is None
                } else {
                    final(self).prompt_buffer() == old(self).prompt_buffer()
                        && final(self).prompt_error() == old(self).prompt_error()
                }
            },
            final(self).sel_spec() == old(self).sel_spec(),
            final(self).today == old(self).today,
    {
        match &mut self.jump_prompt {
            None => {},
            Some(prompt) => {
                if prompt.buffer.len() >= 16 {
                    return;
                }
                if ('0' <= ch && ch <= '9') || ch == '-' || ch == '/' || ch == '.' || ch == ' ' {
                    prompt.buffer.push(ch);
                    prompt.error = None;
                }
            },
        }
    }

    /// Drop the last typed character of the open prompt.
    pub fn pop_jump_input(&mut self)
        requires
            old(self).wf(),
        ensures
            final(self).wf(),
            final(self).prompt_open() == old(self).prompt_open(),
            old(self).prompt_open() ==> final(self).prompt_buffer() == (if old(self)
                .prompt_buffer().len() > 0 {
                old(self).prompt_buffer().drop_last()
            } else {
                old(self).prompt_buffer()
            }) && final(self).prompt_error() is None,
            final(self).sel_spec() == old(self).sel_spec(),
            final(self).today == old(self).today,
    {
        match &mut self.jump_prompt {
            None => {},
            Some(prompt) => {
                if prompt.buffer.len() > 0 {
                    prompt.buffer.pop();
                }
                prompt.error = None;
            },
        }
    }

    /// A rendering view of the open prompt.
    pub fn jump_prompt_view(&self) -> (r: Option<JumpPromptView>)
        ensures
            r is Some == self.prompt_open(),
            self.prompt_open() ==> r->0.input@ == self.prompt_buffer() && r->0.error
                == self.prompt_error(),
    {
        match &self.jump_prompt {
            None => None,
            Some(prompt) => {
                let mut input = String::new();
                let mut i: usize = 0;
                while i < prompt.buffer.len()
                    invariant
                        0 <= i <= prompt.buffer.len(),
                        input@ == prompt.buffer@.take(i as int),
                    decreases prompt.buffer.len() - i,
                {
                    input.push(prompt.buffer[i]);
                    proof {
                        assert(prompt.buffer@.take(i + 1) =~= prompt.buffer@.take(i as int).push(
                            prompt.buffer@[i as int],
                        ));
                    }
                    i = i + 1;
                }
                proof {
                    assert(prompt.buffer@.take(prompt.buffer@.len() as int) =~= prompt.buffer@);
                }
                Some(JumpPromptView { input, error: prompt.error })
            },
        }
    }
}

/// Characters the jump prompt takes: digits and date separators.
pub open spec fn jump_char_allowed(ch: char) -> bool {
    ('0' <= ch && ch <= '9') || ch == '-' || ch == '/' || ch == '.' || ch == ' '
}

/// The digits of a typed sequence, in order, separators dropped.
pub open spec fn digits_of(s: Seq<char>) -> Seq<char>
    decreases s.len(),
{
    if s.len() == 0 {
        Seq::empty()
    } else if '0' <= s.last() <= '9' {
        digits_of(s.drop_last()).push(s.last())
    } else {
        digits_of(s.drop_last())
    }
}

/// What typed input means as a date request: exactly eight digits,
/// read as year, month and day, and only a calendar-valid combination.
pub open spec fn spec_parse_jump(s: Seq<char>) -> Option<(int, int, int)> {
    let ds = digits_of(s);
    if ds.len() != 8 {
        None
    } else {
        let y = seq_num(ds.subrange(0, 4));
        let m = seq_num(ds.subrange(4, 6));
        let d = seq_num(ds.subrange(6, 8));
        if 1 <= m <= 12 && 1 <= d <= month_len(y, m) {
            Some((y, m, d))
        } else {
            None
        }
    }
}

/// Every character `digits_of` keeps is a digit.
proof fn lemma_digits_of_digits(s: Seq<char>)
    ensures
        forall|k: int| 0 <= k < digits_of(s).len() ==> '0' <= #[trigger] digits_of(s)[k] <= '9',
    decreases s.len(),
{
    if s.len() > 0 {
        lemma_digits_of_digits(s.drop_last());
        assert forall|k: int| 0 <= k < digits_of(s).len() implies '0' <= #[trigger] digits_of(
            s,
        )[k] <= '9' by {
            if '0' <= s.last() <= '9' {
                assert(digits_of(s) == digits_of(s.drop_last()).push(s.last()));
                if k < digits_of(s.drop_last()).len() {
                    assert(digits_of(s)[k] == digits_of(s.drop_last())[k]);
                } else {
                    assert(digits_of(s)[k] == s.last());
                }
            } else {
                assert(digits_of(s) == digits_of(s.drop_last()));
            }
        }
    }
}

/// Read a typed jump request: keep the digits, demand exactly eight,
/// and read them as a calendar-valid year, month and day.
pub fn parse_jump_input(input: &Vec<char>) -> (r: Option<(i32, u8, u8)>)
    ensures
        (match r {
            Some(t) => spec_parse_jump(input@) == Some((t.0 as int, t.1 as int, t.2 as int)),
            None => spec_parse_jump(input@) is None,
        }),
{
    let mut digits: Vec<char> = Vec::new();
    let mut i: usize = 0;
    while i < input.len()
        invariant
            0 <= i <= input@.len(),
            digits@ == digits_of(input@.take(i as int)),
        decreases input@.len() - i,
    {
        let c = input[i];
        proof {
            assert(input@.take(i + 1).drop_last() =~= input@.take(i as int));
            assert(input@.take(i + 1).last() == input@[i as int]);
        }
        if '0' <= c && c <= '9' {
            digits.push(c);
        }
        i = i + 1;
    }
    proof {
        assert(input@.take(input@.len() as int) =~= input@);
        lemma_digits_of_digits(input@);
    }
    if digits.len() != 8 {
        return None;
    }
    let ghost ds = digits@;
    proof {
        reveal_with_fuel(seq_num, 10);
        assert(ds.subrange(0, 4).drop_last() =~= ds.subrange(0, 3));
        assert(ds.subrange(0, 3).drop_last() =~= ds.subrange(0, 2));
        assert(ds.subrange(0, 2).drop_last() =~= ds.subrange(0, 1));
        assert(ds.subrange(0, 1).drop_last() =~= ds.subrange(0, 0));
        assert(ds.subrange(4, 6).drop_last() =~= ds.subrange(4, 5));
        assert(ds.subrange(4, 5).drop_last() =~= ds.subrange(4, 4));
        assert(ds.subrange(6, 8).drop_last() =~= ds.subrange(6, 7));
        assert(ds.subrange(6, 7).drop_last() =~= ds.subrange(6, 6));
    }
    let y: u32 = (digits[0] as u32 - 48) * 1000 + (digits[1] as u32 - 48) * 100 + (digits[2] as u32
        - 48) * 10 + (digits[3] as u32 - 48);
    let m: u32 = (digits[4] as u32 - 48) * 10 + (digits[5] as u32 - 48);
    let d: u32 = (digits[6] as u32 - 48) * 10 + (digits[7] as u32 - 48);
    proof {
        assert(y == seq_num(ds.subrange(0, 4)));
        assert(m == seq_num(ds.subrange(4, 6)));
        assert(d == seq_num(ds.subrange(6, 8)));
    }
    if m < 1 || m > 12 {
        return None;
    }
    let len = days_in_month(y as i32, m as u8);
    if d < 1 || d > len as u32 {
        return None;
    }
    Some((y as i32, m as u8, d as u8))
}

impl App {
    /// How confirming the jump prompt changes the state: a valid date
    /// within the supported years moves the view and closes the prompt;
    /// anything else keeps the prompt open with a complaint.
    pub open spec fn confirm_transition(pre: App, post: App) -> bool {
        &&& post.today == pre.today
        &&& (!pre.prompt_open() ==> post == pre)
        &&& (pre.prompt_open() ==> (match spec_parse_jump(pre.prompt_buffer()) {
            Some(t) => {
                if MIN_YEAR <= t.0 <= max_year() {
                    !post.prompt_open() && post.view_year == t.0 && post.view_month == t.1
                        && post.selected_day == t.2
                } else {
                    post.prompt_open() && post.prompt_buffer() == pre.prompt_buffer() && (
                    match post.prompt_error() {
                        Some(e) => e@ == "超出支持范围"@,
                        None => false,
                    }) && post.sel_spec() == pre.sel_spec()
                }
            },
            None => post.prompt_open() && post.prompt_buffer() == pre.prompt_buffer() && (
            match post.prompt_error() {
                Some(e) => e@ == "无法识别日期格式"@,
                None => false,
            }) && post.sel_spec() == pre.sel_spec(),
        }))
    }

    /// Act on the typed jump request: move to a valid date within the
    /// supported years and close the prompt, else keep the prompt open
    /// with a complaint. With no prompt open, nothing changes.
    pub fn confirm_jump_prompt(&mut self)
        requires
            old(self).wf(),
        ensures
            final(self).wf(),
            App::confirm_transition(*old(self), *final(self)),
            final(self).today == old(self).today,
            !old(self).prompt_open() ==> *final(self) == *old(self),
            old(self).prompt_open() ==> (match spec_parse_jump(old(self).prompt_buffer()) {
                Some(t) => {
                    if MIN_YEAR <= t.0 <= max_year() {
                        !final(self).prompt_open() && final(self).view_year == t.0 && final(self).view_month == t.1 && final(self).selected_day == t.2
                    } else {
                        final(self).prompt_open() && final(self).prompt_buffer() == old(self).prompt_buffer() && (match final(self).prompt_error() {
                            Some(e) => e@ == "超出支持范围"@,
                            None => false,
                        }) && final(self).sel_spec() == old(self).sel_spec()
                    }
                },
                None => final(self).prompt_open() && final(self).prompt_buffer() == old(self).prompt_buffer() && (match final(self).prompt_error() {
                    Some(e) => e@ == "无法识别日期格式"@,
                    None => false,
                }) && final(self).sel_spec() == old(self).sel_spec(),
            }),
    {
        let parsed = match &self.jump_prompt {
            None => {
                return ;
            },
            Some(p) => parse_jump_input(&p.buffer),
        };
        match parsed {
            Some((y, m, d)) => {
                if y < MIN_YEAR || y > max_supported_year() {
                    match &mut self.jump_prompt {
                        Some(p) => {
                            p.error = Some("超出支持范围");
                        },
                        None => {},
                    }
                } else {
                    self.view_year = y;
                    self.view_month = m;
                    self.selected_day = d;
                    self.jump_prompt = None;
                }
            },
            None => {
                match &mut self.jump_prompt {
                    Some(p) => {
                        p.error = Some("无法识别日期格式");
                    },
                    None => {},
                }
            },
        }
    }
}


/// Carry out one bound action on the state; the result asks the caller
/// to quit. Each action does exactly what the matching method does.
pub fn handle_action(app: &mut App, action: Action) -> (quit: bool)
    requires
        old(app).wf(),
    ensures
        final(app).wf(),
        final(app).today == old(app).today,
        quit == (action == Action::Quit),
        (match action {
            Action::Quit => *final(app) == *old(app),
            Action::MoveLeft => final(app).sel_spec().index_spec() == clamp_index(
                old(app).sel_spec().index_spec() - 1,
            ),
            Action::MoveRight => final(app).sel_spec().index_spec() == clamp_index(
                old(app).sel_spec().index_spec() + 1,
            ),
            Action::MoveUp => final(app).sel_spec().index_spec() == clamp_index(
                old(app).sel_spec().index_spec() - 7,
            ),
            Action::MoveDown => final(app).sel_spec().index_spec() == clamp_index(
                old(app).sel_spec().index_spec() + 7,
            ),
            Action::PrevMonth => final(app).view_month_spec() == (if old(app).view_month == 1 {
                12int
            } else {
                old(app).view_month - 1
            }) && final(app).view_year_spec() == clamp_year(
                if old(app).view_month == 1 {
                    old(app).view_year - 1
                } else {
                    old(app).view_year as int
                },
            ),
            Action::NextMonth => final(app).view_month_spec() == (if old(app).view_month == 12 {
                1int
            } else {
                old(app).view_month + 1
            }) && final(app).view_year_spec() == clamp_year(
                if old(app).view_month == 12 {
                    old(app).view_year + 1
                } else {
                    old(app).view_year as int
                },
            ),
            Action::PrevYear => final(app).view_month_spec() == old(app).view_month_spec() && final(app).view_year_spec() == clamp_year(old(app).view_year - 1),
            Action::NextYear => final(app).view_month_spec() == old(app).view_month_spec() && final(app).view_year_spec() == clamp_year(old(app).view_year + 1),
            Action::BackToToday => final(app).view_year_spec() == clamp_year(
                old(app).today.year as int,
            ) && final(app).view_month_spec() == old(app).today.month,
            Action::OpenJumpPrompt => final(app).prompt_open() && final(app).prompt_buffer()
                == Seq::<char>::empty() && final(app).sel_spec() == old(app).sel_spec(),
        }),
{
    match action {
        Action::Quit => true,
        Action::MoveLeft => {
            app.move_selection(-1);
            false
        },
        Action::MoveRight => {
            app.move_selection(1);
            false
        },
        Action::MoveUp => {
            app.move_selection(-7);
            false
        },
        Action::MoveDown => {
            app.move_selection(7);
            false
        },
        Action::PrevMonth => {
            app.prev_month();
            false
        },
        Action::NextMonth => {
            app.next_month();
            false
        },
        Action::PrevYear => {
            app.prev_year();
            false
        },
        Action::NextYear => {
            app.next_year();
            false
        },
        Action::BackToToday => {
            app.back_to_today();
            false
        },
        Action::OpenJumpPrompt => {
            app.start_jump_prompt();
            false
        },
    }
}

/// Keys typed while the jump prompt is open: Esc closes it, Enter acts
/// on it, Backspace edits it, and a plain character is taken as input;
/// a character with a command modifier is ignored.
pub fn handle_prompt_key(app: &mut App, code: KeyCode, modifiers: Modifiers)
    requires
        old(app).wf(),
    ensures
        final(app).wf(),
        final(app).today == old(app).today,
        (match code {
            KeyCode::Esc => !final(app).prompt_open() && final(app).sel_spec() == old(app).sel_spec(),
            KeyCode::Enter => App::confirm_transition(*old(app), *final(app)),
            KeyCode::Backspace => final(app).prompt_open() == old(app).prompt_open() && final(app).sel_spec() == old(app).sel_spec() && (old(app).prompt_open() ==> final(app).prompt_buffer() == (if old(app).prompt_buffer().len() > 0 {
                old(app).prompt_buffer().drop_last()
            } else {
                old(app).prompt_buffer()
            }) && final(app).prompt_error() is None),
            KeyCode::Char(ch) => {
                if !(modifiers.ctrl || modifiers.alt || modifiers.meta) {
                    final(app).prompt_open() == old(app).prompt_open() && final(app).sel_spec()
                        == old(app).sel_spec() && (old(app).prompt_open() ==> {
                        if old(app).prompt_buffer().len() < 16 && jump_char_allowed(ch) {
                            final(app).prompt_buffer() == old(app).prompt_buffer().push(ch)
                                && final(app).prompt_error() is None
                        } else {
                            final(app).prompt_buffer() == old(app).prompt_buffer() && final(app).prompt_error() == old(app).prompt_error()
                        }
                    })
                } else {
                    *final(app) == *old(app)
                }
            },
            _ => *final(app) == *old(app),
        }),
{
    match code {
        KeyCode::Esc => app.cancel_jump_prompt(),
        KeyCode::Enter => app.confirm_jump_prompt(),
        KeyCode::Backspace => app.pop_jump_input(),
        KeyCode::Char(ch) => {
            if !(modifiers.ctrl || modifiers.alt || modifiers.meta) {
                app.push_jump_input(ch);
            }
        },
        _ => {},
    }
}

} // verus!
