//! Key bindings: the binding grammar ("Ctrl+x", "g+d", "F5"), the table
//! from actions to key sequences, and the resolver that feeds key presses
//! through multi-key sequences.
//!
//! Keys are held as plain values; the terminal layer translates its own
//! key events into them and back.

use vstd::prelude::*;

use crate::text::{seq_num, str_chars};

verus! {

/// Everything a key binding can ask the calendar to do.
#[derive(Clone, Copy, Debug, PartialEq, Eq, Structural)]
pub enum Action {
    Quit,
    MoveLeft,
    MoveRight,
    MoveUp,
    MoveDown,
    PrevMonth,
    NextMonth,
    PrevYear,
    NextYear,
    BackToToday,
    OpenJumpPrompt,
}

/// The four modifier keys a binding can name.
#[derive(Clone, Copy, Debug, PartialEq, Eq, Structural)]
pub struct Modifiers {
    pub ctrl: bool,
    pub alt: bool,
    pub shift: bool,
    pub meta: bool,
}

impl Modifiers {
    pub open spec fn none_spec() -> Modifiers {
        Modifiers { ctrl: false, alt: false, shift: false, meta: false }
    }

    pub fn none() -> (r: Modifiers)
        ensures
            r == Modifiers::none_spec(),
    {
        Modifiers { ctrl: false, alt: false, shift: false, meta: false }
    }

    pub open spec fn union_spec(self, o: Modifiers) -> Modifiers {
        Modifiers {
            ctrl: self.ctrl || o.ctrl,
            alt: self.alt || o.alt,
            shift: self.shift || o.shift,
            meta: self.meta || o.meta,
        }
    }

    pub fn union(self, o: Modifiers) -> (r: Modifiers)
        ensures
            r == self.union_spec(o),
    {
        Modifiers {
            ctrl: self.ctrl || o.ctrl,
            alt: self.alt || o.alt,
            shift: self.shift || o.shift,
            meta: self.meta || o.meta,
        }
    }
}

/// The key codes the binding grammar can name.
#[derive(Clone, Copy, Debug, PartialEq, Eq, Structural)]
pub enum KeyCode {
    Char(char),
    F(u8),
    Esc,
    Enter,
    Backspace,
    Tab,
    BackTab,
    Delete,
    Insert,
    Home,
    End,
    PageUp,
    PageDown,
    Left,
    Right,
    Up,
    Down,
}

/// One key with its modifiers, as a binding step.
#[derive(Clone, Copy, Debug, PartialEq, Eq, Structural)]
pub struct KeyPress {
    pub code: KeyCode,
    pub modifiers: Modifiers,
}

/// ASCII-case-insensitive character equality.
pub open spec fn fold_char_eq(a: char, b: char) -> bool {
    a == b || (65 <= a as u32 <= 90 && b as u32 == a as u32 + 32) || (65 <= b as u32 <= 90
        && a as u32 == b as u32 + 32)
}

/// ASCII-case-insensitive string equality.
pub open spec fn fold_eq(a: Seq<char>, b: Seq<char>) -> bool {
    a.len() == b.len() && forall|i: int| 0 <= i < a.len() ==> fold_char_eq(a[i], b[i])
}

/// ASCII-case-insensitive comparison of typed characters and a keyword.
fn chars_fold_eq(v: &Vec<char>, s: &str) -> (r: bool)
    ensures
        r == fold_eq(v@, s@),
{
    let n = s.unicode_len();
    if v.len() != n {
        return false;
    }
    let mut i: usize = 0;
    while i < n
        invariant
            n == s@.len(),
            v@.len() == n,
            0 <= i <= n,
            forall|k: int| 0 <= k < i ==> fold_char_eq(v@[k], s@[k]),
        decreases n - i,
    {
        let a = v[i];
        let b = s.get_char(i);
        let au = a as u32;
        let bu = b as u32;
        let ok = a == b || (65 <= au && au <= 90 && bu == au + 32) || (65 <= bu && bu <= 90 && au
            == bu + 32);
        if !ok {
            return false;
        }
        i = i + 1;
    }
    true
}

/// The whitespace the binding grammar strips around tokens.
pub open spec fn is_space(c: char) -> bool {
    c == ' ' || c == '\t' || c == '\n' || c == '\r'
}

pub open spec fn trim_front(s: Seq<char>) -> Seq<char>
    decreases s.len(),
{
    if s.len() > 0 && is_space(s.first()) {
        trim_front(s.drop_first())
    } else {
        s
    }
}

pub open spec fn trim_back(s: Seq<char>) -> Seq<char>
    decreases s.len(),
{
    if s.len() > 0 && is_space(s.last()) {
        trim_back(s.drop_last())
    } else {
        s
    }
}

/// A token with surrounding whitespace stripped.
pub open spec fn trim_spec(s: Seq<char>) -> Seq<char> {
    trim_back(trim_front(s))
}

fn is_space_exec(c: char) -> (r: bool)
    ensures
        r == is_space(c),
{
    c == ' ' || c == '\t' || c == '\n' || c == '\r'
}

/// Strip whitespace from both ends of a token.
fn trim_chars(v: &Vec<char>) -> (r: Vec<char>)
    ensures
        r@ == trim_spec(v@),
{
    let n = v.len();
    proof {
        assert(v@.skip(0) =~= v@);
    }
    let mut lo: usize = 0;
    while lo < n && is_space_exec(v[lo])
        invariant
            n == v@.len(),
            0 <= lo <= n,
            trim_front(v@) == trim_front(v@.skip(lo as int)),
        decreases n - lo,
    {
        proof {
            assert(v@.skip(lo as int).first() == v@[lo as int]);
            assert(v@.skip(lo as int).drop_first() =~= v@.skip(lo as int + 1));
        }
        lo = lo + 1;
    }
    proof {
        if lo == n {
            assert(v@.skip(lo as int) =~= Seq::<char>::empty());
        }
        assert(trim_front(v@) == v@.skip(lo as int));
        assert(v@.skip(lo as int) =~= v@.subrange(lo as int, n as int));
    }
    let mut hi: usize = n;
    while hi > lo && is_space_exec(v[hi - 1])
        invariant
            n == v@.len(),
            0 <= lo <= hi <= n,
            trim_back(v@.subrange(lo as int, n as int)) == trim_back(
                v@.subrange(lo as int, hi as int),
            ),
        decreases hi,
    {
        proof {
            assert(v@.subrange(lo as int, hi as int).last() == v@[hi as int - 1]);
            assert(v@.subrange(lo as int, hi as int).drop_last() =~= v@.subrange(
                lo as int,
                hi as int - 1,
            ));
        }
        hi = hi - 1;
    }
    proof {
        if hi == lo {
            assert(v@.subrange(lo as int, hi as int) =~= Seq::<char>::empty());
        }
        assert(trim_back(v@.subrange(lo as int, hi as int)) == v@.subrange(lo as int, hi as int));
    }
    let mut r: Vec<char> = Vec::new();
    let mut i: usize = lo;
    while i < hi
        invariant
            lo <= i <= hi <= v@.len(),
            r@ == v@.subrange(lo as int, i as int),
        decreases hi - i,
    {
        r.push(v[i]);
        proof {
            assert(v@.subrange(lo as int, i as int + 1) =~= v@.subrange(lo as int, i as int).push(
                v@[i as int],
            ));
        }
        i = i + 1;
    }
    r
}

/// The modifier a token names, if any.
pub open spec fn spec_parse_modifier(t: Seq<char>) -> Option<Modifiers> {
    if fold_eq(t, "ctrl"@) || fold_eq(t, "control"@) {
        Some(Modifiers { ctrl: true, alt: false, shift: false, meta: false })
    } else if fold_eq(t, "alt"@) || fold_eq(t, "option"@) {
        Some(Modifiers { ctrl: false, alt: true, shift: false, meta: false })
    } else if fold_eq(t, "shift"@) {
        Some(Modifiers { ctrl: false, alt: false, shift: true, meta: false })
    } else if fold_eq(t, "meta"@) || fold_eq(t, "super"@) || fold_eq(t, "cmd"@) || fold_eq(
        t,
        "command"@,
    ) {
        Some(Modifiers { ctrl: false, alt: false, shift: false, meta: true })
    } else {
        None
    }
}

fn parse_modifier_chars(t: &Vec<char>) -> (r: Option<Modifiers>)
    ensures
        r == spec_parse_modifier(t@),
{
    if chars_fold_eq(t, "ctrl") || chars_fold_eq(t, "control") {
        Some(Modifiers { ctrl: true, alt: false, shift: false, meta: false })
    } else if chars_fold_eq(t, "alt") || chars_fold_eq(t, "option") {
        Some(Modifiers { ctrl: false, alt: true, shift: false, meta: false })
    } else if chars_fold_eq(t, "shift") {
        Some(Modifiers { ctrl: false, alt: false, shift: true, meta: false })
    } else if chars_fold_eq(t, "meta") || chars_fold_eq(t, "super") || chars_fold_eq(t, "cmd")
        || chars_fold_eq(t, "command") {
        Some(Modifiers { ctrl: false, alt: false, shift: false, meta: true })
    } else {
        None
    }
}

/// Parse a modifier name: Ctrl, Alt, Shift, or a Meta synonym, in any
/// letter case.
pub fn parse_modifier(token: &str) -> (r: Option<Modifiers>)
    ensures
        r == spec_parse_modifier(token@),
{
    let chars = str_chars(token);
    parse_modifier_chars(&chars)
}

pub open spec fn all_digits(s: Seq<char>) -> bool {
    forall|i: int| 0 <= i < s.len() ==> '0' <= #[trigger] s[i] <= '9'
}

/// A function-key token: `f` or `F` followed by a number up to 255.
pub open spec fn spec_parse_function_key(t: Seq<char>) -> Option<KeyCode> {
    if t.len() >= 2 && (t[0] == 'f' || t[0] == 'F') && all_digits(t.skip(1)) && seq_num(t.skip(1))
        <= 255 {
        Some(KeyCode::F(seq_num(t.skip(1)) as u8))
    } else {
        None
    }
}

/// A digit sequence has a nonnegative value.
proof fn lemma_seq_num_nonneg(s: Seq<char>)
    requires
        all_digits(s),
    ensures
        seq_num(s) >= 0,
    decreases s.len(),
{
    if s.len() > 0 {
        assert(all_digits(s.drop_last())) by {
            assert(forall|i: int| 0 <= i < s.len() - 1 ==> s.drop_last()[i] == s[i]);
        }
        lemma_seq_num_nonneg(s.drop_last());
    }
}

/// Extending a digit sequence never shrinks its value.
proof fn lemma_seq_num_prefix(s: Seq<char>, i: int)
    requires
        all_digits(s),
        0 <= i <= s.len(),
    ensures
        seq_num(s.take(i)) <= seq_num(s),
    decreases s.len() - i,
{
    if i < s.len() {
        lemma_seq_num_prefix(s, i + 1);
        assert(s.take(i + 1).drop_last() =~= s.take(i));
        assert(all_digits(s.take(i))) by {
            assert(forall|k: int| 0 <= k < i ==> s.take(i)[k] == s[k]);
        }
        lemma_seq_num_nonneg(s.take(i));
        assert(seq_num(s.take(i + 1)) == seq_num(s.take(i)) * 10 + (s.take(i + 1).last() as u32
            - 48));
    } else {
        assert(s.take(i) =~= s);
    }
}

fn parse_function_key_chars(t: &Vec<char>) -> (r: Option<KeyCode>)
    ensures
        r == spec_parse_function_key(t@),
{
    if t.len() < 2 {
        return None;
    }
    let c0 = t[0];
    if c0 != 'f' && c0 != 'F' {
        return None;
    }
    let ghost digits = t@.skip(1);
    let mut val: u32 = 0;
    let mut i: usize = 1;
    while i < t.len()
        invariant
            1 <= i <= t@.len(),
            2 <= t@.len(),
            digits == t@.skip(1),
            forall|k: int| 1 <= k < i ==> '0' <= #[trigger] t@[k] <= '9',
            val == seq_num(t@.subrange(1, i as int)),
            val <= 255,
        decreases t@.len() - i,
    {
        let c = t[i];
        if c < '0' || c > '9' {
            proof {
                assert(digits[i - 1] == t@[i as int]);
                assert(!all_digits(digits));
            }
            return None;
        }
        let d = c as u32 - 48;
        proof {
            assert(t@.subrange(1, i as int + 1).drop_last() =~= t@.subrange(1, i as int));
            assert(t@.subrange(1, i as int + 1).last() == t@[i as int]);
        }
        if val > 25 || (val == 25 && d > 5) {
            proof {
                if all_digits(digits) {
                    assert(digits.take(i as int) =~= t@.subrange(1, i as int + 1));
                    lemma_seq_num_prefix(digits, i as int);
                    assert(seq_num(digits) > 255);
                }
            }
            return None;
        }
        val = val * 10 + d;
        i = i + 1;
    }
    proof {
        assert(t@.subrange(1, t@.len() as int) =~= digits);
        assert(forall|k: int| 0 <= k < digits.len() ==> digits[k] == t@[k + 1]);
    }
    Some(KeyCode::F(val as u8))
}

/// Parse a function key: `f` or `F` and a number, `F1` through `F255`.
pub fn parse_function_key(token: &str) -> (r: Option<KeyCode>)
    ensures
        r == spec_parse_function_key(token@),
{
    let chars = str_chars(token);
    parse_function_key_chars(&chars)
}

/// The key a token names: a single character stands for itself, the
/// named keys match in any letter case, and anything else must be a
/// function key.
pub open spec fn spec_parse_key_code(raw: Seq<char>) -> Option<KeyCode> {
    let t = trim_spec(raw);
    if t.len() == 0 {
        None
    } else if t.len() == 1 {
        Some(KeyCode::Char(t[0]))
    } else if fold_eq(t, "esc"@) || fold_eq(t, "escape"@) {
        Some(KeyCode::Esc)
    } else if fold_eq(t, "left"@) {
        Some(KeyCode::Left)
    } else if fold_eq(t, "right"@) {
        Some(KeyCode::Right)
    } else if fold_eq(t, "up"@) {
        Some(KeyCode::Up)
    } else if fold_eq(t, "down"@) {
        Some(KeyCode::Down)
    } else if fold_eq(t, "space"@) {
        Some(KeyCode::Char(' '))
    } else if fold_eq(t, "enter"@) || fold_eq(t, "return"@) {
        Some(KeyCode::Enter)
    } else if fold_eq(t, "backspace"@) {
        Some(KeyCode::Backspace)
    } else if fold_eq(t, "tab"@) {
        Some(KeyCode::Tab)
    } else if fold_eq(t, "delete"@) {
        Some(KeyCode::Delete)
    } else if fold_eq(t, "insert"@) {
        Some(KeyCode::Insert)
    } else if fold_eq(t, "home"@) {
        Some(KeyCode::Home)
    } else if fold_eq(t, "end"@) {
        Some(KeyCode::End)
    } else if fold_eq(t, "pageup"@) || fold_eq(t, "page_up"@) {
        Some(KeyCode::PageUp)
    } else if fold_eq(t, "pagedown"@) || fold_eq(t, "page_down"@) {
        Some(KeyCode::PageDown)
    } else {
        spec_parse_function_key(t)
    }
}

fn parse_key_code_chars(raw: &Vec<char>) -> (r: Option<KeyCode>)
    ensures
        r == spec_parse_key_code(raw@),
{
    let t = trim_chars(raw);
    if t.len() == 0 {
        None
    } else if t.len() == 1 {
        Some(KeyCode::Char(t[0]))
    } else if chars_fold_eq(&t, "esc") || chars_fold_eq(&t, "escape") {
        Some(KeyCode::Esc)
    } else if chars_fold_eq(&t, "left") {
        Some(KeyCode::Left)
    } else if chars_fold_eq(&t, "right") {
        Some(KeyCode::Right)
    } else if chars_fold_eq(&t, "up") {
        Some(KeyCode::Up)
    } else if chars_fold_eq(&t, "down") {
        Some(KeyCode::Down)
    } else if chars_fold_eq(&t, "space") {
        Some(KeyCode::Char(' '))
    } else if chars_fold_eq(&t, "enter") || chars_fold_eq(&t, "return") {
        Some(KeyCode::Enter)
    } else if chars_fold_eq(&t, "backspace") {
        Some(KeyCode::Backspace)
    } else if chars_fold_eq(&t, "tab") {
        Some(KeyCode::Tab)
    } else if chars_fold_eq(&t, "delete") {
        Some(KeyCode::Delete)
    } else if chars_fold_eq(&t, "insert") {
        Some(KeyCode::Insert)
    } else if chars_fold_eq(&t, "home") {
        Some(KeyCode::Home)
    } else if chars_fold_eq(&t, "end") {
        Some(KeyCode::End)
    } else if chars_fold_eq(&t, "pageup") || chars_fold_eq(&t, "page_up") {
        Some(KeyCode::PageUp)
    } else if chars_fold_eq(&t, "pagedown") || chars_fold_eq(&t, "page_down") {
        Some(KeyCode::PageDown)
    } else {
        parse_function_key_chars(&t)
    }
}

/// Parse a key token.
pub fn parse_key_code(raw: &str) -> (r: Option<KeyCode>)
    ensures
        r == spec_parse_key_code(raw@),
{
    let chars = str_chars(raw);
    parse_key_code_chars(&chars)
}

/// What one `+`-separated part of a binding does to the parse state: a
/// blank part is skipped, a modifier joins the pending modifiers, a key
/// token closes a press, and anything else fails the whole binding.
pub open spec fn part_step(part: Seq<char>, mods: Modifiers, acc: Seq<KeyPress>) -> Option<
    (Modifiers, Seq<KeyPress>),
> {
    let t = trim_spec(part);
    if t.len() == 0 {
        Some((mods, acc))
    } else if spec_parse_modifier(t) is Some {
        Some((mods.union_spec(spec_parse_modifier(t)->0), acc))
    } else if spec_parse_key_code(part) is Some {
        Some(
            (
                Modifiers::none_spec(),
                acc.push(KeyPress { code: spec_parse_key_code(part)->0, modifiers: mods }),
            ),
        )
    } else {
        None
    }
}

/// Scan a binding string character by character, splitting on `+`.
pub open spec fn parse_scan(
    s: Seq<char>,
    cur: Seq<char>,
    mods: Modifiers,
    acc: Seq<KeyPress>,
) -> Option<Seq<KeyPress>>
    decreases s.len(),
{
    if s.len() == 0 {
        match part_step(cur, mods, acc) {
            None => None,
            Some((m2, acc2)) => if acc2.len() == 0 {
                None
            } else {
                Some(acc2)
            },
        }
    } else if s.first() == '+' {
        match part_step(cur, mods, acc) {
            None => None,
            Some((m2, acc2)) => parse_scan(s.drop_first(), Seq::empty(), m2, acc2),
        }
    } else {
        parse_scan(s.drop_first(), cur.push(s.first()), mods, acc)
    }
}

/// The key sequence a binding string denotes, if it is well formed and
/// names at least one key.
pub open spec fn spec_parse_binding(raw: Seq<char>) -> Option<Seq<KeyPress>> {
    parse_scan(raw, Seq::empty(), Modifiers::none_spec(), Seq::empty())
}

/// A multi-key binding: the sequence of presses that triggers it.
#[derive(Clone, Debug)]
pub struct Binding {
    pub sequence: Vec<KeyPress>,
}

/// Run one part through the parse state: the executable `part_step`.
fn apply_part(cur: &Vec<char>, mods: Modifiers, sequence: &mut Vec<KeyPress>) -> (r: Option<
    Modifiers,
>)
    ensures
        (match r {
            Some(m2) => part_step(cur@, mods, old(sequence)@) == Some((m2, final(sequence)@)),
            None => part_step(cur@, mods, old(sequence)@) is None && final(sequence)@ == old(
                sequence,
            )@,
        }),
{
    let trimmed = trim_chars(cur);
    if trimmed.len() == 0 {
        return Some(mods);
    }
    match parse_modifier_chars(&trimmed) {
        Some(m) => Some(mods.union(m)),
        None => {
            match parse_key_code_chars(cur) {
                Some(code) => {
                    sequence.push(KeyPress { code, modifiers: mods });
                    Some(Modifiers::none())
                },
                None => None,
            }
        },
    }
}

/// Parse a whole binding: `+`-separated parts, where modifiers attach to
/// the key token that follows them.
pub fn parse_binding(raw: &str) -> (r: Option<Binding>)
    ensures
        (match r {
            Some(b) => spec_parse_binding(raw@) == Some(b.sequence@),
            None => spec_parse_binding(raw@) is None,
        }),
{
    let chars = str_chars(raw);
    let n = chars.len();
    let mut cur: Vec<char> = Vec::new();
    let mut mods = Modifiers::none();
    let mut sequence: Vec<KeyPress> = Vec::new();
    proof {
        assert(chars@.skip(0) =~= chars@);
    }
    let mut idx: usize = 0;
    while idx < n
        invariant
            n == chars@.len(),
            chars@ == raw@,
            0 <= idx <= n,
            spec_parse_binding(raw@) == parse_scan(
                chars@.skip(idx as int),
                cur@,
                mods,
                sequence@,
            ),
        decreases n - idx,
    {
        let c = chars[idx];
        proof {
            assert(chars@.skip(idx as int).first() == chars@[idx as int]);
            assert(chars@.skip(idx as int).drop_first() =~= chars@.skip(idx as int + 1));
        }
        if c == '+' {
            match apply_part(&cur, mods, &mut sequence) {
                Some(m2) => {
                    mods = m2;
                    cur = Vec::new();
                },
                None => {
                    return None;
                },
            }
        } else {
            cur.push(c);
        }
        idx = idx + 1;
    }
    proof {
        assert(chars@.skip(n as int) =~= Seq::<char>::empty());
    }
    match apply_part(&cur, mods, &mut sequence) {
        Some(_) => {
            if sequence.len() == 0 {
                None
            } else {
                Some(Binding { sequence })
            }
        },
        None => None,
    }
}

impl KeyPress {
    /// The modifiers an event must show for this press: for a plain
    /// character binding the event's Shift is ignored, since the shifted
    /// character itself already tells the two apart.
    pub open spec fn strip_shift_spec(self, event_mods: Modifiers) -> Modifiers {
        if self.code is Char && !self.modifiers.shift {
            Modifiers {
                ctrl: event_mods.ctrl,
                alt: event_mods.alt,
                shift: false,
                meta: event_mods.meta,
            }
        } else {
            event_mods
        }
    }

    /// Whether a key event is this press.
    pub fn matches(&self, code: KeyCode, modifiers: Modifiers) -> (r: bool)
        ensures
            r == (self.code == code && self.modifiers == self.strip_shift_spec(modifiers)),
    {
        if self.code != code {
            return false;
        }
        let mut ev = modifiers;
        if matches!(self.code, KeyCode::Char(_)) && !self.modifiers.shift {
            ev.shift = false;
        }
        self.modifiers == ev
    }
}

impl Binding {
    /// Number of presses in the sequence.
    pub fn len(&self) -> (n: usize)
        ensures
            n == self.sequence@.len(),
    {
        self.sequence.len()
    }

    /// Whether a key event matches the press at `index`.
    pub fn matches_at(&self, index: usize, code: KeyCode, modifiers: Modifiers) -> (r: bool)
        ensures
            r == (index < self.sequence@.len() && {
                let p = self.sequence@[index as int];
                p.code == code && p.modifiers == p.strip_shift_spec(modifiers)
            }),
    {
        if index < self.sequence.len() {
            self.sequence[index].matches(code, modifiers)
        } else {
            false
        }
    }
}

pub open spec fn digit_char(d: int) -> char {
    if d == 0 {
        '0'
    } else if d == 1 {
        '1'
    } else if d == 2 {
        '2'
    } else if d == 3 {
        '3'
    } else if d == 4 {
        '4'
    } else if d == 5 {
        '5'
    } else if d == 6 {
        '6'
    } else if d == 7 {
        '7'
    } else if d == 8 {
        '8'
    } else {
        '9'
    }
}

/// Decimal digits of a number up to 255, most significant first.
pub open spec fn dec_seq(n: int) -> Seq<char> {
    if n < 10 {
        seq![digit_char(n)]
    } else if n < 100 {
        seq![digit_char(n / 10), digit_char(n % 10)]
    } else {
        seq![digit_char(n / 100), digit_char((n / 10) % 10), digit_char(n % 10)]
    }
}

/// Human-readable name of a key code.
pub open spec fn code_label_spec(code: KeyCode) -> Seq<char> {
    match code {
        KeyCode::Char(ch) => if ch == ' ' {
            "Space"@
        } else {
            seq![ch]
        },
        KeyCode::F(n) => seq!['F'] + dec_seq(n as int),
        KeyCode::Esc => "Esc"@,
        KeyCode::Enter => "Enter"@,
        KeyCode::Backspace => "Backspace"@,
        KeyCode::Tab => "Tab"@,
        KeyCode::BackTab => "BackTab"@,
        KeyCode::Delete => "Delete"@,
        KeyCode::Insert => "Insert"@,
        KeyCode::Home => "Home"@,
        KeyCode::End => "End"@,
        KeyCode::PageUp => "PageUp"@,
        KeyCode::PageDown => "PageDown"@,
        KeyCode::Left => "←"@,
        KeyCode::Right => "→"@,
        KeyCode::Up => "↑"@,
        KeyCode::Down => "↓"@,
    }
}

fn digit_char_exec(d: u8) -> (c: char)
    requires
        d <= 9,
    ensures
        c == digit_char(d as int),
{
    match d {
        0 => '0',
        1 => '1',
        2 => '2',
        3 => '3',
        4 => '4',
        5 => '5',
        6 => '6',
        7 => '7',
        8 => '8',
        _ => '9',
    }
}

/// Map a key code to its human-readable label.
pub fn get_key_code_label(code: KeyCode) -> (r: String)
    ensures
        r@ == code_label_spec(code),
{
    match code {
        KeyCode::Char(ch) => {
            if ch == ' ' {
                "Space".to_owned()
            } else {
                let mut s = String::new();
                s.push(ch);
                proof {
                    assert(s@ =~= seq![ch]);
                }
                s
            }
        },
        KeyCode::F(n) => {
            let mut s = String::new();
            s.push('F');
            if n < 10 {
                s.push(digit_char_exec(n));
                proof {
                    assert(s@ =~= seq!['F'] + dec_seq(n as int));
                }
            } else if n < 100 {
                s.push(digit_char_exec(n / 10));
                s.push(digit_char_exec(n % 10));
                proof {
                    assert(s@ =~= seq!['F'] + dec_seq(n as int));
                }
            } else {
                s.push(digit_char_exec(n / 100));
                s.push(digit_char_exec((n / 10) % 10));
                s.push(digit_char_exec(n % 10));
                proof {
                    assert(s@ =~= seq!['F'] + dec_seq(n as int));
                }
            }
            s
        },
        KeyCode::Esc => "Esc".to_owned(),
        KeyCode::Enter => "Enter".to_owned(),
        KeyCode::Backspace => "Backspace".to_owned(),
        KeyCode::Tab => "Tab".to_owned(),
        KeyCode::BackTab => "BackTab".to_owned(),
        KeyCode::Delete => "Delete".to_owned(),
        KeyCode::Insert => "Insert".to_owned(),
        KeyCode::Home => "Home".to_owned(),
        KeyCode::End => "End".to_owned(),
        KeyCode::PageUp => "PageUp".to_owned(),
        KeyCode::PageDown => "PageDown".to_owned(),
        KeyCode::Left => "←".to_owned(),
        KeyCode::Right => "→".to_owned(),
        KeyCode::Up => "↑".to_owned(),
        KeyCode::Down => "↓".to_owned(),
    }
}

/// Label of one press: its modifiers, each with a `+`, then the key.
pub open spec fn press_label_spec(p: KeyPress) -> Seq<char> {
    (if p.modifiers.ctrl {
        "Ctrl+"@
    } else {
        Seq::empty()
    }) + (if p.modifiers.alt {
        "Alt+"@
    } else {
        Seq::empty()
    }) + (if p.modifiers.meta {
        "Meta+"@
    } else {
        Seq::empty()
    }) + (if p.modifiers.shift {
        "Shift+"@
    } else {
        Seq::empty()
    }) + code_label_spec(p.code)
}

impl KeyPress {
    /// Human-readable label of the press.
    pub fn label(&self) -> (r: String)
        ensures
            r@ == press_label_spec(*self),
    {
        let mut s = String::new();
        if self.modifiers.ctrl {
            s.push_str("Ctrl+");
        }
        if self.modifiers.alt {
            s.push_str("Alt+");
        }
        if self.modifiers.meta {
            s.push_str("Meta+");
        }
        if self.modifiers.shift {
            s.push_str("Shift+");
        }
        let code = get_key_code_label(self.code);
        s.push_str(code.as_str());
        proof {
            assert(s@ =~= press_label_spec(*self));
        }
        s
    }
}

/// Label of a whole binding: its presses joined with spaces.
pub open spec fn binding_label_spec(s: Seq<KeyPress>) -> Seq<char>
    decreases s.len(),
{
    if s.len() == 0 {
        Seq::empty()
    } else if s.len() == 1 {
        press_label_spec(s[0])
    } else {
        binding_label_spec(s.drop_last()) + seq![' '] + press_label_spec(s.last())
    }
}

impl Binding {
    /// Human-readable label of the binding.
    pub fn label(&self) -> (r: String)
        ensures
            r@ == binding_label_spec(self.sequence@),
    {
        let mut s = String::new();
        let mut i: usize = 0;
        while i < self.sequence.len()
            invariant
                0 <= i <= self.sequence@.len(),
                s@ == binding_label_spec(self.sequence@.take(i as int)),
            decreases self.sequence@.len() - i,
        {
            if i > 0 {
                s.push(' ');
            }
            let p = self.sequence[i].label();
            s.push_str(p.as_str());
            proof {
                assert(self.sequence@.take(i as int + 1).drop_last() =~= self.sequence@.take(
                    i as int,
                ));
                assert(self.sequence@.take(i as int + 1).last() == self.sequence@[i as int]);
                if i == 0 {
                    assert(s@ =~= binding_label_spec(self.sequence@.take(i as int + 1)));
                } else {
                    assert(s@ =~= binding_label_spec(self.sequence@.take(i as int + 1)));
                }
            }
            i = i + 1;
        }
        proof {
            assert(self.sequence@.take(self.sequence@.len() as int) =~= self.sequence@);
        }
        s
    }
}

/// Binding tokens read from a configuration file, one optional list per
/// action; a missing list falls back to the built-in keys.
#[derive(Debug)]
pub struct KeyBindingConfig {
    pub quit: Option<Vec<String>>,
    pub move_left: Option<Vec<String>>,
    pub move_right: Option<Vec<String>>,
    pub move_up: Option<Vec<String>>,
    pub move_down: Option<Vec<String>>,
    pub prev_month: Option<Vec<String>>,
    pub next_month: Option<Vec<String>>,
    pub prev_year: Option<Vec<String>>,
    pub next_year: Option<Vec<String>>,
    pub back_to_today: Option<Vec<String>>,
    pub open_jump_prompt: Option<Vec<String>>,
}

impl Default for KeyBindingConfig {
    /// The empty configuration: every action on its built-in keys.
    fn default() -> (r: KeyBindingConfig)
        ensures
            r.quit is None,
            r.move_left is None,
            r.move_right is None,
            r.move_up is None,
            r.move_down is None,
            r.prev_month is None,
            r.next_month is None,
            r.prev_year is None,
            r.next_year is None,
            r.back_to_today is None,
            r.open_jump_prompt is None,
    {
        KeyBindingConfig {
            quit: None,
            move_left: None,
            move_right: None,
            move_up: None,
            move_down: None,
            prev_month: None,
            next_month: None,
            prev_year: None,
            next_year: None,
            back_to_today: None,
            open_jump_prompt: None,
        }
    }
}

/// The empty configuration as a value.
pub open spec fn default_config_spec() -> KeyBindingConfig {
    KeyBindingConfig {
        quit: None,
        move_left: None,
        move_right: None,
        move_up: None,
        move_down: None,
        prev_month: None,
        next_month: None,
        prev_year: None,
        next_year: None,
        back_to_today: None,
        open_jump_prompt: None,
    }
}

/// A configuration file's shape: the binding lists either at top level
/// or under a `bindings` field.
#[derive(Debug)]
pub enum ConfigFile {
    Direct(KeyBindingConfig),
    Wrapped { bindings: KeyBindingConfig },
}

impl ConfigFile {
    /// The binding lists, whichever way the file wrapped them.
    pub fn into_inner(self) -> (r: KeyBindingConfig)
        ensures
            r == (match self {
                ConfigFile::Direct(inner) => inner,
                ConfigFile::Wrapped { bindings } => bindings,
            }),
    {
        match self {
            ConfigFile::Direct(inner) => inner,
            ConfigFile::Wrapped { bindings } => bindings,
        }
    }
}

/// The bindings a token list contributes for one action, in order,
/// unparsable tokens dropped.
pub open spec fn spec_bind_tokens(tokens: Seq<Seq<char>>, a: Action) -> Seq<(Seq<KeyPress>, Action)>
    decreases tokens.len(),
{
    if tokens.len() == 0 {
        Seq::empty()
    } else {
        spec_bind_tokens(tokens.drop_last(), a) + (match spec_parse_binding(tokens.last()) {
            Some(s) => seq![(s, a)],
            None => Seq::<(Seq<KeyPress>, Action)>::empty(),
        })
    }
}

/// The token list an action uses: the configured one, else the fallback.
pub open spec fn chosen_tokens(entries: Option<Vec<String>>, fallback: Seq<Seq<char>>) -> Seq<
    Seq<char>,
> {
    match entries {
        Some(v) => v.deep_view(),
        None => fallback,
    }
}

pub open spec fn fb_quit() -> Seq<Seq<char>> {
    seq!["Esc"@, "q"@, "Q"@]
}

pub open spec fn fb_move_left() -> Seq<Seq<char>> {
    seq!["h"@, "H"@]
}

pub open spec fn fb_move_right() -> Seq<Seq<char>> {
    seq!["l"@, "L"@]
}

pub open spec fn fb_move_up() -> Seq<Seq<char>> {
    seq!["k"@, "K"@]
}

pub open spec fn fb_move_down() -> Seq<Seq<char>> {
    seq!["j"@, "J"@]
}

pub open spec fn fb_prev_month() -> Seq<Seq<char>> {
    seq!["Left"@]
}

pub open spec fn fb_next_month() -> Seq<Seq<char>> {
    seq!["Right"@]
}

pub open spec fn fb_prev_year() -> Seq<Seq<char>> {
    seq!["Up"@]
}

pub open spec fn fb_next_year() -> Seq<Seq<char>> {
    seq!["Down"@]
}

pub open spec fn fb_back_to_today() -> Seq<Seq<char>> {
    seq!["t"@, "T"@]
}

pub open spec fn fb_open_jump_prompt() -> Seq<Seq<char>> {
    seq!["g+d"@]
}

/// The full binding table a configuration denotes: the actions' segments
/// in a fixed order.
pub open spec fn spec_config_bindings(c: KeyBindingConfig) -> Seq<(Seq<KeyPress>, Action)> {
    spec_bind_tokens(chosen_tokens(c.quit, fb_quit()), Action::Quit) + spec_bind_tokens(
        chosen_tokens(c.move_left, fb_move_left()),
        Action::MoveLeft,
    ) + spec_bind_tokens(chosen_tokens(c.move_right, fb_move_right()), Action::MoveRight)
        + spec_bind_tokens(chosen_tokens(c.move_up, fb_move_up()), Action::MoveUp)
        + spec_bind_tokens(chosen_tokens(c.move_down, fb_move_down()), Action::MoveDown)
        + spec_bind_tokens(chosen_tokens(c.prev_month, fb_prev_month()), Action::PrevMonth)
        + spec_bind_tokens(chosen_tokens(c.next_month, fb_next_month()), Action::NextMonth)
        + spec_bind_tokens(chosen_tokens(c.prev_year, fb_prev_year()), Action::PrevYear)
        + spec_bind_tokens(chosen_tokens(c.next_year, fb_next_year()), Action::NextYear)
        + spec_bind_tokens(chosen_tokens(c.back_to_today, fb_back_to_today()), Action::BackToToday)
        + spec_bind_tokens(
        chosen_tokens(c.open_jump_prompt, fb_open_jump_prompt()),
        Action::OpenJumpPrompt,
    )
}

/// View of an exec binding list as plain sequences.
pub open spec fn bindings_view(bs: Seq<(Binding, Action)>) -> Seq<(Seq<KeyPress>, Action)> {
    bs.map_values(|p: (Binding, Action)| (p.0.sequence@, p.1))
}

/// Append one action's bindings: each parsable token of the chosen list,
/// in order.
fn bind_action(
    bindings: &mut Vec<(Binding, Action)>,
    action: Action,
    entries: &Option<Vec<String>>,
    fallback: &Vec<&'static str>,
)
    ensures
        bindings_view(final(bindings)@) == bindings_view(old(bindings)@) + spec_bind_tokens(
            chosen_tokens(*entries, fallback.deep_view()),
            action,
        ),
{
    let ghost toks = chosen_tokens(*entries, fallback.deep_view());
    let ghost start = bindings@;
    match entries {
        Some(tokens) => {
            let mut i: usize = 0;
            while i < tokens.len()
                invariant
                    0 <= i <= tokens@.len(),
                    toks == tokens.deep_view(),
                    toks.len() == tokens@.len(),
                    bindings_view(bindings@) == bindings_view(start) + spec_bind_tokens(
                        toks.take(i as int),
                        action,
                    ),
                decreases tokens@.len() - i,
            {
                proof {
                    assert(toks[i as int] == tokens@[i as int]@);
                    assert(toks.take(i as int + 1).drop_last() =~= toks.take(i as int));
                    assert(toks.take(i as int + 1).last() == toks[i as int]);
                }
                match parse_binding(tokens[i].as_str()) {
                    Some(b) => {
                        let ghost before = bindings@;
                        bindings.push((b, action));
                        proof {
                            assert(bindings_view(bindings@) =~= bindings_view(before).push(
                                (b.sequence@, action),
                            ));
                            assert(bindings_view(bindings@) =~= bindings_view(start)
                                + spec_bind_tokens(toks.take(i as int + 1), action));
                        }
                    },
                    None => {
                        proof {
                            assert(spec_bind_tokens(toks.take(i as int + 1), action)
                                =~= spec_bind_tokens(toks.take(i as int), action));
                        }
                    },
                }
                i = i + 1;
            }
            proof {
                assert(toks.take(toks.len() as int) =~= toks);
            }
        },
        None => {
            let mut i: usize = 0;
            while i < fallback.len()
                invariant
                    0 <= i <= fallback@.len(),
                    toks == fallback.deep_view(),
                    toks.len() == fallback@.len(),
                    bindings_view(bindings@) == bindings_view(start) + spec_bind_tokens(
                        toks.take(i as int),
                        action,
                    ),
                decreases fallback@.len() - i,
            {
                proof {
                    assert(toks[i as int] == fallback@[i as int]@);
                    assert(toks.take(i as int + 1).drop_last() =~= toks.take(i as int));
                    assert(toks.take(i as int + 1).last() == toks[i as int]);
                }
                match parse_binding(fallback[i]) {
                    Some(b) => {
                        let ghost before = bindings@;
                        bindings.push((b, action));
                        proof {
                            assert(bindings_view(bindings@) =~= bindings_view(before).push(
                                (b.sequence@, action),
                            ));
                            assert(bindings_view(bindings@) =~= bindings_view(start)
                                + spec_bind_tokens(toks.take(i as int + 1), action));
                        }
                    },
                    None => {
                        proof {
                            assert(spec_bind_tokens(toks.take(i as int + 1), action)
                                =~= spec_bind_tokens(toks.take(i as int), action));
                        }
                    },
                }
                i = i + 1;
            }
            proof {
                assert(toks.take(toks.len() as int) =~= toks);
            }
        },
    }
}

/// The bindings in force: pairs of a key sequence and its action, in
/// priority order.
#[derive(Clone, Debug)]
pub struct KeyBindings {
    pub bindings: Vec<(Binding, Action)>,
}

impl KeyBindings {
    /// Build the binding table from a configuration.
    pub fn from_config(config: KeyBindingConfig) -> (r: KeyBindings)
        ensures
            bindings_view(r.bindings@) == spec_config_bindings(config),
    {
        let mut bindings: Vec<(Binding, Action)> = Vec::new();
        let fb_q: Vec<&'static str> = vec!["Esc", "q", "Q"];
        let fb_ml: Vec<&'static str> = vec!["h", "H"];
        let fb_mr: Vec<&'static str> = vec!["l", "L"];
        let fb_mu: Vec<&'static str> = vec!["k", "K"];
        let fb_md: Vec<&'static str> = vec!["j", "J"];
        let fb_pm: Vec<&'static str> = vec!["Left"];
        let fb_nm: Vec<&'static str> = vec!["Right"];
        let fb_py: Vec<&'static str> = vec!["Up"];
        let fb_ny: Vec<&'static str> = vec!["Down"];
        let fb_bt: Vec<&'static str> = vec!["t", "T"];
        let fb_oj: Vec<&'static str> = vec!["g+d"];
        proof {
            assert(fb_q.deep_view() =~~= fb_quit());
            assert(fb_ml.deep_view() =~~= fb_move_left());
            assert(fb_mr.deep_view() =~~= fb_move_right());
            assert(fb_mu.deep_view() =~~= fb_move_up());
            assert(fb_md.deep_view() =~~= fb_move_down());
            assert(fb_pm.deep_view() =~~= fb_prev_month());
            assert(fb_nm.deep_view() =~~= fb_next_month());
            assert(fb_py.deep_view() =~~= fb_prev_year());
            assert(fb_ny.deep_view() =~~= fb_next_year());
            assert(fb_bt.deep_view() =~~= fb_back_to_today());
            assert(fb_oj.deep_view() =~~= fb_open_jump_prompt());
        }
        bind_action(&mut bindings, Action::Quit, &config.quit, &fb_q);
        bind_action(&mut bindings, Action::MoveLeft, &config.move_left, &fb_ml);
        bind_action(&mut bindings, Action::MoveRight, &config.move_right, &fb_mr);
        bind_action(&mut bindings, Action::MoveUp, &config.move_up, &fb_mu);
        bind_action(&mut bindings, Action::MoveDown, &config.move_down, &fb_md);
        bind_action(&mut bindings, Action::PrevMonth, &config.prev_month, &fb_pm);
        bind_action(&mut bindings, Action::NextMonth, &config.next_month, &fb_nm);
        bind_action(&mut bindings, Action::PrevYear, &config.prev_year, &fb_py);
        bind_action(&mut bindings, Action::NextYear, &config.next_year, &fb_ny);
        bind_action(&mut bindings, Action::BackToToday, &config.back_to_today, &fb_bt);
        bind_action(&mut bindings, Action::OpenJumpPrompt, &config.open_jump_prompt, &fb_oj);
        proof {
            assert(bindings_view(bindings@) =~= spec_config_bindings(config));
        }
        KeyBindings { bindings }
    }

    /// Labels of the bindings of one action, in binding order.
    pub fn labels_for(&self, action: Action) -> (r: Vec<String>)
        ensures
            r.deep_view() == action_labels(bindings_view(self.bindings@), action),
    {
        let mut r: Vec<String> = Vec::new();
        let mut i: usize = 0;
        while i < self.bindings.len()
            invariant
                0 <= i <= self.bindings@.len(),
                r.deep_view() == action_labels(
                    bindings_view(self.bindings@.take(i as int)),
                    action,
                ),
            decreases self.bindings@.len() - i,
        {
            let ghost bv = bindings_view(self.bindings@.take(i as int + 1));
            proof {
                assert(bv.drop_last() =~= bindings_view(self.bindings@.take(i as int)));
                assert(bv.last() == (self.bindings@[i as int].0.sequence@,
                self.bindings@[i as int].1));
            }
            let pair = &self.bindings[i];
            if pair.1 == action {
                let label = pair.0.label();
                let ghost before = r.deep_view();
                r.push(label);
                proof {
                    assert(r.deep_view() =~~= before.push(label@));
                    assert(r.deep_view() =~~= action_labels(bv, action));
                }
            } else {
                proof {
                    assert(r.deep_view() =~~= action_labels(bv, action));
                }
            }
            i = i + 1;
        }
        proof {
            assert(self.bindings@.take(self.bindings@.len() as int) =~= self.bindings@);
        }
        r
    }
}

impl Default for KeyBindings {
    /// The built-in binding table.
    fn default() -> (r: KeyBindings)
        ensures
            bindings_view(r.bindings@) == spec_config_bindings(default_config_spec()),
    {
        let config = KeyBindingConfig::default();
        proof {
            assert(config == default_config_spec());
        }
        KeyBindings::from_config(config)
    }
}

/// Labels of the bindings tagged with one action, in order.
pub open spec fn action_labels(s: Seq<(Seq<KeyPress>, Action)>, a: Action) -> Seq<Seq<char>>
    decreases s.len(),
{
    if s.len() == 0 {
        Seq::empty()
    } else {
        action_labels(s.drop_last(), a) + (if s.last().1 == a {
            seq![binding_label_spec(s.last().0)]
        } else {
            Seq::<Seq<char>>::empty()
        })
    }
}

/// Progress through the multi-key bindings: which bindings have a prefix
/// of presses already seen, and how long that prefix is.
pub struct BindingResolver {
    pub pending: Vec<(usize, usize)>,
}

/// Whether a key event is press `p`.
pub open spec fn press_match_spec(p: KeyPress, code: KeyCode, mods: Modifiers) -> bool {
    p.code == code && p.modifiers == p.strip_shift_spec(mods)
}

/// Whether pending entry `e` names a real binding whose next press is
/// the event.
pub open spec fn entry_matches(
    bs: Seq<(Binding, Action)>,
    e: (usize, usize),
    code: KeyCode,
    mods: Modifiers,
) -> bool {
    e.0 < bs.len() && e.1 < bs[e.0 as int].0.sequence@.len() && press_match_spec(
        bs[e.0 as int].0.sequence@[e.1 as int],
        code,
        mods,
    )
}

/// Whether the event finishes the sequence entry `e` points into.
pub open spec fn entry_completes(
    bs: Seq<(Binding, Action)>,
    e: (usize, usize),
    code: KeyCode,
    mods: Modifiers,
) -> bool {
    entry_matches(bs, e, code, mods) && e.1 + 1 == bs[e.0 as int].0.sequence@.len()
}

/// The action of the first pending entry the event completes.
pub open spec fn find_completion(
    pending: Seq<(usize, usize)>,
    bs: Seq<(Binding, Action)>,
    code: KeyCode,
    mods: Modifiers,
) -> Option<Action>
    decreases pending.len(),
{
    if pending.len() == 0 {
        None
    } else if entry_completes(bs, pending.first(), code, mods) {
        Some(bs[pending.first().0 as int].1)
    } else {
        find_completion(pending.drop_first(), bs, code, mods)
    }
}

/// The pending entries the event advances without completing, advanced.
pub open spec fn advanced_entries(
    pending: Seq<(usize, usize)>,
    bs: Seq<(Binding, Action)>,
    code: KeyCode,
    mods: Modifiers,
) -> Seq<(usize, usize)>
    decreases pending.len(),
{
    if pending.len() == 0 {
        Seq::empty()
    } else {
        advanced_entries(pending.drop_last(), bs, code, mods) + (if entry_matches(
            bs,
            pending.last(),
            code,
            mods,
        ) && !entry_completes(bs, pending.last(), code, mods) {
            seq![(pending.last().0, (pending.last().1 + 1) as usize)]
        } else {
            Seq::<(usize, usize)>::empty()
        })
    }
}

/// The action of the first binding from `k` on that the event completes
/// in one press.
pub open spec fn find_fresh(
    bs: Seq<(Binding, Action)>,
    k: int,
    code: KeyCode,
    mods: Modifiers,
) -> Option<Action>
    decreases bs.len() - k,
{
    if k < 0 || k >= bs.len() {
        None
    } else if bs[k].0.sequence@.len() == 1 && press_match_spec(bs[k].0.sequence@[0], code, mods) {
        Some(bs[k].1)
    } else {
        find_fresh(bs, k + 1, code, mods)
    }
}

/// The fresh starts among the first `k` bindings: multi-key sequences
/// whose first press is the event.
pub open spec fn fresh_entries(
    bs: Seq<(Binding, Action)>,
    k: int,
    code: KeyCode,
    mods: Modifiers,
) -> Seq<(usize, usize)>
    decreases k,
{
    if k <= 0 {
        Seq::empty()
    } else {
        fresh_entries(bs, k - 1, code, mods) + (if k - 1 < bs.len() && bs[k - 1].0.sequence@.len()
            > 1 && press_match_spec(bs[k - 1].0.sequence@[0], code, mods) {
            seq![((k - 1) as usize, 1usize)]
        } else {
            Seq::<(usize, usize)>::empty()
        })
    }
}

/// Every pending entry points into the binding list, strictly inside its
/// sequence.
pub open spec fn pending_wf(pending: Seq<(usize, usize)>, bs: Seq<(Binding, Action)>) -> bool {
    forall|k: int|
        0 <= k < pending.len() ==> (#[trigger] pending[k]).0 < bs.len() && 1 <= pending[k].1
            < bs[pending[k].0 as int].0.sequence@.len()
}

impl Default for BindingResolver {
    /// A resolver with no sequence in progress.
    fn default() -> (r: BindingResolver)
        ensures
            r.pending@.len() == 0,
    {
        BindingResolver { pending: Vec::new() }
    }
}

impl BindingResolver {
    /// Feed one key event through the bindings. Sequences in progress
    /// advance first: the first one the event completes fires its action
    /// and clears all progress. Otherwise the first single-key binding
    /// the event matches fires. Otherwise the surviving progress and the
    /// fresh starts of multi-key bindings become the new progress.
    pub fn process(&mut self, bindings: &KeyBindings, code: KeyCode, modifiers: Modifiers) -> (r:
        Option<Action>)
        ensures
            pending_wf(final(self).pending@, bindings.bindings@),
            ({
                let pre = old(self).pending@;
                let bs = bindings.bindings@;
                match find_completion(pre, bs, code, modifiers) {
                    Some(a) => r == Some(a) && final(self).pending@ == Seq::<(
                        usize,
                        usize,
                    )>::empty(),
                    None => (match find_fresh(bs, 0, code, modifiers) {
                        Some(a) => r == Some(a) && final(self).pending@ == Seq::<(
                            usize,
                            usize,
                        )>::empty(),
                        None => r is None && final(self).pending@ == advanced_entries(
                            pre,
                            bs,
                            code,
                            modifiers,
                        ) + fresh_entries(bs, bs.len() as int, code, modifiers),
                    }),
                }
            }),
    {
        let ghost pre = old(self).pending@;
        let ghost bs = bindings.bindings@;
        let mut new_pending: Vec<(usize, usize)> = Vec::new();
        proof {
            assert(pre.skip(0) =~= pre);
            assert(pre.take(0) =~= Seq::<(usize, usize)>::empty());
        }
        let mut i: usize = 0;
        while i < self.pending.len()
            invariant
                0 <= i <= pre.len(),
                pre == old(self).pending@,
                self.pending@ == pre,
                bs == bindings.bindings@,
                find_completion(pre, bs, code, modifiers) == find_completion(
                    pre.skip(i as int),
                    bs,
                    code,
                    modifiers,
                ),
                new_pending@ == advanced_entries(pre.take(i as int), bs, code, modifiers),
                pending_wf(new_pending@, bs),
            decreases pre.len() - i,
        {
            let (idx, progress) = self.pending[i];
            proof {
                assert(pre.skip(i as int).first() == pre[i as int]);
                assert(pre.skip(i as int).drop_first() =~= pre.skip(i as int + 1));
                assert(pre.take(i as int + 1).drop_last() =~= pre.take(i as int));
                assert(pre.take(i as int + 1).last() == pre[i as int]);
            }
            if idx < bindings.bindings.len() {
                let pair = &bindings.bindings[idx];
                if pair.0.matches_at(progress, code, modifiers) {
                    let blen = pair.0.len();
                    let next = progress + 1;
                    if next == blen {
                        let action = pair.1;
                        proof {
                            assert(entry_completes(bs, pre[i as int], code, modifiers));
                            assert(find_completion(pre, bs, code, modifiers) == Some(action));
                        }
                        self.pending = Vec::new();
                        proof {
                            assert(self.pending@ =~= Seq::<(usize, usize)>::empty());
                            assert(find_completion(pre, bs, code, modifiers) == Some(action));
                        }
                        return Some(action);
                    }
                    proof {
                        assert(entry_matches(bs, pre[i as int], code, modifiers));
                        assert(!entry_completes(bs, pre[i as int], code, modifiers));
                    }
                    new_pending.push((idx, next));
                    proof {
                        assert(new_pending@ =~= advanced_entries(
                            pre.take(i as int + 1),
                            bs,
                            code,
                            modifiers,
                        ));
                    }
                } else {
                    proof {
                        assert(!entry_matches(bs, pre[i as int], code, modifiers));
                        assert(new_pending@ =~= advanced_entries(
                            pre.take(i as int + 1),
                            bs,
                            code,
                            modifiers,
                        ));
                    }
                }
            } else {
                proof {
                    assert(!entry_matches(bs, pre[i as int], code, modifiers));
                    assert(new_pending@ =~= advanced_entries(
                        pre.take(i as int + 1),
                        bs,
                        code,
                        modifiers,
                    ));
                }
            }
            i = i + 1;
        }
        proof {
            assert(pre.skip(pre.len() as int) =~= Seq::<(usize, usize)>::empty());
            assert(pre.take(pre.len() as int) =~= pre);
        }
        let mut k: usize = 0;
        while k < bindings.bindings.len()
            invariant
                0 <= k <= bs.len(),
                pre == old(self).pending@,
                self.pending@ == pre,
                bs == bindings.bindings@,
                find_completion(pre, bs, code, modifiers) is None,
                find_fresh(bs, 0, code, modifiers) == find_fresh(bs, k as int, code, modifiers),
                new_pending@ == advanced_entries(pre, bs, code, modifiers) + fresh_entries(
                    bs,
                    k as int,
                    code,
                    modifiers,
                ),
                pending_wf(new_pending@, bs),
            decreases bs.len() - k,
        {
            let pair = &bindings.bindings[k];
            if pair.0.matches_at(0, code, modifiers) {
                if pair.0.len() == 1 {
                    let action = pair.1;
                    proof {
                        assert(find_fresh(bs, k as int, code, modifiers) == Some(action));
                    }
                    self.pending = Vec::new();
                    proof {
                        assert(self.pending@ =~= Seq::<(usize, usize)>::empty());
                    }
                    return Some(action);
                }
                new_pending.push((k, 1));
                proof {
                    assert(new_pending@ =~= advanced_entries(pre, bs, code, modifiers)
                        + fresh_entries(bs, k as int + 1, code, modifiers));
                }
            } else {
                proof {
                    assert(new_pending@ =~= advanced_entries(pre, bs, code, modifiers)
                        + fresh_entries(bs, k as int + 1, code, modifiers));
                }
            }
            k = k + 1;
        }
        self.pending = new_pending;
        None
    }
}

} // verus!
