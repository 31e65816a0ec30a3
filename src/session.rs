//! The decisions of an interactive session, from keypresses to actions.
//!
//! The session loop itself reads keys and draws; every choice it makes on
//! what a key means is taken here.
use vstd::prelude::*;
use crate::cursor::Level;
use crate::grade::Grade;
use crate::key::{ESC, Key, printable_utf8};
use crate::print::{Row, rows_view};
use crate::text::char_string;
use crate::uni_info::UniInfo;

verus! {

/// What a key asks of the main loop.
#[derive(Clone, Copy, Debug, PartialEq, Eq, Structural)]
pub enum Command {
    /// Edit the targeted entry.
    Edit,
    /// Edit the targeted entry, then move to the next one.
    EditThenDown,
    /// Add an entry below the cursor's level.
    Add,
    /// Delete the targeted entry, once confirmed.
    Delete,
    /// Move the cursor one level shallower.
    Exit,
    /// Move the cursor to the next entry.
    Down,
    /// Move the cursor to the previous entry.
    Up,
    /// Move the cursor one level deeper.
    Enter,
    /// Scroll the view one row down.
    ScrollDown,
    /// Scroll the view one row up.
    ScrollUp,
    /// Leave the loop.
    Quit,
    /// Nothing.
    Ignore,
}

/// The command of a key pressed as the bytes `p`: letters (`a`dd, `d`elete,
/// `e`dit, `hjkl` to move, `q`uit), space, enter, the arrows, escape, and
/// Ctrl-E / Ctrl-Y to scroll.
pub open spec fn command_spec(p: Seq<u8>) -> Command {
    if p.len() == 1 && 32 <= p[0] <= 126 {
        let c = p[0];
        if c == 32 {
            Command::EditThenDown
        } else if c == 97 {
            Command::Add
        } else if c == 100 {
            Command::Delete
        } else if c == 101 {
            Command::Edit
        } else if c == 104 {
            Command::Exit
        } else if c == 106 {
            Command::Down
        } else if c == 107 {
            Command::Up
        } else if c == 108 {
            Command::Enter
        } else if c == 113 {
            Command::Quit
        } else {
            Command::Ignore
        }
    } else if p == seq![13u8] {
        Command::Edit
    } else if p == seq![ESC, 91u8, 68u8] {
        Command::Exit
    } else if p == seq![ESC, 91u8, 66u8] {
        Command::Down
    } else if p == seq![ESC, 91u8, 65u8] {
        Command::Up
    } else if p == seq![ESC, 91u8, 67u8] {
        Command::Enter
    } else if p == seq![5u8] {
        Command::ScrollDown
    } else if p == seq![25u8] {
        Command::ScrollUp
    } else if p == seq![ESC] {
        Command::Quit
    } else {
        Command::Ignore
    }
}

/// What the last key asks of the main loop.
pub fn command_of(key: &Key) -> (r: Command)
    ensures
        r == command_spec(key.pressed()),
{
    match key.as_printable_ascii() {
        Some(c) => {
            if c == ' ' {
                Command::EditThenDown
            } else if c == 'a' {
                Command::Add
            } else if c == 'd' {
                Command::Delete
            } else if c == 'e' {
                Command::Edit
            } else if c == 'h' {
                Command::Exit
            } else if c == 'j' {
                Command::Down
            } else if c == 'k' {
                Command::Up
            } else if c == 'l' {
                Command::Enter
            } else if c == 'q' {
                Command::Quit
            } else {
                Command::Ignore
            }
        },
        None => {
            if key.is_enter() {
                Command::Edit
            } else if key.is_left() {
                Command::Exit
            } else if key.is_down() {
                Command::Down
            } else if key.is_up() {
                Command::Up
            } else if key.is_right() {
                Command::Enter
            } else if key.is_ctrl_e() {
                Command::ScrollDown
            } else if key.is_ctrl_y() {
                Command::ScrollUp
            } else if key.is_esc() {
                Command::Quit
            } else {
                Command::Ignore
            }
        },
    }
}

/// The grade that one key of the grade menu picks: `3`, `4` or `5` a mark,
/// `p` a pass, `f` a fail, `o` ongoing; any other key picks none.
pub open spec fn grade_choice(p: Seq<u8>) -> Option<Grade> {
    if p.len() == 1 && 51 <= p[0] <= 53 {
        Some(Grade::Grade((p[0] - 48) as u8))
    } else if p.len() == 1 && p[0] == 112 {
        Some(Grade::Completed(true))
    } else if p.len() == 1 && p[0] == 102 {
        Some(Grade::Completed(false))
    } else if p.len() == 1 && p[0] == 111 {
        Some(Grade::Ongoing)
    } else {
        None
    }
}

/// The grade that the last key picks from the grade menu, if any; `None`
/// abandons the add or edit that asked for it.
pub fn construct_grade(key: &Key) -> (r: Option<Grade>)
    ensures
        r == grade_choice(key.pressed()),
{
    match key.as_printable_ascii() {
        Some(c) => {
            if c == '3' {
                Some(Grade::Grade(3))
            } else if c == '4' {
                Some(Grade::Grade(4))
            } else if c == '5' {
                Some(Grade::Grade(5))
            } else if c == 'p' {
                Some(Grade::Completed(true))
            } else if c == 'f' {
                Some(Grade::Completed(false))
            } else if c == 'o' {
                Some(Grade::Ongoing)
            } else {
                None
            }
        },
        None => None,
    }
}

/// The answer to a yes/no prompt: `y` or `Y` yes, `n` or `N` no, anything
/// else no answer, after which the prompt reads again.
pub open spec fn confirm_choice(p: Seq<u8>) -> Option<bool> {
    if p.len() == 1 && (p[0] == 121 || p[0] == 89) {
        Some(true)
    } else if p.len() == 1 && (p[0] == 110 || p[0] == 78) {
        Some(false)
    } else {
        None
    }
}

/// The answer that the last key gives to a yes/no prompt, if it is one.
pub fn read_confirm(key: &Key) -> (r: Option<bool>)
    ensures
        r == confirm_choice(key.pressed()),
{
    match key.as_printable_ascii() {
        Some(c) => {
            if c == 'y' || c == 'Y' {
                Some(true)
            } else if c == 'n' || c == 'N' {
                Some(false)
            } else {
                None
            }
        },
        None => None,
    }
}

/// What a key did to a line being typed.
#[derive(Clone, Copy, Debug, PartialEq, Eq, Structural)]
pub enum LineEvent {
    /// The character was added at the end; echo it.
    Typed(char),
    /// The last character was erased; erase it on screen.
    Erased,
    /// Enter: the line is done.
    Finished,
    /// Nothing changed.
    Unchanged,
}

/// Applies one key to a line being typed: a printable character is added,
/// backspace erases the last character if there is one, enter finishes.
pub fn edit_line(line: &mut Vec<char>, key: &Key) -> (r: LineEvent)
    ensures
        printable_utf8(key.pressed()) matches Some(c) ==> r == LineEvent::Typed(c) && final(line)@ == old(line)@.push(c),
        printable_utf8(key.pressed()) is None ==> {
            if key.pressed() == seq![8u8] || key.pressed() == seq![127u8] {
                if old(line)@.len() > 0 {
                    r == LineEvent::Erased && final(line)@ == old(line)@.drop_last()
                } else {
                    r == LineEvent::Unchanged && final(line)@ == old(line)@
                }
            } else if key.pressed() == seq![13u8] {
                r == LineEvent::Finished && final(line)@ == old(line)@
            } else {
                r == LineEvent::Unchanged && final(line)@ == old(line)@
            }
        },
{
    match key.as_printable_utf8() {
        Some(c) => {
            line.push(c);
            LineEvent::Typed(c)
        },
        None => {
            if key.is_backspace() {
                match line.pop() {
                    Some(_) => LineEvent::Erased,
                    None => LineEvent::Unchanged,
                }
            } else if key.is_enter() {
                LineEvent::Finished
            } else {
                LineEvent::Unchanged
            }
        },
    }
}

/// The typed characters as a string.
pub fn line_text(line: &Vec<char>) -> (r: String)
    ensures
        r@ == line@,
{
    let mut s = String::new();
    let mut i: usize = 0;
    while i < line.len()
        invariant
            i <= line@.len(),
            s@ == line@.take(i as int),
        decreases line.len() - i,
    {
        s.append(char_string(line[i]).as_str());
        assert(s@ =~= line@.take(i + 1));
        i = i + 1;
    }
    assert(line@.take(i as int) =~= line@);
    s
}

/// The key hint shown for each level; the period level allows neither
/// adding nor deleting.
pub open spec fn hint(level: Level) -> Seq<char> {
    match level {
        Level::Semester => HINT_SEMESTER@,
        Level::Period => HINT_PERIOD@,
        Level::Course => HINT_COURSE@,
        Level::Moment => HINT_MOMENT@,
        Level::Task => HINT_TASK@,
    }
}

/// Key hints, one per level.
pub const HINT_SEMESTER: &'static str = "S> [a]dd [d]elete        {hjkl | \u{2190}\u{2193}\u{2191}\u{2192}} [q]uit";
pub const HINT_PERIOD: &'static str = "P>                       {hjkl | \u{2190}\u{2193}\u{2191}\u{2192}} [q]uit";
pub const HINT_COURSE: &'static str = "C> [a]dd [d]elete [e]dit {hjkl | \u{2190}\u{2193}\u{2191}\u{2192}} [q]uit";
pub const HINT_MOMENT: &'static str = "M> [a]dd [d]elete [e]dit {hjkl | \u{2190}\u{2193}\u{2191}\u{2192}} [q]uit";
pub const HINT_TASK: &'static str = "T>       [d]elete [e]dit {hjkl | \u{2190}\u{2193}\u{2191}\u{2192}} [q]uit";

/// The key hint for the cursor's level.
pub fn show_keybinds(level: Level) -> (r: &'static str)
    ensures
        r@ == hint(level),
{
    match level {
        Level::Semester => HINT_SEMESTER,
        Level::Period => HINT_PERIOD,
        Level::Course => HINT_COURSE,
        Level::Moment => HINT_MOMENT,
        Level::Task => HINT_TASK,
    }
}

/// The largest useful scroll offset: the rows past one screen, or 0.
pub open spec fn scroll_limit(total: nat, height: nat) -> nat {
    if total > height { (total - height) as nat } else { 0 }
}

/// Scrolls one row down, never past the last screenful of rows.
pub fn scroll_down(offset: usize, total: usize, height: usize) -> (r: usize)
    ensures
        r as int == (if offset < scroll_limit(total as nat, height as nat) {
            offset + 1
        } else {
            scroll_limit(total as nat, height as nat) as int
        }),
{
    let limit: usize = if total > height { total - height } else { 0 };
    if offset < limit { offset + 1 } else { limit }
}

/// Scrolls one row up, stopping at the top.
pub fn scroll_up(offset: usize) -> (r: usize)
    ensures
        r == (if offset > 0 { offset - 1 } else { 0 }),
{
    offset.saturating_sub(1)
}

/// The texts of the rows that a screen of `height` rows shows from row
/// `offset` on.
pub fn write_skip(rows: &Vec<Row>, offset: usize, height: usize) -> (r: Vec<String>)
    ensures
        r@.map_values(|s: String| s@) == rows_view(*rows).skip(
            if offset < rows@.len() { offset as int } else { rows@.len() as int },
        ).take(
            if offset < rows@.len() && height < rows@.len() - offset { height as int } else if offset < rows@.len() {
                rows@.len() - offset
            } else {
                0
            },
        ).map_values(|p: (bool, Seq<char>)| p.1),
{
    let mut out: Vec<String> = Vec::new();
    let start: usize = if offset < rows.len() { offset } else { rows.len() };
    let count: usize = if height < rows.len() - start { height } else { rows.len() - start };
    let ghost want = rows_view(*rows).skip(start as int).take(count as int).map_values(|p: (bool, Seq<char>)| p.1);
    let mut i: usize = 0;
    while i < count
        invariant
            i <= count,
            start + count <= rows@.len(),
            rows@.len() <= usize::MAX,
            want == rows_view(*rows).skip(start as int).take(count as int).map_values(|p: (bool, Seq<char>)| p.1),
            out@.map_values(|s: String| s@) == want.take(i as int),
        decreases count - i,
    {
        assert(start + i < rows@.len());
        let j: usize = start + i;
        let t = rows[j].text.clone();
        assert(rows_view(*rows)[j as int] == rows@[j as int]@);
        assert(want[i as int] == rows@[j as int].text@);
        let ghost before = out@.map_values(|s: String| s@);
        out.push(t);
        assert(out@.map_values(|s: String| s@) =~= before.push(t@));
        assert(want.take(i + 1) =~= want.take(i as int).push(want[i as int]));
        i = i + 1;
    }
    assert(want.take(i as int) =~= want);
    out
}

pub open spec fn is_digit(c: char) -> bool {
    '0' <= c && c <= '9'
}

pub open spec fn all_digits(s: Seq<char>) -> bool {
    forall|i: int| 0 <= i < s.len() ==> is_digit(#[trigger] s[i])
}

/// The number that a string of decimal digits writes.
pub open spec fn digits_value(s: Seq<char>) -> int
    decreases s.len(),
{
    if s.len() == 0 { 0 } else { digits_value(s.drop_last()) * 10 + (s.last() as int - '0' as int) }
}

/// The position of the first `.`, or the length where there is none.
pub open spec fn dot_index(s: Seq<char>) -> int
    decreases s.len(),
{
    if s.len() == 0 || s[0] == '.' { 0 } else { 1 + dot_index(s.drop_first()) }
}

/// The digits of an amount of credits in thousandths, for text of the form
/// `12`, `12.5`, `.75` or `3.` with at most three decimals; `None` for any
/// other text.
pub open spec fn credit_digits(s: Seq<char>) -> Option<Seq<char>> {
    let d = dot_index(s);
    let whole = s.take(d);
    let frac = if d < s.len() { s.skip(d + 1) } else { Seq::empty() };
    if all_digits(whole) && all_digits(frac) && frac.len() <= 3 && whole.len() + frac.len() > 0 {
        Some(whole + frac + Seq::new((3 - frac.len()) as nat, |i: int| '0'))
    } else {
        None
    }
}

/// The credits, in thousandths, that typed text gives, if it is a
/// well-formed amount that fits in a `u64`.
pub open spec fn credits_value(s: Seq<char>) -> Option<u64> {
    match credit_digits(s) {
        Some(ds) => if digits_value(ds) <= u64::MAX { Some(digits_value(ds) as u64) } else { None },
        None => None,
    }
}

proof fn lemma_dot_index(s: Seq<char>, i: int)
    requires
        0 <= i <= s.len(),
        forall|j: int| 0 <= j < i ==> s[j] != '.',
        i == s.len() || s[i] == '.',
    ensures
        dot_index(s) == i,
    decreases s.len(),
{
    if s.len() > 0 && s[0] != '.' {
        lemma_dot_index(s.drop_first(), i - 1);
    }
}

proof fn lemma_dot_index_bound(s: Seq<char>)
    ensures
        0 <= dot_index(s) <= s.len(),
    decreases s.len(),
{
    if s.len() > 0 && s[0] != '.' {
        lemma_dot_index_bound(s.drop_first());
    }
}

proof fn lemma_digits_value_grows(s: Seq<char>, i: int)
    requires
        all_digits(s),
        0 <= i <= s.len(),
    ensures
        0 <= digits_value(s.take(i)) <= digits_value(s),
    decreases s.len() - i,
{
    if i < s.len() {
        lemma_digits_value_grows(s, i + 1);
        assert(s.take(i + 1).drop_last() =~= s.take(i));
        assert(is_digit(s[i]));
    } else {
        assert(s.take(i) =~= s);
        lemma_digits_value_nonneg(s);
    }
}

proof fn lemma_digits_value_nonneg(s: Seq<char>)
    requires
        all_digits(s),
    ensures
        digits_value(s) >= 0,
    decreases s.len(),
{
    if s.len() > 0 {
        assert(is_digit(s.last()));
        lemma_digits_value_nonneg(s.drop_last());
    }
}

/// Whether every character of `s` from `lo` up to `hi` is a digit.
fn digits_between(s: &Vec<char>, lo: usize, hi: usize) -> (r: bool)
    requires
        lo <= hi <= s@.len(),
    ensures
        r == all_digits(s@.subrange(lo as int, hi as int)),
{
    let mut i: usize = lo;
    while i < hi
        invariant
            lo <= i <= hi,
            hi <= s@.len(),
            forall|j: int| lo <= j < i ==> is_digit(#[trigger] s@[j]),
        decreases hi - i,
    {
        if !('0' <= s[i] && s[i] <= '9') {
            assert(!is_digit(s@.subrange(lo as int, hi as int)[i - lo]));
            return false;
        }
        i = i + 1;
    }
    assert forall|j: int| 0 <= j < hi - lo implies is_digit(#[trigger] s@.subrange(lo as int, hi as int)[j]) by {
        assert(s@.subrange(lo as int, hi as int)[j] == s@[lo + j]);
    }
    true
}

/// The digits of the amount in thousandths, as `credit_digits` gives them.
fn credit_digit_chars(s: &Vec<char>) -> (r: Option<Vec<char>>)
    ensures
        credit_digits(s@) is None ==> r is None,
        credit_digits(s@) matches Some(ds) ==> (r matches Some(v) && v@ == ds),
{
    let n = s.len();
    let mut d: usize = 0;
    while d < n && s[d] != '.'
        invariant
            d <= n,
            n == s@.len(),
            forall|j: int| 0 <= j < d ==> s@[j] != '.',
        decreases n - d,
    {
        d = d + 1;
    }
    proof {
        lemma_dot_index(s@, d as int);
    }
    let frac_start: usize = if d < n { d + 1 } else { n };
    assert(s@.take(d as int) =~= s@.subrange(0, d as int));
    assert(d < n ==> s@.skip(d + 1) =~= s@.subrange(frac_start as int, n as int));
    assert(d == n ==> Seq::<char>::empty() =~= s@.subrange(frac_start as int, n as int));
    if !digits_between(s, 0, d) || !digits_between(s, frac_start, n) {
        return None;
    }
    let frac_len: usize = n - frac_start;
    if frac_len > 3 || d + frac_len == 0 {
        return None;
    }
    let mut v: Vec<char> = Vec::new();
    let mut i: usize = 0;
    while i < d
        invariant
            i <= d,
            d <= n,
            n == s@.len(),
            v@ == s@.take(i as int),
        decreases d - i,
    {
        v.push(s[i]);
        assert(v@ =~= s@.take(i + 1));
        i = i + 1;
    }
    let ghost whole = v@;
    let mut j: usize = frac_start;
    while j < n
        invariant
            frac_start <= j <= n,
            n == s@.len(),
            v@ == whole + s@.subrange(frac_start as int, j as int),
        decreases n - j,
    {
        v.push(s[j]);
        assert(v@ =~= whole + s@.subrange(frac_start as int, j + 1));
        j = j + 1;
    }
    let ghost mid = v@;
    let mut k: usize = frac_len;
    while k < 3
        invariant
            frac_len <= k <= 3,
            v@ == mid + Seq::new((k - frac_len) as nat, |i: int| '0'),
        decreases 3 - k,
    {
        v.push('0');
        assert(v@ =~= mid + Seq::new((k + 1 - frac_len) as nat, |i: int| '0'));
        k = k + 1;
    }
    assert(v@ =~= credit_digits(s@)->0);
    Some(v)
}

/// The credits, in thousandths, that the typed text gives: digits with at
/// most three decimals after an optional point. Anything else, a negative
/// amount included, gives `None`, and the add is then dropped.
pub fn parse_credits(s: &Vec<char>) -> (r: Option<u64>)
    ensures
        r == credits_value(s@),
{
    let ds = match credit_digit_chars(s) {
        Some(ds) => ds,
        None => return None,
    };
    let ghost d = ds@;
    proof {
        lemma_dot_index_bound(s@);
        let dot = dot_index(s@);
        let whole = s@.take(dot);
        let frac = if dot < s@.len() { s@.skip(dot + 1) } else { Seq::empty() };
        assert(credit_digits(s@) is Some);
        assert(credit_digits(s@) == Some(d));
        assert(all_digits(whole) && all_digits(frac));
        assert(d == whole + frac + Seq::new((3 - frac.len()) as nat, |i: int| '0'));
        assert forall|i: int| 0 <= i < d.len() implies is_digit(#[trigger] d[i]) by {
            if i < dot {
                assert(d[i] == whole[i]);
            } else if i < dot + frac.len() {
                assert(d[i] == frac[i - dot]);
            }
        }
    }
    let mut v: u64 = 0;
    let mut i: usize = 0;
    while i < ds.len()
        invariant
            i <= ds@.len(),
            d == ds@,
            credit_digits(s@) == Some(d),
            all_digits(d),
            v == digits_value(d.take(i as int)),
        decreases ds.len() - i,
    {
        proof {
            assert(d.take(i + 1).drop_last() =~= d.take(i as int));
            assert(is_digit(d[i as int]));
            lemma_digits_value_grows(d, i + 1);
        }
        let digit: u64 = (ds[i] as u32 - '0' as u32) as u64;
        if v > (u64::MAX - digit) / 10 {
            proof {
                assert(digits_value(d.take(i + 1)) > u64::MAX) by (nonlinear_arith)
                    requires
                        digits_value(d.take(i + 1)) == v * 10 + digit,
                        v > (u64::MAX - digit) / 10,
                        digit <= 9;
            }
            return None;
        }
        proof {
            assert(v * 10 + digit <= u64::MAX) by (nonlinear_arith)
                requires
                    v <= (u64::MAX - digit) / 10,
                    digit <= 9;
        }
        v = v * 10 + digit;
        i = i + 1;
    }
    assert(d.take(i as int) =~= d);
    Some(v)
}

/// What the add dialog collected; which one is asked for depends on the
/// cursor's level.
pub enum AddInput {
    /// At the semester level: nothing to ask.
    Semester,
    /// At the period level: a course's code, grade (if one was picked) and name.
    Course { code: String, grade: Option<Grade>, name: String },
    /// At the course level: a moment's code, grade, typed credits and description.
    Moment { code: String, grade: Option<Grade>, credits: Vec<char>, description: String },
    /// At the moment level: a task's name.
    Task { name: String },
}

/// Adds what the dialog collected below the cursor's level. Where no grade
/// was picked, or the credits do not parse, or the input does not belong to
/// the level, nothing changes.
pub fn add_entry(uni: &mut UniInfo, input: AddInput)
    ensures
        ({
            let u = old(uni)@;
            let l = u.cursor.level;
            final(uni)@ == match input {
                AddInput::Semester => if l == Level::Semester { u.add_semester_spec() } else { u },
                AddInput::Course { code, grade, name } => match grade {
                    Some(g) if l == Level::Period => u.add_course_spec(code@, g, name@),
                    _ => u,
                },
                AddInput::Moment { code, grade, credits, description } => match (grade, credits_value(credits@)) {
                    (Some(g), Some(c)) if l == Level::Course => u.add_moment_spec(code@, g, c, description@),
                    _ => u,
                },
                AddInput::Task { name } => if l == Level::Moment { u.add_task_spec(name@) } else { u },
            }
        }),
{
    let level = uni.cursor_level();
    match input {
        AddInput::Semester => {
            if level == Level::Semester {
                uni.add_semester();
            }
        },
        AddInput::Course { code, grade, name } => {
            if level == Level::Period {
                match grade {
                    Some(g) => uni.add_course(code, g, name),
                    None => {},
                }
            }
        },
        AddInput::Moment { code, grade, credits, description } => {
            if level == Level::Course {
                match (grade, parse_credits(&credits)) {
                    (Some(g), Some(c)) => uni.add_moment(code, g, c, description),
                    _ => {},
                }
            }
        },
        AddInput::Task { name } => {
            if level == Level::Moment {
                uni.add_task(name);
            }
        },
    }
}

/// Edits the targeted entry: a course or a moment takes the picked grade,
/// a task flips its completion. Without a picked grade, and at the semester
/// and period levels, nothing changes.
pub fn edit_entry(uni: &mut UniInfo, grade: Option<Grade>)
    ensures
        ({
            let u = old(uni)@;
            final(uni)@ == match (u.cursor.level, grade) {
                (Level::Course, Some(g)) => u.set_course_spec(crate::uni_info::CourseV { grade: g, ..u.course() }),
                (Level::Moment, Some(g)) => u.set_moment_spec(crate::uni_info::MomentV { grade: g, ..u.moment() }),
                (Level::Task, _) => u.toggle_task_spec(),
                _ => u,
            }
        }),
{
    match (uni.cursor_level(), grade) {
        (Level::Course, Some(g)) => uni.set_course_grade(g),
        (Level::Moment, Some(g)) => uni.set_moment_grade(g),
        (Level::Task, _) => uni.toggle_selected_task(),
        _ => {},
    }
}

} // verus!
