//! Rendering the grade tree as rows of terminal text.
//!
//! The tree is walked depth first: a header for each semester and period, one
//! row per course, and, under a course whose grade shows them, one row per
//! moment and per task. Each period and each semester ends with a progress
//! row, and so does the whole document. The row of the node that the cursor
//! targets starts with an arrow. Every row ends by erasing the rest of the
//! terminal line, so that a longer earlier frame leaves nothing behind.
use vstd::prelude::*;
use crate::cursor::{Cursor, Level};
use crate::grade::Grade;
use crate::progress::{Progress, Tally, average_thousandths, sat, credits_sum, tally, tally_add, lemma_add_of, lemma_tally_concat, lemma_tally_nonneg};
use crate::tasks::Task;
use crate::text::{char_string, decimal, decimal_string, digit_char, fixed1, fixed1_string, fixed3, fixed3_string};
use crate::uni_info::{Course, CourseV, Moment, MomentV, Semester, UniInfo, UniV, period_view};

verus! {

/// Resets colour and attributes.
pub const RST: &'static str = "\x1b[0m";
/// Bold.
pub const BLD: &'static str = "\x1b[1m";
/// Italic.
pub const CUR: &'static str = "\x1b[3m";
/// Underline.
pub const UDL: &'static str = "\x1b[4m";
/// Strikethrough.
pub const STK: &'static str = "\x1b[9m";
/// Red.
pub const RED: &'static str = "\x1b[91m";
/// Green.
pub const GRN: &'static str = "\x1b[92m";
/// Yellow.
pub const YLW: &'static str = "\x1b[93m";
/// Blue.
pub const BLU: &'static str = "\x1b[94m";
/// Cyan.
pub const CYN: &'static str = "\x1b[96m";
/// Erases from the terminal cursor to the end of the line.
pub const ERASE_TO_LINE_END: &'static str = "\x1b[0K";
/// Marks the targeted row.
pub const ARROW: &'static str = "\u{2192}";
/// The four spaces of one level of indentation.
pub const INDENT: &'static str = "    ";

/// A passed course.
pub const CHECKMARK: char = '\u{2713}';
/// A failed course.
pub const CROSS: char = '\u{2717}';
/// An ongoing course.
pub const ELLIPSIS: char = '\u{2026}';
/// The bullet of a header row.
pub const DOT: char = '\u{2022}';
/// Separates the average from the credits.
pub const BARS: char = '\u{2016}';

/// `n` levels of indentation.
pub open spec fn indent_text(n: nat) -> Seq<char>
    decreases n,
{
    if n == 0 { Seq::empty() } else { indent_text((n - 1) as nat) + INDENT@ }
}

/// The arrow on a targeted row, nothing on another.
pub open spec fn indicator(targeted: bool) -> Seq<char> {
    if targeted { ARROW@ } else { Seq::empty() }
}

/// Credits in thousandths, rounded half up to tenths.
pub open spec fn tenths(m: u64) -> nat {
    (m / 100 + if m % 100 >= 50 { 1int } else { 0 }) as nat
}

/// Credits written with one decimal.
pub open spec fn credits_text(m: u64) -> Seq<char> {
    fixed1(tenths(m))
}

/// The colour and symbol of a course's grade.
pub open spec fn course_mark(g: Grade) -> (Seq<char>, char) {
    match g {
        Grade::Completed(passed) => if passed { (GRN@, CHECKMARK) } else { (RED@, CROSS) },
        Grade::Grade(n) => (GRN@, if n < 10 { digit_char(n as int) } else { '?' }),
        Grade::Traditional(c) => (GRN@, c),
        Grade::Ongoing => (BLU@, ELLIPSIS),
    }
}

/// The colour and status letter of a moment's grade.
pub open spec fn moment_mark(g: Grade) -> (Seq<char>, char) {
    match g {
        Grade::Completed(passed) => if passed { (GRN@, 'G') } else { (RED@, 'U') },
        Grade::Grade(n) => (GRN@, if n < 10 { digit_char(n as int) } else { '?' }),
        Grade::Traditional(c) => (GRN@, c),
        Grade::Ongoing => (RED@, ' '),
    }
}

/// `[✓] CODE Name 7.5 ECTS`, with colours; the credits are all of the
/// course's moments.
pub open spec fn course_text(c: CourseV) -> Seq<char> {
    let (color, symbol) = course_mark(c.grade);
    seq!['['] + color + seq![symbol] + RST@ + "] "@ + UDL@ + c.code + RST@ + " "@ + BLD@ + BLU@ + c.name
        + RST@ + " "@ + credits_text(sat(credits_sum(c.moments))) + " ECTS"@
}

/// `[G] [CODE] Description 1.5 ECTS`, struck through once graded.
pub open spec fn moment_text(m: MomentV) -> Seq<char> {
    let (color, status) = moment_mark(m.grade);
    let marker = if m.grade is Ongoing || m.grade == Grade::Completed(false) { Seq::empty() } else { STK@ };
    seq!['['] + color + seq![status] + RST@ + "] "@ + marker + "["@ + m.code + "] "@ + YLW@ + CUR@
        + m.description + RST@ + " "@ + credits_text(m.credits) + " ECTS"@
}

/// The task's name, struck through once completed.
pub open spec fn task_text(t: (Seq<char>, bool)) -> Seq<char> {
    (if t.1 { STK@ } else { Seq::empty() }) + t.0 + RST@
}

/// A row of the tree: arrow, indentation, text, erase to line end.
pub open spec fn entry_line(text: Seq<char>, targeted: bool, indents: nat) -> Seq<char> {
    indicator(targeted) + indent_text(indents) + text + ERASE_TO_LINE_END@
}

/// A header row: `• Title 2:`.
pub open spec fn header_line(title: Seq<char>, index: nat, targeted: bool, indents: nat) -> Seq<char> {
    indicator(targeted) + indent_text(indents) + seq![DOT, ' '] + title + seq![' '] + decimal(index) + seq![':']
        + ERASE_TO_LINE_END@
}

/// The average, or a red dash where no course carries a mark.
pub open spec fn average_text(p: Progress) -> Seq<char> {
    if p.marks == 0 {
        RED@ + "-.---"@
    } else {
        CYN@ + fixed3(average_thousandths(p.mark_sum as int, p.marks as int) as nat)
    }
}

/// A progress row: the average mark, then accrued and total credits; both
/// are flagged red when there is nothing to show.
pub open spec fn progress_line(p: Progress, indents: nat) -> Seq<char> {
    indent_text(indents) + average_text(p) + RST@ + "avg "@ + seq![BARS, ' '] + (if p.accrued == 0 {
        RED@
    } else {
        CYN@
    }) + credits_text(p.accrued) + "/"@ + credits_text(p.total) + RST@ + " ECTS"@ + ERASE_TO_LINE_END@
}

/// `n` levels of indentation.
pub fn indent(n: usize) -> (r: String)
    ensures
        r@ == indent_text(n as nat),
{
    let mut s = String::new();
    let mut i: usize = 0;
    while i < n
        invariant
            i <= n,
            s@ == indent_text(i as nat),
        decreases n - i,
    {
        s.append(INDENT);
        i = i + 1;
    }
    s
}

/// Credits in thousandths, written with one decimal.
pub fn credits_string(m: u64) -> (r: String)
    ensures
        r@ == credits_text(m),
{
    let t: u64 = m / 100 + if m % 100 >= 50 { 1 } else { 0 };
    fixed1_string(t as u128)
}

fn course_mark_exec(g: Grade) -> (r: (&'static str, char))
    ensures
        (r.0@, r.1) == course_mark(g),
{
    match g {
        Grade::Completed(passed) => if passed { (GRN, CHECKMARK) } else { (RED, CROSS) },
        Grade::Grade(n) => (GRN, if n < 10 { ((n + 48) as u8) as char } else { '?' }),
        Grade::Traditional(c) => (GRN, c),
        Grade::Ongoing => (BLU, ELLIPSIS),
    }
}

fn moment_mark_exec(g: Grade) -> (r: (&'static str, char))
    ensures
        (r.0@, r.1) == moment_mark(g),
{
    match g {
        Grade::Completed(passed) => if passed { (GRN, 'G') } else { (RED, 'U') },
        Grade::Grade(n) => (GRN, if n < 10 { ((n + 48) as u8) as char } else { '?' }),
        Grade::Traditional(c) => (GRN, c),
        Grade::Ongoing => (RED, ' '),
    }
}

impl Course {
    /// The course's row text.
    pub fn text(&self) -> (r: String)
        ensures
            r@ == course_text(self@),
    {
        let (color, symbol) = course_mark_exec(self.grade);
        let mut s = String::new();
        s.append("[");
        s.append(color);
        s.append(char_string(symbol).as_str());
        s.append(RST);
        s.append("] ");
        s.append(UDL);
        s.append(self.code.as_str());
        s.append(RST);
        s.append(" ");
        s.append(BLD);
        s.append(BLU);
        s.append(self.name.as_str());
        s.append(RST);
        s.append(" ");
        s.append(credits_string(self.max_credits()).as_str());
        s.append(" ECTS");
        proof {
            reveal_strlit("[");
            assert(s@ =~= course_text(self@));
        }
        s
    }
}

impl Moment {
    /// The moment's row text.
    pub fn text(&self) -> (r: String)
        ensures
            r@ == moment_text(self@),
    {
        let (color, status) = moment_mark_exec(self.grade);
        let mut s = String::new();
        s.append("[");
        s.append(color);
        s.append(char_string(status).as_str());
        s.append(RST);
        s.append("] ");
        if self.grade.accrues_credits() {
            s.append(STK);
        }
        s.append("[");
        s.append(self.code.as_str());
        s.append("] ");
        s.append(YLW);
        s.append(CUR);
        s.append(self.description.as_str());
        s.append(RST);
        s.append(" ");
        s.append(credits_string(self.credits).as_str());
        s.append(" ECTS");
        proof {
            reveal_strlit("[");
            assert(s@ =~= moment_text(self@));
        }
        s
    }
}

impl Task {
    /// The task's row text.
    pub fn text(&self) -> (r: String)
        ensures
            r@ == task_text(self@),
    {
        let mut s = String::new();
        if self.completed {
            s.append(STK);
        }
        s.append(self.name.as_str());
        s.append(RST);
        proof {
            assert(s@ =~= task_text(self@));
        }
        s
    }
}

/// A row of the tree: the arrow where targeted, indentation of `indents`
/// levels, the text, and the erasure to the end of the line.
pub fn write_entry(entry: &String, targeted: bool, indents: usize) -> (r: String)
    ensures
        r@ == entry_line(entry@, targeted, indents as nat),
{
    let mut s = String::new();
    if targeted {
        s.append(ARROW);
    }
    s.append(indent(indents).as_str());
    s.append(entry.as_str());
    s.append(ERASE_TO_LINE_END);
    proof {
        assert(s@ =~= entry_line(entry@, targeted, indents as nat));
    }
    s
}

/// A header row such as `• Semester 1:`.
pub fn write_header(title: &str, index: usize, targeted: bool, indents: usize) -> (r: String)
    ensures
        r@ == header_line(title@, index as nat, targeted, indents as nat),
{
    let mut s = String::new();
    if targeted {
        s.append(ARROW);
    }
    s.append(indent(indents).as_str());
    s.append(char_string(DOT).as_str());
    s.append(char_string(' ').as_str());
    s.append(title);
    s.append(char_string(' ').as_str());
    s.append(decimal_string(index as u128).as_str());
    s.append(char_string(':').as_str());
    s.append(ERASE_TO_LINE_END);
    proof {
        assert(s@ =~= header_line(title@, index as nat, targeted, indents as nat));
    }
    s
}

/// A progress row over the totals `p`.
pub fn write_progress(p: &Progress, indents: usize) -> (r: String)
    ensures
        r@ == progress_line(*p, indents as nat),
{
    let mut s = indent(indents);
    match p.average() {
        None => {
            s.append(RED);
            s.append("-.---");
        },
        Some(th) => {
            s.append(CYN);
            s.append(fixed3_string(th).as_str());
        },
    }
    s.append(RST);
    s.append("avg ");
    s.append(char_string(BARS).as_str());
    s.append(char_string(' ').as_str());
    if p.accrued == 0 {
        s.append(RED);
    } else {
        s.append(CYN);
    }
    s.append(credits_string(p.accrued).as_str());
    s.append("/");
    s.append(credits_string(p.total).as_str());
    s.append(RST);
    s.append(" ECTS");
    s.append(ERASE_TO_LINE_END);
    proof {
        assert(s@ =~= progress_line(*p, indents as nat));
    }
    s
}

/// One row of the rendered tree: its text, and whether the cursor targets it.
pub struct Row {
    pub targeted: bool,
    pub text: String,
}

impl View for Row {
    type V = (bool, Seq<char>);

    open spec fn view(&self) -> (bool, Seq<char>) {
        (self.targeted, self.text@)
    }
}

pub open spec fn rows_view(v: Vec<Row>) -> Seq<(bool, Seq<char>)> {
    v@.map_values(|r: Row| r@)
}

/// The progress totals of a list of courses, as they are shown.
pub open spec fn shown(t: Tally) -> Progress {
    Progress { accrued: sat(t.accrued), total: sat(t.total), mark_sum: sat(t.mark_sum), marks: sat(t.marks) }
}

/// The row of one entry.
pub open spec fn entry_row(text: Seq<char>, targeted: bool, indents: nat) -> (bool, Seq<char>) {
    (targeted, entry_line(text, targeted, indents))
}

/// The rows of the first tasks of a moment at cursor `at`.
pub open spec fn tasks_rows(ts: Seq<(Seq<char>, bool)>, at: Cursor, live: Cursor) -> Seq<(bool, Seq<char>)>
    decreases ts.len(),
{
    if ts.len() == 0 {
        Seq::empty()
    } else {
        let c = Cursor { task: (ts.len() - 1) as usize, level: Level::Task, ..at };
        tasks_rows(ts.drop_last(), at, live).push(entry_row(task_text(ts.last()), live == c, 5))
    }
}

/// A moment's row, then its tasks' rows.
pub open spec fn moment_rows(m: MomentV, at: Cursor, live: Cursor) -> Seq<(bool, Seq<char>)> {
    seq![entry_row(moment_text(m), live == at, 3)] + match m.tasks {
        Some(ts) => tasks_rows(ts, at, live),
        None => Seq::empty(),
    }
}

pub open spec fn moments_rows(ms: Seq<MomentV>, at: Cursor, live: Cursor) -> Seq<(bool, Seq<char>)>
    decreases ms.len(),
{
    if ms.len() == 0 {
        Seq::empty()
    } else {
        let c = Cursor { moment: (ms.len() - 1) as usize, level: Level::Moment, ..at };
        moments_rows(ms.drop_last(), at, live) + moment_rows(ms.last(), c, live)
    }
}

/// A course's row, then, where its grade shows them, its moments.
pub open spec fn course_rows(c: CourseV, at: Cursor, live: Cursor) -> Seq<(bool, Seq<char>)> {
    seq![entry_row(course_text(c), live == at, 2)] + if c.grade.shows_children() {
        moments_rows(c.moments, at, live)
    } else {
        Seq::empty()
    }
}

pub open spec fn courses_rows(cs: Seq<CourseV>, at: Cursor, live: Cursor) -> Seq<(bool, Seq<char>)>
    decreases cs.len(),
{
    if cs.len() == 0 {
        Seq::empty()
    } else {
        let c = Cursor { course: (cs.len() - 1) as usize, level: Level::Course, ..at };
        courses_rows(cs.drop_last(), at, live) + course_rows(cs.last(), c, live)
    }
}

/// A period's header, its courses, and its progress.
pub open spec fn period_rows(p: Seq<CourseV>, at: Cursor, live: Cursor) -> Seq<(bool, Seq<char>)> {
    seq![(live == at, header_line("Period"@, (at.period + 1) as nat, live == at, 1))] + courses_rows(p, at, live)
        + seq![(false, progress_line(shown(tally(p)), 2))]
}

/// A semester's header, its two periods, and the progress over both.
pub open spec fn semester_rows(sem: Seq<Seq<CourseV>>, at: Cursor, live: Cursor) -> Seq<(bool, Seq<char>)> {
    seq![(live == at, header_line("Semester"@, (at.semester + 1) as nat, live == at, 0))]
        + period_rows(sem[0], Cursor { period: 0, level: Level::Period, ..at }, live)
        + period_rows(sem[1], Cursor { period: 1, level: Level::Period, ..at }, live)
        + seq![(false, progress_line(shown(tally(sem[0] + sem[1])), 1))]
}

pub open spec fn semesters_rows(menu: Seq<Seq<Seq<CourseV>>>, live: Cursor) -> Seq<(bool, Seq<char>)>
    decreases menu.len(),
{
    if menu.len() == 0 {
        Seq::empty()
    } else {
        let c = Cursor { semester: (menu.len() - 1) as usize, level: Level::Semester, ..Cursor::origin() };
        semesters_rows(menu.drop_last(), live) + semester_rows(menu.last(), c, live)
    }
}

/// Every course of the document, semester by semester, period by period.
pub open spec fn all_courses(menu: Seq<Seq<Seq<CourseV>>>) -> Seq<CourseV>
    decreases menu.len(),
{
    if menu.len() == 0 {
        Seq::empty()
    } else {
        all_courses(menu.drop_last()) + (menu.last()[0] + menu.last()[1])
    }
}

/// The first row: what the averages include.
pub open spec fn title_line() -> Seq<char> {
    BLD@ + RED@ + TITLE@ + RST@ + ERASE_TO_LINE_END@
}

/// What the averages include.
pub const TITLE: &'static str = "Averages include gradings 3..5 and A..E (B=4.5, D=3.5)";

/// The whole view: the title, every semester, and the overall progress.
pub open spec fn doc_rows(u: UniV) -> Seq<(bool, Seq<char>)> {
    seq![(false, title_line())] + semesters_rows(u.menu, u.cursor) + seq![(false, progress_line(shown(tally(all_courses(u.menu))), 0))]
}

/// Whether every grade that the view shows is in range: each course's, and
/// each moment's under a course that shows its moments.
pub open spec fn course_renderable(c: CourseV) -> bool {
    c.grade.valid() && (c.grade.shows_children() ==> forall|i: int| 0 <= i < c.moments.len() ==> (#[trigger] c.moments[i]).grade.valid())
}

pub open spec fn renderable(u: UniV) -> bool {
    forall|s: int, p: int, c: int|
        0 <= s < u.menu.len() && 0 <= p < u.menu[s].len() && 0 <= c < u.menu[s][p].len()
            ==> course_renderable(#[trigger] u.menu[s][p][c])
}

/// The index of the first targeted row, or the number of rows where none is.
pub open spec fn first_targeted(rows: Seq<(bool, Seq<char>)>) -> nat
    decreases rows.len(),
{
    if rows.len() == 0 {
        0
    } else if rows[0].0 {
        0
    } else {
        1 + first_targeted(rows.drop_first())
    }
}

fn push_row(out: &mut Vec<Row>, targeted: bool, text: String)
    ensures
        rows_view(*final(out)) == rows_view(*old(out)).push((targeted, text@)),
{
    out.push(Row { targeted, text });
    proof {
        assert(rows_view(*final(out)) =~= rows_view(*old(out)).push((targeted, text@)));
    }
}

fn render_tasks(out: &mut Vec<Row>, m: &Moment, at: Cursor, live: Cursor)
    ensures
        rows_view(*final(out)) == rows_view(*old(out)) + match m@.tasks {
            Some(ts) => tasks_rows(ts, at, live),
            None => Seq::empty(),
        },
{
    match &m.tasks {
        None => {
            assert(rows_view(*out) =~= rows_view(*old(out)) + Seq::<(bool, Seq<char>)>::empty());
        },
        Some(tasks) => {
            let ghost ts = tasks@;
            let mut i: usize = 0;
            assert(ts.take(0) =~= Seq::<(Seq<char>, bool)>::empty());
            assert(rows_view(*out) =~= rows_view(*old(out)) + tasks_rows(ts.take(0), at, live));
            while i < tasks.len()
                invariant
                    i <= ts.len(),
                    ts == tasks@,
                    rows_view(*out) == rows_view(*old(out)) + tasks_rows(ts.take(i as int), at, live),
                decreases ts.len() - i,
            {
                let t = tasks.get(i).unwrap();
                let c = Cursor { task: i, level: Level::Task, ..at };
                let row = write_entry(&t.text(), live == c, 5);
                push_row(out, live == c, row);
                proof {
                    assert(ts.take(i + 1).drop_last() =~= ts.take(i as int));
                    assert(ts.take(i + 1).last() == ts[i as int]);
                    assert(rows_view(*out) =~= rows_view(*old(out)) + tasks_rows(ts.take(i + 1), at, live));
                }
                i = i + 1;
            }
            assert(ts.take(i as int) =~= ts);
        },
    }
}

fn render_moment(out: &mut Vec<Row>, m: &Moment, at: Cursor, live: Cursor)
    ensures
        rows_view(*final(out)) == rows_view(*old(out)) + moment_rows(m@, at, live),
{
    let row = write_entry(&m.text(), live == at, 3);
    push_row(out, live == at, row);
    render_tasks(out, m, at, live);
    assert(rows_view(*out) =~= rows_view(*old(out)) + moment_rows(m@, at, live));
}

fn render_course(out: &mut Vec<Row>, c: &Course, at: Cursor, live: Cursor)
    ensures
        rows_view(*final(out)) == rows_view(*old(out)) + course_rows(c@, at, live),
{
    let row = write_entry(&c.text(), live == at, 2);
    push_row(out, live == at, row);
    if !c.should_print_moments() {
        assert(rows_view(*out) =~= rows_view(*old(out)) + course_rows(c@, at, live));
        return;
    }
    let ghost ms = c@.moments;
    let ghost start = rows_view(*out);
    let mut i: usize = 0;
    assert(ms.take(0) =~= Seq::<MomentV>::empty());
    assert(rows_view(*out) =~= start + moments_rows(ms.take(0), at, live));
    while i < c.moments.len()
        invariant
            i <= c.moments.len(),
            ms == c@.moments,
            rows_view(*out) == start + moments_rows(ms.take(i as int), at, live),
        decreases c.moments.len() - i,
    {
        let mc = Cursor { moment: i, level: Level::Moment, ..at };
        render_moment(out, &c.moments[i], mc, live);
        proof {
            assert(ms.take(i + 1).drop_last() =~= ms.take(i as int));
            assert(ms.take(i + 1).last() == ms[i as int]);
            assert(rows_view(*out) =~= start + moments_rows(ms.take(i + 1), at, live));
        }
        i = i + 1;
    }
    assert(ms.take(i as int) =~= ms);
    assert(rows_view(*out) =~= rows_view(*old(out)) + course_rows(c@, at, live));
}

fn render_period(out: &mut Vec<Row>, p: &Vec<Course>, at: Cursor, live: Cursor) -> (r: Progress)
    requires
        at.period < usize::MAX,
    ensures
        rows_view(*final(out)) == rows_view(*old(out)) + period_rows(period_view(*p), at, live),
        r == shown(tally(period_view(*p))),
{
    let row = write_header("Period", at.period + 1, live == at, 1);
    push_row(out, live == at, row);
    let ghost cs = period_view(*p);
    let ghost start = rows_view(*out);
    let mut i: usize = 0;
    assert(cs.take(0) =~= Seq::<CourseV>::empty());
    assert(rows_view(*out) =~= start + courses_rows(cs.take(0), at, live));
    while i < p.len()
        invariant
            i <= p.len(),
            cs == period_view(*p),
            rows_view(*out) == start + courses_rows(cs.take(i as int), at, live),
        decreases p.len() - i,
    {
        let cc = Cursor { course: i, level: Level::Course, ..at };
        render_course(out, &p[i], cc, live);
        proof {
            assert(cs.take(i + 1).drop_last() =~= cs.take(i as int));
            assert(cs.take(i + 1).last() == cs[i as int]);
            assert(rows_view(*out) =~= start + courses_rows(cs.take(i + 1), at, live));
        }
        i = i + 1;
    }
    assert(cs.take(i as int) =~= cs);
    let prog = Progress::of_courses(p);
    let row = write_progress(&prog, 2);
    push_row(out, false, row);
    proof {
        reveal_strlit("Period");
        assert(rows_view(*out) =~= rows_view(*old(out)) + period_rows(cs, at, live));
    }
    prog
}

fn render_semester(out: &mut Vec<Row>, sem: &Semester, at: Cursor, live: Cursor) -> (r: Progress)
    requires
        at.semester < usize::MAX,
    ensures
        rows_view(*final(out)) == rows_view(*old(out)) + semester_rows(sem@, at, live),
        r == shown(tally(sem@[0] + sem@[1])),
{
    let row = write_header("Semester", at.semester + 1, live == at, 0);
    push_row(out, live == at, row);
    let p0 = render_period(out, &sem.first, Cursor { period: 0, level: Level::Period, ..at }, live);
    let p1 = render_period(out, &sem.second, Cursor { period: 1, level: Level::Period, ..at }, live);
    proof {
        lemma_tally_concat(sem@[0], sem@[1]);
        lemma_tally_nonneg(sem@[0]);
        lemma_tally_nonneg(sem@[1]);
        lemma_add_of(p0, p1, tally(sem@[0]), tally(sem@[1]));
    }
    let prog = p0.add(p1);
    let row = write_progress(&prog, 1);
    push_row(out, false, row);
    proof {
        reveal_strlit("Semester");
        assert(rows_view(*out) =~= rows_view(*old(out)) + semester_rows(sem@, at, live));
    }
    prog
}

impl UniInfo {
    /// The rows of the whole view, whatever the grades hold.
    pub fn rows(&self) -> (r: Vec<Row>)
        ensures
            rows_view(r) == doc_rows(self@),
    {
        let ghost u = self@;
        let menu = self.menu();
        let live = self.cursor();
        let mut out: Vec<Row> = Vec::new();
        let mut title = String::new();
        title.append(BLD);
        title.append(RED);
        title.append(TITLE);
        title.append(RST);
        title.append(ERASE_TO_LINE_END);
        push_row(&mut out, false, title);
        let ghost start = rows_view(out);
        let mut all = Progress::zero();
        let mut i: usize = 0;
        proof {
            assert(u.menu.take(0) =~= Seq::<Seq<Seq<CourseV>>>::empty());
            assert(rows_view(out) =~= start + semesters_rows(u.menu.take(0), live));
        }
        while i < menu.len()
            invariant
                i <= menu.len(),
                u == self@,
                live == u.cursor,
                menu@.map_values(|s: Semester| s@) == u.menu,
                rows_view(out) == start + semesters_rows(u.menu.take(i as int), live),
                all == shown(tally(all_courses(u.menu.take(i as int)))),
            decreases menu.len() - i,
        {
            let sc = Cursor { semester: i, level: Level::Semester, ..Cursor::default() };
            let sp = render_semester(&mut out, &menu[i], sc, live);
            proof {
                let t = u.menu.take(i + 1);
                assert(t.drop_last() =~= u.menu.take(i as int));
                assert(t.last() == u.menu[i as int]);
                assert(rows_view(out) =~= start + semesters_rows(t, live));
                lemma_tally_concat(all_courses(u.menu.take(i as int)), u.menu[i as int][0] + u.menu[i as int][1]);
                lemma_tally_nonneg(all_courses(u.menu.take(i as int)));
                lemma_tally_nonneg(u.menu[i as int][0] + u.menu[i as int][1]);
                lemma_add_of(all, sp, tally(all_courses(u.menu.take(i as int))), tally(u.menu[i as int][0] + u.menu[i as int][1]));
            }
            all = all.add(sp);
            i = i + 1;
        }
        assert(u.menu.take(i as int) =~= u.menu);
        let row = write_progress(&all, 0);
        push_row(&mut out, false, row);
        proof {
            assert(rows_view(out) =~= doc_rows(u));
        }
        out
    }
}

impl Course {
    /// Whether the course's grade, and the grades of the moments it shows,
    /// are in range.
    pub fn renderable(&self) -> (r: bool)
        ensures
            r == course_renderable(self@),
    {
        if !self.grade.is_valid() {
            return false;
        }
        if !self.should_print_moments() {
            return true;
        }
        let mut i: usize = 0;
        while i < self.moments.len()
            invariant
                i <= self.moments.len(),
                self@.grade.valid(),
                self@.grade.shows_children(),
                forall|j: int| 0 <= j < i ==> (#[trigger] self@.moments[j]).grade.valid(),
            decreases self.moments.len() - i,
        {
            assert(self@.moments[i as int] == self.moments@[i as int]@);
            if !self.moments[i].grade.is_valid() {
                assert(self@.grade.shows_children());
                assert(!(#[trigger] self@.moments[i as int]).grade.valid());
                assert(!course_renderable(self@));
                return false;
            }
            i = i + 1;
        }
        true
    }
}

fn period_renderable(p: &Vec<Course>) -> (r: bool)
    ensures
        r == forall|c: int| 0 <= c < p@.len() ==> course_renderable(#[trigger] period_view(*p)[c]),
{
    let mut i: usize = 0;
    while i < p.len()
        invariant
            i <= p.len(),
            forall|c: int| 0 <= c < i ==> course_renderable(#[trigger] period_view(*p)[c]),
        decreases p.len() - i,
    {
        if !p[i].renderable() {
            assert(!course_renderable(period_view(*p)[i as int]));
            return false;
        }
        i = i + 1;
    }
    true
}

impl UniInfo {
    /// Whether every grade that the view shows is in range.
    pub fn grades_valid(&self) -> (r: bool)
        ensures
            r == renderable(self@),
    {
        let ghost u = self@;
        let menu = self.menu();
        proof {
            self.lemma_wf();
        }
        let mut i: usize = 0;
        while i < menu.len()
            invariant
                i <= menu.len(),
                u == self@,
                u.wf(),
                menu@.map_values(|s: Semester| s@) == u.menu,
                forall|s: int, p: int, c: int|
                    0 <= s < i && 0 <= p < u.menu[s].len() && 0 <= c < u.menu[s][p].len()
                        ==> course_renderable(#[trigger] u.menu[s][p][c]),
            decreases menu.len() - i,
        {
            assert(u.menu[i as int] == menu[i as int]@);
            if !period_renderable(&menu[i].first) {
                assert(u.menu[i as int][0] == period_view(menu[i as int].first));
                return false;
            }
            if !period_renderable(&menu[i].second) {
                assert(u.menu[i as int][1] == period_view(menu[i as int].second));
                return false;
            }
            assert forall|s: int, p: int, c: int|
                0 <= s < i + 1 && 0 <= p < u.menu[s].len() && 0 <= c < u.menu[s][p].len()
                    implies course_renderable(#[trigger] u.menu[s][p][c]) by {
                if s == i {
                    assert(u.menu[i as int][0] == period_view(menu[i as int].first));
                    assert(u.menu[i as int][1] == period_view(menu[i as int].second));
                }
            }
            i = i + 1;
        }
        true
    }

    /// The rows of the view; `None` where a grade that it would show is out
    /// of range, which only a corrupt document holds.
    pub fn render(&self) -> (r: Option<Vec<Row>>)
        ensures
            r is None <==> !renderable(self@),
            r matches Some(rows) ==> rows_view(rows) == doc_rows(self@),
    {
        if self.grades_valid() {
            Some(self.rows())
        } else {
            None
        }
    }

    /// The row of the view that the cursor targets, counting the title as
    /// row 0; the number of rows where the cursor targets none.
    pub fn cursor_offset(&self) -> (r: usize)
        ensures
            r == first_targeted(doc_rows(self@)),
    {
        let rows = self.rows();
        let ghost rv = rows_view(rows);
        let mut i: usize = 0;
        assert(rv.skip(0) =~= rv);
        while i < rows.len()
            invariant
                i <= rows.len(),
                rv == rows_view(rows),
                rv == doc_rows(self@),
                first_targeted(rv) == i + first_targeted(rv.skip(i as int)),
            decreases rows.len() - i,
        {
            if rows[i].targeted {
                assert(rv.skip(i as int)[0].0);
                return i;
            }
            assert(rv.skip(i as int).drop_first() =~= rv.skip(i + 1));
            i = i + 1;
        }
        i
    }
}

} // verus!
