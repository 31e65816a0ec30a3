//! The grade tree and the cursor that navigates and edits it.
//!
//! A document holds semesters; a semester holds exactly two periods; a period
//! holds courses; a course holds moments; a moment may hold tasks. Every edit
//! addresses the node that the cursor selects, and does nothing where the
//! cursor's indices do not lead to an existing node.
use vstd::prelude::*;
use crate::cursor::{Cursor, Level};
use crate::grade::Grade;
use crate::tasks::{Tasks, inserted};

verus! {

broadcast use crate::seq_facts::group_map_values;

/// A gradable part of a course, such as an exam or an assignment.
pub struct Moment {
    pub code: String,
    pub grade: Grade,
    /// Credits in thousandths of a credit.
    pub credits: u64,
    pub description: String,
    pub tasks: Option<Tasks>,
}

/// The spec-level picture of a `Moment`.
pub struct MomentV {
    pub code: Seq<char>,
    pub grade: Grade,
    pub credits: u64,
    pub description: Seq<char>,
    pub tasks: Option<Seq<(Seq<char>, bool)>>,
}

impl View for Moment {
    type V = MomentV;

    open spec fn view(&self) -> MomentV {
        MomentV {
            code: self.code@,
            grade: self.grade,
            credits: self.credits,
            description: self.description@,
            tasks: match &self.tasks {
                Some(t) => Some(t@),
                None => None,
            },
        }
    }
}

/// A course of a period.
pub struct Course {
    pub code: String,
    pub grade: Grade,
    pub moments: Vec<Moment>,
    pub name: String,
}

/// The spec-level picture of a `Course`.
pub struct CourseV {
    pub code: Seq<char>,
    pub grade: Grade,
    pub moments: Seq<MomentV>,
    pub name: Seq<char>,
}

impl View for Course {
    type V = CourseV;

    open spec fn view(&self) -> CourseV {
        CourseV {
            code: self.code@,
            grade: self.grade,
            moments: self.moments@.map_values(|m: Moment| m@),
            name: self.name@,
        }
    }
}

/// The courses of one period, in insertion order.
pub open spec fn period_view(p: Vec<Course>) -> Seq<CourseV> {
    p@.map_values(|c: Course| c@)
}

/// One academic year's semester: always exactly two periods.
pub struct Semester {
    pub first: Vec<Course>,
    pub second: Vec<Course>,
}

impl View for Semester {
    type V = Seq<Seq<CourseV>>;

    open spec fn view(&self) -> Seq<Seq<CourseV>> {
        seq![period_view(self.first), period_view(self.second)]
    }
}

/// The spec-level picture of a document: its semesters and its cursor.
pub struct UniV {
    pub menu: Seq<Seq<Seq<CourseV>>>,
    pub cursor: Cursor,
}

/// The whole grade book, with the cursor that addresses one node of it.
pub struct UniInfo {
    menu: Vec<Semester>,
    cursor: Cursor,
}

impl View for UniInfo {
    type V = UniV;

    closed spec fn view(&self) -> UniV {
        UniV { menu: self.menu@.map_values(|s: Semester| s@), cursor: self.cursor }
    }
}

impl UniV {
    /// Every semester has exactly two periods.
    pub open spec fn wf(self) -> bool {
        forall|i: int| 0 <= i < self.menu.len() ==> (#[trigger] self.menu[i]).len() == 2
    }

    pub open spec fn sem_ok(self) -> bool {
        self.cursor.semester < self.menu.len()
    }

    pub open spec fn period_ok(self) -> bool {
        self.sem_ok() && self.cursor.period < 2
    }

    /// The selected period's courses.
    pub open spec fn period(self) -> Seq<CourseV> {
        self.menu[self.cursor.semester as int][self.cursor.period as int]
    }

    pub open spec fn course_ok(self) -> bool {
        self.period_ok() && self.cursor.course < self.period().len()
    }

    /// The selected course.
    pub open spec fn course(self) -> CourseV {
        self.period()[self.cursor.course as int]
    }

    pub open spec fn moment_ok(self) -> bool {
        self.course_ok() && self.cursor.moment < self.course().moments.len()
    }

    /// The selected moment.
    pub open spec fn moment(self) -> MomentV {
        self.course().moments[self.cursor.moment as int]
    }

    /// The selected moment's tasks, empty where it has none.
    pub open spec fn task_list(self) -> Seq<(Seq<char>, bool)> {
        match self.moment().tasks {
            Some(t) => t,
            None => Seq::empty(),
        }
    }

    pub open spec fn task_ok(self) -> bool {
        self.moment_ok() && self.moment().tasks is Some && self.cursor.task < self.task_list().len()
    }

    /// How many entries level `l` has under the nodes that the cursor selects
    /// above it; 0 where one of those does not exist.
    pub open spec fn entries(self, l: Level) -> nat {
        match l {
            Level::Semester => self.menu.len(),
            Level::Period => if self.sem_ok() { 2 } else { 0 },
            Level::Course => if self.period_ok() { self.period().len() } else { 0 },
            Level::Moment => if self.course_ok() { self.course().moments.len() } else { 0 },
            Level::Task => if self.moment_ok() { self.task_list().len() } else { 0 },
        }
    }

    /// How many entries are shown one level below the cursor: a course shows
    /// its moments only when its grade lets them be seen.
    pub open spec fn visible_children(self) -> nat {
        match self.cursor.level {
            Level::Semester => self.entries(Level::Period),
            Level::Period => self.entries(Level::Course),
            Level::Course => if self.course_ok() && self.course().grade.shows_children() {
                self.entries(Level::Moment)
            } else {
                0
            },
            Level::Moment => self.entries(Level::Task),
            Level::Task => 0,
        }
    }

    pub open spec fn with_cursor(self, c: Cursor) -> UniV {
        UniV { cursor: c, ..self }
    }

    /// The document with the selected period replaced.
    pub open spec fn with_period(self, p: Seq<CourseV>) -> UniV {
        let s = self.cursor.semester as int;
        UniV { menu: self.menu.update(s, self.menu[s].update(self.cursor.period as int, p)), ..self }
    }

    /// The document with the selected course replaced.
    pub open spec fn with_course(self, c: CourseV) -> UniV {
        self.with_period(self.period().update(self.cursor.course as int, c))
    }

    /// The document with the selected moment replaced.
    pub open spec fn with_moment(self, m: MomentV) -> UniV {
        self.with_course(CourseV { moments: self.course().moments.update(self.cursor.moment as int, m), ..self.course() })
    }

    /// The document with one more semester, of two empty periods, at the end.
    pub open spec fn add_semester_spec(self) -> UniV {
        UniV { menu: self.menu.push(seq![Seq::<CourseV>::empty(), Seq::<CourseV>::empty()]), ..self }
    }

    pub open spec fn add_moment_spec(self, code: Seq<char>, grade: Grade, credits: u64, description: Seq<char>) -> UniV {
        if self.course_ok() {
            let m = MomentV { code, grade, credits, description, tasks: None };
            self.with_course(CourseV { moments: self.course().moments.push(m), ..self.course() })
        } else {
            self
        }
    }

    pub open spec fn add_task_spec(self, name: Seq<char>) -> UniV {
        if self.moment_ok() {
            self.with_moment(MomentV { tasks: Some(inserted(self.task_list(), name)), ..self.moment() })
        } else {
            self
        }
    }

    pub open spec fn set_course_spec(self, c: CourseV) -> UniV {
        if self.course_ok() { self.with_course(c) } else { self }
    }

    pub open spec fn set_moment_spec(self, m: MomentV) -> UniV {
        if self.moment_ok() { self.with_moment(m) } else { self }
    }

    pub open spec fn toggle_task_spec(self) -> UniV {
        if self.task_ok() {
            let t = self.task_list()[self.cursor.task as int];
            self.with_moment(MomentV {
                tasks: Some(self.task_list().update(self.cursor.task as int, (t.0, !t.1))),
                ..self.moment()
            })
        } else {
            self
        }
    }

    /// Whether the node at the cursor's level exists and may be deleted;
    /// periods are fixed in number and never are.
    pub open spec fn delete_target_ok(self) -> bool {
        match self.cursor.level {
            Level::Semester => self.sem_ok(),
            Level::Period => false,
            Level::Course => self.course_ok(),
            Level::Moment => self.moment_ok(),
            Level::Task => self.task_ok(),
        }
    }

    /// The document with the targeted node removed, the cursor as it was. A
    /// moment whose last task goes holds no task list at all afterwards.
    pub open spec fn without_target(self) -> UniV {
        match self.cursor.level {
            Level::Semester => UniV { menu: self.menu.remove(self.cursor.semester as int), ..self },
            Level::Period => self,
            Level::Course => self.with_period(self.period().remove(self.cursor.course as int)),
            Level::Moment => self.with_course(
                CourseV { moments: self.course().moments.remove(self.cursor.moment as int), ..self.course() },
            ),
            Level::Task => {
                let rest = self.task_list().remove(self.cursor.task as int);
                self.with_moment(MomentV { tasks: if rest.len() == 0 { None } else { Some(rest) }, ..self.moment() })
            },
        }
    }

    /// Deleting the targeted node: where it is gone and no sibling is left,
    /// the cursor leaves the level; where it pointed at the last sibling, it
    /// moves up one entry; otherwise it stays.
    pub open spec fn delete_spec(self) -> UniV {
        if !self.delete_target_ok() {
            self
        } else {
            let d = self.without_target();
            let n = d.entries(self.cursor.level);
            let pos = self.cursor.index_at(self.cursor.level);
            if n == 0 {
                d.with_cursor(self.cursor.exited())
            } else if pos == n {
                d.with_cursor(self.cursor.moved_up())
            } else {
                d
            }
        }
    }

    /// Entering goes one level deeper only where that level shows an entry.
    pub open spec fn enter_spec(self) -> UniV {
        if self.visible_children() > 0 { self.with_cursor(self.cursor.entered()) } else { self }
    }

    pub open spec fn add_course_spec(self, code: Seq<char>, grade: Grade, name: Seq<char>) -> UniV {
        if self.period_ok() {
            self.with_period(self.period().push(CourseV { code, grade, moments: Seq::empty(), name }))
        } else {
            self
        }
    }
}

/// The selected period of a semester, by index `0` or `1`.
fn period_mut(sem: &mut Semester, p: usize) -> (r: &mut Vec<Course>)
    requires
        p < 2,
    ensures
        period_view(*r) == old(sem)@[p as int],
        final(sem)@ == old(sem)@.update(p as int, period_view(*final(r))),
{
    if p == 0 {
        &mut sem.first
    } else {
        &mut sem.second
    }
}

impl UniInfo {
    /// The selected period, where one is selected.
    fn sel_period_mut(&mut self) -> (r: &mut Vec<Course>)
        requires
            old(self)@.period_ok(),
        ensures
            period_view(*r) == old(self)@.period(),
            final(self)@ == old(self)@.with_period(period_view(*final(r))),
    {
        let s = self.cursor.semester;
        let p = self.cursor.period;
        let sem = &mut self.menu[s];
        period_mut(sem, p)
    }

    /// The selected course, where one is selected.
    fn sel_course_mut(&mut self) -> (r: &mut Course)
        requires
            old(self)@.course_ok(),
        ensures
            r@ == old(self)@.course(),
            final(self)@ == old(self)@.with_course(final(r)@),
    {
        let c = self.cursor.course;
        let per = self.sel_period_mut();
        &mut per[c]
    }

    /// The selected moment, where one is selected.
    fn sel_moment_mut(&mut self) -> (r: &mut Moment)
        requires
            old(self)@.moment_ok(),
        ensures
            r@ == old(self)@.moment(),
            final(self)@ == old(self)@.with_moment(final(r)@),
    {
        let m = self.cursor.moment;
        let course = self.sel_course_mut();
        &mut course.moments[m]
    }

    /// A document of the given semesters, with the cursor on the first one.
    pub fn new(menu: Vec<Semester>) -> (r: UniInfo)
        ensures
            r@ == (UniV { menu: menu@.map_values(|s: Semester| s@), cursor: Cursor::origin() }),
    {
        UniInfo { menu, cursor: Cursor { semester: 0, period: 0, course: 0, moment: 0, task: 0, level: Level::Semester } }
    }

    /// Every semester of a document has exactly two periods.
    pub proof fn lemma_wf(&self)
        ensures
            self@.wf(),
    {
    }

    /// The semesters, in order.
    pub fn menu(&self) -> (r: &Vec<Semester>)
        ensures
            r@.map_values(|s: Semester| s@) == self@.menu,
    {
        &self.menu
    }

    /// The cursor.
    pub fn cursor(&self) -> (r: Cursor)
        ensures
            r == self@.cursor,
    {
        self.cursor
    }

    /// The level the cursor is on.
    pub fn cursor_level(&self) -> (r: Level)
        ensures
            r == self@.cursor.level,
    {
        self.cursor.level
    }

    fn sel_menu_entries(&self) -> (r: usize)
        ensures
            r == self@.entries(Level::Semester),
    {
        self.menu.len()
    }

    fn sel_semester_entries(&self) -> (r: usize)
        ensures
            r == self@.entries(Level::Period),
    {
        if self.cursor.semester < self.menu.len() { 2 } else { 0 }
    }

    fn sel_period_entries(&self) -> (r: usize)
        ensures
            r == self@.entries(Level::Course),
    {
        let s = self.cursor.semester;
        let p = self.cursor.period;
        if s < self.menu.len() && p < 2 {
            if p == 0 { self.menu[s].first.len() } else { self.menu[s].second.len() }
        } else {
            0
        }
    }

    /// The selected course, where one is selected.
    fn sel_course(&self) -> (r: Option<&Course>)
        ensures
            self@.course_ok() ==> (r matches Some(c) && c@ == self@.course()),
            !self@.course_ok() ==> r is None,
    {
        let s = self.cursor.semester;
        let p = self.cursor.period;
        let c = self.cursor.course;
        if s < self.menu.len() && p < 2 {
            let per = if p == 0 { &self.menu[s].first } else { &self.menu[s].second };
            if c < per.len() { Some(&per[c]) } else { None }
        } else {
            None
        }
    }

    fn sel_course_entries(&self) -> (r: usize)
        ensures
            r == self@.entries(Level::Moment),
    {
        match self.sel_course() {
            Some(course) => course.moments.len(),
            None => 0,
        }
    }

    /// The selected moment, where one is selected.
    fn sel_moment(&self) -> (r: Option<&Moment>)
        ensures
            self@.moment_ok() ==> (r matches Some(m) && m@ == self@.moment()),
            !self@.moment_ok() ==> r is None,
    {
        match self.sel_course() {
            Some(course) => if self.cursor.moment < course.moments.len() {
                Some(&course.moments[self.cursor.moment])
            } else {
                None
            },
            None => None,
        }
    }

    fn sel_moment_entries(&self) -> (r: usize)
        ensures
            r == self@.entries(Level::Task),
    {
        match self.sel_moment() {
            Some(moment) => match &moment.tasks {
                Some(tasks) => tasks.len(),
                None => 0,
            },
            None => 0,
        }
    }

    /// Moves the cursor to the next entry of its level, stopping at the last.
    pub fn cursor_down(&mut self)
        ensures
            final(self)@ == old(self)@.with_cursor(
                old(self)@.cursor.moved_down(old(self)@.entries(old(self)@.cursor.level) as usize),
            ),
    {
        let max_value: usize = match self.cursor.level {
            Level::Semester => self.sel_menu_entries(),
            Level::Period => self.sel_semester_entries(),
            Level::Course => self.sel_period_entries(),
            Level::Moment => self.sel_course_entries(),
            Level::Task => self.sel_moment_entries(),
        };
        self.cursor.down(max_value);
    }

    /// Moves the cursor to the previous entry of its level, stopping at 0.
    pub fn cursor_up(&mut self)
        ensures
            final(self)@ == old(self)@.with_cursor(old(self)@.cursor.moved_up()),
    {
        self.cursor.up();
    }

    /// Moves the cursor one level deeper where the next level shows at least
    /// one entry: a course whose grade hides its moments is never entered.
    pub fn cursor_enter(&mut self)
        ensures
            final(self)@ == old(self)@.enter_spec(),
    {
        let num_entries_next_level: usize = match self.cursor.level {
            Level::Semester => self.sel_semester_entries(),
            Level::Period => self.sel_period_entries(),
            Level::Course => match self.sel_course() {
                Some(course) => if course.should_print_moments() {
                    self.sel_course_entries()
                } else {
                    0
                },
                None => 0,
            },
            Level::Moment => self.sel_moment_entries(),
            Level::Task => 0,
        };
        if num_entries_next_level > 0 {
            self.cursor.enter();
        }
    }

    /// Moves the cursor one level shallower.
    pub fn cursor_exit(&mut self)
        ensures
            final(self)@ == old(self)@.with_cursor(old(self)@.cursor.exited()),
    {
        self.cursor.exit();
    }

    /// Adds a semester of two empty periods at the end.
    pub fn add_semester(&mut self)
        ensures
            final(self)@ == old(self)@.add_semester_spec(),
    {
        let sem = Semester { first: Vec::new(), second: Vec::new() };
        proof {
            assert(period_view(sem.first) =~= Seq::<CourseV>::empty());
            assert(period_view(sem.second) =~= Seq::<CourseV>::empty());
        }
        self.menu.push(sem);
    }

    /// Adds a course, with no moments, at the end of the selected period; does
    /// nothing where no period is selected.
    pub fn add_course(&mut self, code: String, grade: Grade, name: String)
        ensures
            final(self)@ == old(self)@.add_course_spec(code@, grade, name@),
    {
        if self.cursor.period < 2 && self.cursor.semester < self.menu.len() {
            let per = self.sel_period_mut();
            let course = Course { code, grade, moments: Vec::new(), name };
            proof {
                assert(course@.moments =~= Seq::<MomentV>::empty());
            }
            per.push(course);
        }
    }

    /// Adds a moment, with no tasks, at the end of the selected course; does
    /// nothing where no course is selected.
    pub fn add_moment(&mut self, code: String, grade: Grade, credits: u64, description: String)
        ensures
            final(self)@ == old(self)@.add_moment_spec(code@, grade, credits, description@),
    {
        if self.cursor.course < self.sel_period_entries() {
            let course = self.sel_course_mut();
            let m = Moment { code, grade, credits, description, tasks: None };
            course.moments.push(m);
        }
    }

    /// Adds task `name`, not completed, to the selected moment, creating its
    /// task list where it has none; does nothing where no moment is selected.
    pub fn add_task(&mut self, name: String)
        ensures
            final(self)@ == old(self)@.add_task_spec(name@),
    {
        if self.cursor.moment < self.sel_course_entries() {
            let moment = self.sel_moment_mut();
            match &mut moment.tasks {
                Some(tasks) => tasks.insert(name),
                None => {
                    let mut tasks = Tasks::new();
                    tasks.insert(name);
                    moment.tasks = Some(tasks);
                },
            }
        }
    }

    /// Deletes the node that the cursor targets. Periods are never deleted.
    /// Afterwards the cursor leaves the level where no sibling is left, and
    /// moves up one entry where it pointed past the new last one.
    pub fn delete_entry(&mut self)
        ensures
            final(self)@ == old(self)@.delete_spec(),
    {
        let level = self.cursor.level;
        let (entries, cursorpos): (usize, usize) = match level {
            Level::Semester => {
                let ix: usize = self.cursor.semester;
                if ix >= self.menu.len() {
                    return;
                }
                let _ = self.menu.remove(ix);
                (self.sel_menu_entries(), ix)
            },
            Level::Period => {
                return;
            },
            Level::Course => {
                let ix: usize = self.cursor.course;
                if ix >= self.sel_period_entries() {
                    return;
                }
                let per = self.sel_period_mut();
                let _ = per.remove(ix);
                (self.sel_period_entries(), ix)
            },
            Level::Moment => {
                let ix: usize = self.cursor.moment;
                if ix >= self.sel_course_entries() {
                    return;
                }
                let course = self.sel_course_mut();
                let _ = course.moments.remove(ix);
                (self.sel_course_entries(), ix)
            },
            Level::Task => {
                let ix: usize = self.cursor.task;
                if ix >= self.sel_moment_entries() {
                    return;
                }
                let moment = self.sel_moment_mut();
                let now_empty = match &mut moment.tasks {
                    Some(tasks) => {
                        tasks.remove(ix);
                        tasks.is_empty()
                    },
                    None => false,
                };
                if now_empty {
                    moment.tasks = None;
                }
                (self.sel_moment_entries(), ix)
            },
        };
        if entries == 0 {
            self.cursor.exit();
        } else if cursorpos == entries {
            self.cursor.up();
        }
    }

    /// Sets the grade of the selected course.
    pub fn set_course_grade(&mut self, new_grade: Grade)
        ensures
            final(self)@ == old(self)@.set_course_spec(CourseV { grade: new_grade, ..old(self)@.course() }),
    {
        if self.cursor.course < self.sel_period_entries() {
            let course = self.sel_course_mut();
            course.grade = new_grade;
        }
    }

    /// Sets the grade of the selected moment.
    pub fn set_moment_grade(&mut self, new_grade: Grade)
        ensures
            final(self)@ == old(self)@.set_moment_spec(MomentV { grade: new_grade, ..old(self)@.moment() }),
    {
        if self.cursor.moment < self.sel_course_entries() {
            let moment = self.sel_moment_mut();
            moment.grade = new_grade;
        }
    }

    /// Sets the code of the selected course.
    pub fn set_course_code(&mut self, new_code: String)
        ensures
            final(self)@ == old(self)@.set_course_spec(CourseV { code: new_code@, ..old(self)@.course() }),
    {
        if self.cursor.course < self.sel_period_entries() {
            let course = self.sel_course_mut();
            course.code = new_code;
        }
    }

    /// Sets the code of the selected moment.
    pub fn set_moment_code(&mut self, new_code: String)
        ensures
            final(self)@ == old(self)@.set_moment_spec(MomentV { code: new_code@, ..old(self)@.moment() }),
    {
        if self.cursor.moment < self.sel_course_entries() {
            let moment = self.sel_moment_mut();
            moment.code = new_code;
        }
    }

    /// Sets the name of the selected course.
    pub fn set_course_name(&mut self, new_name: String)
        ensures
            final(self)@ == old(self)@.set_course_spec(CourseV { name: new_name@, ..old(self)@.course() }),
    {
        if self.cursor.course < self.sel_period_entries() {
            let course = self.sel_course_mut();
            course.name = new_name;
        }
    }

    /// Sets the description of the selected moment.
    pub fn set_moment_description(&mut self, new_description: String)
        ensures
            final(self)@ == old(self)@.set_moment_spec(
                MomentV { description: new_description@, ..old(self)@.moment() },
            ),
    {
        if self.cursor.moment < self.sel_course_entries() {
            let moment = self.sel_moment_mut();
            moment.description = new_description;
        }
    }

    /// Flips the completion of the selected task.
    pub fn toggle_selected_task(&mut self)
        ensures
            final(self)@ == old(self)@.toggle_task_spec(),
    {
        if self.cursor.task < self.sel_moment_entries() {
            let ix = self.cursor.task;
            let moment = self.sel_moment_mut();
            match &mut moment.tasks {
                Some(tasks) => tasks.toggle(ix),
                None => {},
            }
        }
    }
}

impl Course {
    /// Whether the course's moments are shown and navigable: while it is
    /// ongoing or failed, and not once it is passed or marked.
    pub fn should_print_moments(&self) -> (r: bool)
        ensures
            r == self.grade.shows_children(),
    {
        match self.grade {
            Grade::Ongoing => true,
            Grade::Completed(passed) => !passed,
            Grade::Grade(_) | Grade::Traditional(_) => false,
        }
    }
}

/// Deleting a course, moment or task that was the last of its siblings
/// takes the cursor one level up.
pub proof fn lemma_delete_last_sibling_exits(u: UniV)
    requires
        u.cursor.level == Level::Course || u.cursor.level == Level::Moment || u.cursor.level == Level::Task,
        u.delete_target_ok(),
        u.without_target().entries(u.cursor.level) == 0,
    ensures
        u.delete_spec().cursor.level.depth() == u.cursor.level.depth() - 1,
{
}

/// Removing the target leaves the selection above it in place and one
/// sibling fewer.
proof fn lemma_without_target_shape(u: UniV)
    requires
        u.wf(),
        u.delete_target_ok(),
    ensures
        u.without_target().cursor == u.cursor,
        u.without_target().entries(u.cursor.level) == u.entries(u.cursor.level) - 1,
{
    let d = u.without_target();
    let s = u.cursor.semester as int;
    let p = u.cursor.period as int;
    let c = u.cursor.course as int;
    let m = u.cursor.moment as int;
    match u.cursor.level {
        Level::Semester => {},
        Level::Period => {},
        Level::Course => {
            assert(u.menu[s].len() == 2);
        },
        Level::Moment => {
            assert(u.menu[s].len() == 2);
        },
        Level::Task => {
            assert(u.menu[s].len() == 2);
        },
    }
}

/// Deleting the entry at the last index of its level, where siblings remain,
/// leaves the cursor at the new last index of the same level.
pub proof fn lemma_delete_at_end_moves_up(u: UniV)
    requires
        u.wf(),
        u.delete_target_ok(),
        u.cursor.index_at(u.cursor.level) == u.entries(u.cursor.level) - 1,
        u.without_target().entries(u.cursor.level) > 0,
    ensures
        u.delete_spec().cursor.level == u.cursor.level,
        u.delete_spec().entries(u.cursor.level) == u.entries(u.cursor.level) - 1,
        u.delete_spec().cursor.index_at(u.cursor.level) == u.delete_spec().entries(u.cursor.level) - 1,
{
    let d = u.without_target();
    let r = u.delete_spec();
    lemma_without_target_shape(u);
    assert(d.entries(u.cursor.level) == u.entries(u.cursor.level) - 1);
    assert(r.entries(u.cursor.level) == d.entries(u.cursor.level));
}

/// Adding a task to a moment that has none, then deleting that task from
/// the task level, gives the document back exactly: the moment again holds
/// no task list (not an empty one), and the cursor is back on the moment.
pub proof fn lemma_add_then_delete_task(u: UniV, name: Seq<char>)
    requires
        u.wf(),
        u.cursor.level == Level::Moment,
        u.moment_ok(),
        u.moment().tasks is None,
    ensures
        ({
            let a = u.add_task_spec(name);
            let r = a.with_cursor(Cursor { level: Level::Task, task: 0, ..a.cursor }).delete_spec();
            &&& r.menu == u.menu
            &&& r.cursor == Cursor { task: 0, ..u.cursor }
            &&& r.moment_ok()
            &&& r.moment().tasks is None
        }),
{
    let a = u.add_task_spec(name);
    let t = a.with_cursor(Cursor { level: Level::Task, task: 0, ..a.cursor });
    assert(inserted(Seq::empty(), name) =~= seq![(name, false)]);
    let s = u.cursor.semester as int;
    let p = u.cursor.period as int;
    let c = u.cursor.course as int;
    let m = u.cursor.moment as int;
    assert(u.menu[s].len() == 2);
    assert(t.moment_ok());
    assert(t.task_list() == seq![(name, false)]);
    assert(t.task_ok());
    assert(t.task_list().remove(0) =~= Seq::empty());
    let r = t.delete_spec();
    assert(r.menu[s][p][c].moments =~= u.menu[s][p][c].moments);
    assert(r.menu[s][p] =~= u.menu[s][p]);
    assert(r.menu[s] =~= u.menu[s]);
    assert(r.menu =~= u.menu);
}

} // verus!
