//! Navigation cursor over the grade tree.
//!
//! A `Cursor` records one index per tree level together with the level it
//! currently addresses. Leaving a level resets the index of the level that was
//! left, so a cursor synthesised while walking the tree (all deeper indices
//! zero) compares equal to the live cursor exactly when they address the same
//! node.
use vstd::prelude::*;

verus! {

/// The tier of the tree that a cursor addresses, shallowest first.
#[derive(Clone, Copy, Debug, PartialEq, Eq, Structural)]
pub enum Level {
    Semester,
    Period,
    Course,
    Moment,
    Task,
}

impl Level {
    /// Depth of the level: `Semester` is 0, `Task` is 4.
    pub open spec fn depth(self) -> int {
        match self {
            Level::Semester => 0,
            Level::Period => 1,
            Level::Course => 2,
            Level::Moment => 3,
            Level::Task => 4,
        }
    }

    /// The level at a depth in `0..=4`.
    pub open spec fn at_depth(d: int) -> Level {
        if d <= 0 {
            Level::Semester
        } else if d == 1 {
            Level::Period
        } else if d == 2 {
            Level::Course
        } else if d == 3 {
            Level::Moment
        } else {
            Level::Task
        }
    }
}

/// A position in the tree: one index per level, and the level addressed.
#[derive(Clone, Copy, Debug, PartialEq, Eq, Structural)]
pub struct Cursor {
    pub semester: usize,
    pub period: usize,
    pub course: usize,
    pub moment: usize,
    pub task: usize,
    pub level: Level,
}

impl Default for Cursor {
    fn default() -> (r: Cursor)
        ensures
            r == Cursor::origin(),
    {
        Cursor { semester: 0, period: 0, course: 0, moment: 0, task: 0, level: Level::Semester }
    }
}

impl Cursor {
    /// All indices zero, at the semester level.
    pub open spec fn origin() -> Cursor {
        Cursor { semester: 0, period: 0, course: 0, moment: 0, task: 0, level: Level::Semester }
    }

    /// The index that the cursor records for level `l`.
    pub open spec fn index_at(self, l: Level) -> usize {
        match l {
            Level::Semester => self.semester,
            Level::Period => self.period,
            Level::Course => self.course,
            Level::Moment => self.moment,
            Level::Task => self.task,
        }
    }

    /// The cursor with the index of level `l` replaced by `v`.
    pub open spec fn with_index(self, l: Level, v: usize) -> Cursor {
        match l {
            Level::Semester => Cursor { semester: v, ..self },
            Level::Period => Cursor { period: v, ..self },
            Level::Course => Cursor { course: v, ..self },
            Level::Moment => Cursor { moment: v, ..self },
            Level::Task => Cursor { task: v, ..self },
        }
    }

    /// The cursor one level deeper; at `Task` it stays.
    pub open spec fn entered(self) -> Cursor {
        Cursor { level: Level::at_depth(if self.level.depth() < 4 { self.level.depth() + 1 } else { 4 }), ..self }
    }

    /// The cursor one level shallower, with the index of the level it left reset
    /// to 0; at `Semester` the level stays and the semester index is reset.
    pub open spec fn exited(self) -> Cursor {
        let reset = self.with_index(self.level, 0);
        Cursor { level: Level::at_depth(if self.level.depth() > 0 { self.level.depth() - 1 } else { 0 }), ..reset }
    }

    /// The cursor one entry up at its level, stopping at 0.
    pub open spec fn moved_up(self) -> Cursor {
        let i = self.index_at(self.level);
        self.with_index(self.level, if i > 0 { (i - 1) as usize } else { 0 })
    }

    /// The cursor one entry down at its level, stopping at `max - 1`; with
    /// `max == 0` it stays.
    pub open spec fn moved_down(self, max: usize) -> Cursor {
        let i = self.index_at(self.level);
        if max == 0 {
            self
        } else {
            self.with_index(self.level, if i + 1 < max { (i + 1) as usize } else { (max - 1) as usize })
        }
    }

    /// Moves one level deeper, unless already at `Task`.
    pub fn enter(&mut self)
        ensures
            *final(self) == old(self).entered(),
    {
        match self.level {
            Level::Semester => self.level = Level::Period,
            Level::Period => self.level = Level::Course,
            Level::Course => self.level = Level::Moment,
            Level::Moment => self.level = Level::Task,
            Level::Task => {},
        }
    }

    /// Moves one level shallower and resets the index of the level it left, so
    /// that it compares equal to cursors built with those indices left at 0.
    /// At the semester level only the semester index is reset.
    pub fn exit(&mut self)
        ensures
            *final(self) == old(self).exited(),
    {
        match self.level {
            Level::Semester => {
                self.semester = 0;
            },
            Level::Period => {
                self.level = Level::Semester;
                self.period = 0;
            },
            Level::Course => {
                self.level = Level::Period;
                self.course = 0;
            },
            Level::Moment => {
                self.level = Level::Course;
                self.moment = 0;
            },
            Level::Task => {
                self.level = Level::Moment;
                self.task = 0;
            },
        }
    }

    /// Moves to the previous entry of the current level, stopping at 0.
    pub fn up(&mut self)
        ensures
            *final(self) == old(self).moved_up(),
    {
        match self.level {
            Level::Semester => self.semester = self.semester.saturating_sub(1),
            Level::Period => self.period = self.period.saturating_sub(1),
            Level::Course => self.course = self.course.saturating_sub(1),
            Level::Moment => self.moment = self.moment.saturating_sub(1),
            Level::Task => self.task = self.task.saturating_sub(1),
        }
    }

    /// Moves to the next entry of the current level, never reaching `max`:
    /// the index becomes the smaller of itself plus one and `max - 1`. With
    /// `max == 0` there is no entry to move to and the cursor stays.
    pub fn down(&mut self, max: usize)
        ensures
            *final(self) == old(self).moved_down(max),
    {
        if max == 0 {
            return;
        }
        let last: usize = max - 1;
        match self.level {
            Level::Semester => self.semester = if self.semester < last { self.semester + 1 } else { last },
            Level::Period => self.period = if self.period < last { self.period + 1 } else { last },
            Level::Course => self.course = if self.course < last { self.course + 1 } else { last },
            Level::Moment => self.moment = if self.moment < last { self.moment + 1 } else { last },
            Level::Task => self.task = if self.task < last { self.task + 1 } else { last },
        }
    }
}

/// The cursor after a sequence of level moves: `true` enters, `false` exits.
pub open spec fn run_moves(c: Cursor, moves: Seq<bool>) -> Cursor
    decreases moves.len(),
{
    if moves.len() == 0 {
        c
    } else {
        let next = if moves[0] { c.entered() } else { c.exited() };
        run_moves(next, moves.drop_first())
    }
}

/// A depth walked by the same moves, each step clamped to `0..=4`.
pub open spec fn clamped_walk(d: int, moves: Seq<bool>) -> int
    decreases moves.len(),
{
    if moves.len() == 0 {
        d
    } else {
        let next = if moves[0] { if d < 4 { d + 1 } else { 4 } } else { if d > 0 { d - 1 } else { 0 } };
        clamped_walk(next, moves.drop_first())
    }
}

/// Whatever sequence of `enter` and `exit` calls is made, the level stays
/// between `Semester` and `Task`: each move deeper stops at `Task`, each move
/// shallower stops at `Semester`, and the depth reached is the clamped walk.
pub proof fn lemma_level_stays_in_range(c: Cursor, moves: Seq<bool>)
    ensures
        0 <= run_moves(c, moves).level.depth() <= 4,
        run_moves(c, moves).level.depth() == clamped_walk(c.level.depth(), moves),
    decreases moves.len(),
{
    if moves.len() > 0 {
        let next = if moves[0] { c.entered() } else { c.exited() };
        lemma_level_stays_in_range(next, moves.drop_first());
    }
}

} // verus!
