//! Credit totals and grade averages over courses.
//!
//! Credits are counted in thousandths of a credit and grades in half points,
//! so every sum is exact. A total too large for a `u64` stops at `u64::MAX`.
use vstd::prelude::*;
use crate::grade::Grade;
use crate::uni_info::{Course, CourseV, MomentV, period_view};

verus! {

/// `x`, or `u64::MAX` where it is larger.
pub open spec fn sat(x: int) -> u64 {
    if x > u64::MAX { u64::MAX } else { x as u64 }
}

/// The credits of all moments.
pub open spec fn credits_sum(ms: Seq<MomentV>) -> int
    decreases ms.len(),
{
    if ms.len() == 0 { 0 } else { credits_sum(ms.drop_last()) + ms.last().credits }
}

/// The credits of the moments whose grade accrues them.
pub open spec fn accrued_sum(ms: Seq<MomentV>) -> int
    decreases ms.len(),
{
    if ms.len() == 0 {
        0
    } else {
        accrued_sum(ms.drop_last()) + if ms.last().grade.accrues() { ms.last().credits as int } else { 0 }
    }
}

/// Totals over a list of courses, before any bound.
pub struct Tally {
    pub accrued: int,
    pub total: int,
    pub mark_sum: int,
    pub marks: int,
}

/// What one course adds to a tally: its credits, and its mark if it has one.
pub open spec fn course_tally(c: CourseV) -> Tally {
    Tally {
        accrued: accrued_sum(c.moments),
        total: credits_sum(c.moments),
        mark_sum: if c.grade.is_marked() { c.grade.half_points() } else { 0 },
        marks: if c.grade.is_marked() { 1 } else { 0 },
    }
}

pub open spec fn tally_add(a: Tally, b: Tally) -> Tally {
    Tally {
        accrued: a.accrued + b.accrued,
        total: a.total + b.total,
        mark_sum: a.mark_sum + b.mark_sum,
        marks: a.marks + b.marks,
    }
}

pub open spec fn tally_zero() -> Tally {
    Tally { accrued: 0, total: 0, mark_sum: 0, marks: 0 }
}

/// The totals over all courses of the list.
pub open spec fn tally(cs: Seq<CourseV>) -> Tally
    decreases cs.len(),
{
    if cs.len() == 0 { tally_zero() } else { tally_add(tally(cs.drop_last()), course_tally(cs.last())) }
}

/// Tallying two lists one after the other is tallying their concatenation.
pub proof fn lemma_tally_concat(a: Seq<CourseV>, b: Seq<CourseV>)
    ensures
        tally(a + b) == tally_add(tally(a), tally(b)),
    decreases b.len(),
{
    if b.len() == 0 {
        assert(a + b =~= a);
    } else {
        assert((a + b).drop_last() =~= a + b.drop_last());
        lemma_tally_concat(a, b.drop_last());
    }
}

/// The average of `n` marks that sum to `sum` half points, in thousandths and
/// rounded half up: `sum / (2 * n)` to three decimals.
pub open spec fn average_thousandths(sum: int, n: int) -> int {
    (sum * 1000 + n) / (2 * n)
}

/// Running totals over courses, each stopped at `u64::MAX`.
#[derive(Clone, Copy, Debug, PartialEq, Eq)]
pub struct Progress {
    /// Accrued credits, in thousandths.
    pub accrued: u64,
    /// All credits, in thousandths.
    pub total: u64,
    /// The marks added up, in half points.
    pub mark_sum: u64,
    /// How many courses carry a mark.
    pub marks: u64,
}

impl Progress {
    /// Whether these totals are those of the tally, each bounded.
    pub open spec fn of(self, t: Tally) -> bool {
        &&& self.accrued == sat(t.accrued)
        &&& self.total == sat(t.total)
        &&& self.mark_sum == sat(t.mark_sum)
        &&& self.marks == sat(t.marks)
    }

    /// Nothing counted yet.
    pub fn zero() -> (r: Progress)
        ensures
            r.of(tally_zero()),
    {
        Progress { accrued: 0, total: 0, mark_sum: 0, marks: 0 }
    }

    /// The totals of both, each bounded.
    pub fn add(self, o: Progress) -> (r: Progress)
        ensures
            r.accrued == sat(self.accrued + o.accrued),
            r.total == sat(self.total + o.total),
            r.mark_sum == sat(self.mark_sum + o.mark_sum),
            r.marks == sat(self.marks + o.marks),
    {
        Progress {
            accrued: self.accrued.saturating_add(o.accrued),
            total: self.total.saturating_add(o.total),
            mark_sum: self.mark_sum.saturating_add(o.mark_sum),
            marks: self.marks.saturating_add(o.marks),
        }
    }

    /// The totals over a list of courses.
    pub fn of_courses(courses: &Vec<Course>) -> (r: Progress)
        ensures
            r.of(tally(period_view(*courses))),
    {
        let ghost cs = period_view(*courses);
        let mut p = Progress::zero();
        let mut i: usize = 0;
        while i < courses.len()
            invariant
                i <= courses.len(),
                cs == period_view(*courses),
                p.of(tally(cs.take(i as int))),
            decreases courses.len() - i,
        {
            let c = &courses[i];
            let one = Progress {
                accrued: c.sum_credits(),
                total: c.max_credits(),
                mark_sum: match c.grade {
                    Grade::Grade(n) => if 3 <= n && n <= 5 { 2 * n as u64 } else { 0 },
                    Grade::Traditional(ch) => if 'A' <= ch && ch <= 'E' {
                        (10 - (ch as u32 - 'A' as u32)) as u64
                    } else {
                        0
                    },
                    _ => 0,
                },
                marks: if c.grade.is_valid() && matches!(c.grade, Grade::Grade(_) | Grade::Traditional(_)) {
                    1
                } else {
                    0
                },
            };
            proof {
                assert(cs.take(i + 1).drop_last() =~= cs.take(i as int));
                assert(cs.take(i + 1).last() == c@);
                lemma_tally_nonneg(cs.take(i as int));
                lemma_moment_sums_nonneg(c@.moments);
                assert(one.of(course_tally(c@)));
            }
            proof {
                lemma_add_of(p, one, tally(cs.take(i as int)), course_tally(c@));
            }
            p = p.add(one);
            i = i + 1;
        }
        assert(cs.take(i as int) =~= cs);
        p
    }

    /// The average mark in thousandths, rounded half up; `None` where no
    /// course carries a mark, so that no average exists.
    pub fn average(&self) -> (r: Option<u128>)
        ensures
            self.marks == 0 ==> r is None,
            self.marks > 0 ==> r == Some(average_thousandths(self.mark_sum as int, self.marks as int) as u128),
    {
        if self.marks == 0 {
            None
        } else {
            let sum = self.mark_sum as u128;
            let n = self.marks as u128;
            proof {
                assert(sum * 1000 + n <= u64::MAX * 1000 + u64::MAX) by (nonlinear_arith)
                    requires sum <= u64::MAX, n <= u64::MAX;
            }
            Some((sum * 1000 + n) / (2 * n))
        }
    }
}

/// Adding bounded totals bounds their sum.
pub proof fn lemma_add_of(p: Progress, q: Progress, a: Tally, b: Tally)
    requires
        p.of(a),
        q.of(b),
        a.accrued >= 0 && a.total >= 0 && a.mark_sum >= 0 && a.marks >= 0,
        b.accrued >= 0 && b.total >= 0 && b.mark_sum >= 0 && b.marks >= 0,
    ensures
        ({
            let r = Progress {
                accrued: sat(p.accrued + q.accrued),
                total: sat(p.total + q.total),
                mark_sum: sat(p.mark_sum + q.mark_sum),
                marks: sat(p.marks + q.marks),
            };
            r.of(tally_add(a, b))
        }),
{
}

pub(crate) proof fn lemma_tally_nonneg(cs: Seq<CourseV>)
    ensures
        tally(cs).accrued >= 0,
        tally(cs).total >= 0,
        tally(cs).mark_sum >= 0,
        tally(cs).marks >= 0,
    decreases cs.len(),
{
    if cs.len() > 0 {
        lemma_tally_nonneg(cs.drop_last());
        lemma_moment_sums_nonneg(cs.last().moments);
    }
}

proof fn lemma_moment_sums_nonneg(ms: Seq<MomentV>)
    ensures
        credits_sum(ms) >= 0,
        accrued_sum(ms) >= 0,
    decreases ms.len(),
{
    if ms.len() > 0 {
        lemma_moment_sums_nonneg(ms.drop_last());
    }
}

impl Course {
    /// The credits of the moments that count as accrued (every grade but
    /// ongoing and failed), in thousandths.
    pub fn sum_credits(&self) -> (r: u64)
        ensures
            r == sat(accrued_sum(self@.moments)),
    {
        let ghost ms = self@.moments;
        let mut acc: u64 = 0;
        let mut i: usize = 0;
        while i < self.moments.len()
            invariant
                i <= self.moments.len(),
                ms == self@.moments,
                acc == sat(accrued_sum(ms.take(i as int))),
            decreases self.moments.len() - i,
        {
            let m = &self.moments[i];
            proof {
                assert(ms.take(i + 1).drop_last() =~= ms.take(i as int));
                lemma_moment_sums_nonneg(ms.take(i as int));
            }
            if m.grade.accrues_credits() {
                acc = acc.saturating_add(m.credits);
            }
            i = i + 1;
        }
        assert(ms.take(i as int) =~= ms);
        acc
    }

    /// The credits of all moments, in thousandths.
    pub fn max_credits(&self) -> (r: u64)
        ensures
            r == sat(credits_sum(self@.moments)),
    {
        let ghost ms = self@.moments;
        let mut acc: u64 = 0;
        let mut i: usize = 0;
        while i < self.moments.len()
            invariant
                i <= self.moments.len(),
                ms == self@.moments,
                acc == sat(credits_sum(ms.take(i as int))),
            decreases self.moments.len() - i,
        {
            proof {
                assert(ms.take(i + 1).drop_last() =~= ms.take(i as int));
                lemma_moment_sums_nonneg(ms.take(i as int));
            }
            acc = acc.saturating_add(self.moments[i].credits);
            i = i + 1;
        }
        assert(ms.take(i as int) =~= ms);
        acc
    }
}

} // verus!
