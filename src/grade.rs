//! Grades of courses and moments, and their encoding as a single JSON scalar.
//!
//! A grade is stored without a tag: the JSON type of the value alone tells the
//! variants apart (a one-letter string, a boolean, an integer, or `null`).
use vstd::prelude::*;

verus! {

broadcast use vstd::string::group_string_axioms;

/// The outcome recorded for a course or a moment.
#[derive(Clone, Copy, Debug, PartialEq, Eq, Structural)]
pub enum Grade {
    /// A letter grade, `A` (best) to `E`.
    Traditional(char),
    /// Pass (`true`) or fail (`false`) without a mark.
    Completed(bool),
    /// A numeric grade, 3 to 5.
    Grade(u8),
    /// Not finished yet.
    Ongoing,
}

/// One JSON scalar, told apart by its JSON type.
#[derive(Debug, PartialEq, Eq)]
pub enum Scalar {
    Bool(bool),
    Number(u64),
    Text(String),
    Null,
}

/// The spec-level picture of a `Scalar`.
pub enum ScalarV {
    Bool(bool),
    Number(u64),
    Text(Seq<char>),
    Null,
}

impl View for Scalar {
    type V = ScalarV;

    open spec fn view(&self) -> ScalarV {
        match self {
            Scalar::Bool(b) => ScalarV::Bool(*b),
            Scalar::Number(n) => ScalarV::Number(*n),
            Scalar::Text(t) => ScalarV::Text(t@),
            Scalar::Null => ScalarV::Null,
        }
    }
}

impl Grade {
    /// Whether the grade is in its allowed range: letters `A..=E`, numbers `3..=5`.
    pub open spec fn valid(self) -> bool {
        match self {
            Grade::Traditional(c) => 'A' <= c && c <= 'E',
            Grade::Grade(n) => 3 <= n && n <= 5,
            _ => true,
        }
    }

    /// Whether the grade carries a mark, in range, that enters an average.
    pub open spec fn is_marked(self) -> bool {
        (self is Traditional || self is Grade) && self.valid()
    }

    /// The mark in half points: 3 to 5 become 6 to 10; `A` is 10, `B` 9, down
    /// to `E` at 6.
    pub open spec fn half_points(self) -> int {
        match self {
            Grade::Traditional(c) => 10 - (c as int - 'A' as int),
            Grade::Grade(n) => 2 * n as int,
            _ => 0,
        }
    }

    /// Whether credits under this grade count as accrued: every grade but
    /// `Ongoing` and a failed `Completed`.
    pub open spec fn accrues(self) -> bool {
        !(self is Ongoing || self == Grade::Completed(false))
    }

    /// Whether the children of a course with this grade are shown and
    /// navigable: only while it is ongoing or failed.
    pub open spec fn shows_children(self) -> bool {
        self is Ongoing || self == Grade::Completed(false)
    }

    /// The scalar that encodes the grade.
    pub open spec fn scalar_of(self) -> ScalarV {
        match self {
            Grade::Traditional(c) => ScalarV::Text(seq![c]),
            Grade::Completed(b) => ScalarV::Bool(b),
            Grade::Grade(n) => ScalarV::Number(n as u64),
            Grade::Ongoing => ScalarV::Null,
        }
    }

    /// The grade that a scalar decodes to, if it encodes a valid one.
    pub open spec fn from_scalar_spec(s: ScalarV) -> Option<Grade> {
        match s {
            ScalarV::Bool(b) => Some(Grade::Completed(b)),
            ScalarV::Number(n) => if 3 <= n && n <= 5 {
                Some(Grade::Grade(n as u8))
            } else {
                None
            },
            ScalarV::Text(t) => if t.len() == 1 && 'A' <= t[0] && t[0] <= 'E' {
                Some(Grade::Traditional(t[0]))
            } else {
                None
            },
            ScalarV::Null => Some(Grade::Ongoing),
        }
    }

    /// Whether the grade is in its allowed range.
    pub fn is_valid(&self) -> (r: bool)
        ensures
            r == self.valid(),
    {
        match self {
            Grade::Traditional(c) => 'A' <= *c && *c <= 'E',
            Grade::Grade(n) => 3 <= *n && *n <= 5,
            _ => true,
        }
    }

    /// Whether credits under this grade count as accrued.
    pub fn accrues_credits(&self) -> (r: bool)
        ensures
            r == self.accrues(),
    {
        match self {
            Grade::Ongoing => false,
            Grade::Completed(passed) => *passed,
            _ => true,
        }
    }

    /// Encodes the grade as one JSON scalar: a letter as a one-character
    /// string, pass/fail as a boolean, a number as an integer, ongoing as null.
    pub fn to_scalar(&self) -> (r: Scalar)
        ensures
            r@ == self.scalar_of(),
    {
        match self {
            Grade::Traditional(c) => {
                let t = crate::text::char_string(*c);
                Scalar::Text(t)
            },
            Grade::Completed(b) => Scalar::Bool(*b),
            Grade::Grade(n) => Scalar::Number(*n as u64),
            Grade::Ongoing => Scalar::Null,
        }
    }

    /// Decodes a grade from one JSON scalar, choosing the variant by the
    /// scalar's JSON type; `None` when the value is out of range.
    pub fn from_scalar(s: &Scalar) -> (r: Option<Grade>)
        ensures
            r == Grade::from_scalar_spec(s@),
            r matches Some(g) ==> g.valid(),
    {
        match s {
            Scalar::Bool(b) => Some(Grade::Completed(*b)),
            Scalar::Number(n) => if 3 <= *n && *n <= 5 {
                Some(Grade::Grade(*n as u8))
            } else {
                None
            },
            Scalar::Text(t) => {
                let mut it = t.as_str().chars();
                let first = it.next();
                let second = it.next();
                match (first, second) {
                    (Some(c), None) => if 'A' <= c && c <= 'E' {
                        Some(Grade::Traditional(c))
                    } else {
                        None
                    },
                    _ => None,
                }
            },
            Scalar::Null => Some(Grade::Ongoing),
        }
    }
}

/// Encoding a valid grade and decoding the scalar gives the grade back, so
/// the four variants are never confused with one another: a failed
/// `Completed` stays a boolean, a number stays a number, `Ongoing` stays null.
pub proof fn lemma_grade_round_trip(g: Grade)
    requires
        g.valid(),
    ensures
        Grade::from_scalar_spec(g.scalar_of()) == Some(g),
{
}

} // verus!
