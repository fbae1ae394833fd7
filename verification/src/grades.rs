//! UMS scores and the grades they stand for.

use crate::numbers::{number_entered, read_number};
use vstd::prelude::*;

verus! {

/// A score on the uniform mark scale.
pub type UmsScore = u32;

/// The highest score there is.
pub const MAX_SCORE: UmsScore = 100;

/// Why a score has no grade.
#[derive(Debug, Clone, Copy, PartialEq, Eq, Structural)]
pub enum GradeError {
    /// The score is above 100.
    OutOfRange,
}

impl GradeError {
    /// The error in words.
    pub open spec fn message_text(self) -> Seq<char> {
        "UMS score out of range."@
    }

    /// The error in words.
    pub fn message(&self) -> (text: &'static str)
        ensures
            text@ == self.message_text(),
    {
        "UMS score out of range."
    }
}

/// The grade of a score: A from 80, B from 70, C from 60, D from 50, F
/// below; none above 100.
pub open spec fn grade_of(ums: int) -> Option<char> {
    if ums > 100 {
        None
    } else if ums >= 80 {
        Some('A')
    } else if ums >= 70 {
        Some('B')
    } else if ums >= 60 {
        Some('C')
    } else if ums >= 50 {
        Some('D')
    } else {
        Some('F')
    }
}

/// Turns a score into its grade; a score above 100 is an error.
pub fn ums_to_grade(ums: UmsScore) -> (grade: Result<char, GradeError>)
    ensures
        match grade {
            Ok(g) => grade_of(ums as int) == Some(g),
            Err(e) => grade_of(ums as int) is None && e == GradeError::OutOfRange,
        },
{
    if ums > MAX_SCORE {
        Err(GradeError::OutOfRange)
    } else if ums >= 80 {
        Ok('A')
    } else if ums >= 70 {
        Ok('B')
    } else if ums >= 60 {
        Ok('C')
    } else if ums >= 50 {
        Ok('D')
    } else {
        Ok('F')
    }
}

/// Whether a score that was entered is accepted: it is at most 100.
pub fn is_valid_score(num: UmsScore) -> (ok: bool)
    ensures
        ok == (num <= 100),
        ok == grade_of(num as int) is Some,
{
    num <= MAX_SCORE
}

/// The grades of two modules and of the whole.
#[derive(Debug, Clone, Copy, PartialEq, Eq, Structural)]
pub struct Results {
    pub module1: char,
    pub module2: char,
    /// The grade of the mean of both scores, rounded down.
    pub overall: char,
}

/// Grades both modules and their mean, rounded down. A score above 100 is an
/// error.
pub fn grade_results(module1: UmsScore, module2: UmsScore) -> (results: Result<
    Results,
    GradeError,
>)
    ensures
        match results {
            Ok(r) => {
                &&& grade_of(module1 as int) == Some(r.module1)
                &&& grade_of(module2 as int) == Some(r.module2)
                &&& grade_of((module1 + module2) / 2) == Some(r.overall)
            },
            Err(e) => (module1 > 100 || module2 > 100) && e == GradeError::OutOfRange,
        },
{
    let first = ums_to_grade(module1)?;
    let second = ums_to_grade(module2)?;
    let overall = ums_to_grade((module1 + module2) / 2)?;
    Ok(Results { module1: first, module2: second, overall })
}

/// Reads a score from a line of input: a number up to 100; `None` for
/// anything else.
pub fn read_module_result(input: &str) -> (score: Option<UmsScore>)
    ensures
        score == match number_entered(input@) {
            Some(n) if n <= 100 => Some(n as u32),
            _ => None,
        },
{
    match read_number(input) {
        Some(num) => if num <= MAX_SCORE as u64 {
            Some(num as u32)
        } else {
            None
        },
        None => None,
    }
}

} // verus!
