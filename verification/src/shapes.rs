//! Which shape or which quantity a calculator is asked for.

use crate::numbers::{number_entered, read_number};
use crate::text::trimmed;
use vstd::prelude::*;

verus! {

/// The shapes that can be measured.
#[derive(Debug, Clone, Copy, PartialEq, Eq, Structural)]
pub enum ShapeKind {
    Rectangle,
    Cuboid,
}

/// Why a line of input chose no shape.
#[derive(Debug, Clone, Copy, PartialEq, Eq, Structural)]
pub enum ChoiceError {
    /// The line is no number that fits in 32 bits.
    NotANumber,
    /// The number is neither 1 nor 2.
    InvalidChoice,
}

impl ChoiceError {
    /// The error in words.
    pub open spec fn message_text(self) -> Seq<char> {
        match self {
            ChoiceError::NotANumber => "invalid digit found in string"@,
            ChoiceError::InvalidChoice => "Invalid choice"@,
        }
    }

    /// The error in words.
    pub fn message(&self) -> (text: &'static str)
        ensures
            text@ == self.message_text(),
    {
        match self {
            ChoiceError::NotANumber => "invalid digit found in string",
            ChoiceError::InvalidChoice => "Invalid choice",
        }
    }
}

impl ShapeKind {
    /// How many sides are asked for: width and height, and depth for a
    /// cuboid.
    pub fn dimensions(&self) -> (count: usize)
        ensures
            count == match self {
                ShapeKind::Rectangle => 2usize,
                ShapeKind::Cuboid => 3usize,
            },
    {
        match self {
            ShapeKind::Rectangle => 2,
            ShapeKind::Cuboid => 3,
        }
    }
}

/// The shape that a number chooses: 1 a rectangle, 2 a cuboid.
pub open spec fn shape_of(choice: u32) -> Option<ShapeKind> {
    if choice == 1 {
        Some(ShapeKind::Rectangle)
    } else if choice == 2 {
        Some(ShapeKind::Cuboid)
    } else {
        None
    }
}

/// The shape that the number `choice` stands for.
pub fn shape_from_choice(choice: u32) -> (kind: Result<ShapeKind, ChoiceError>)
    ensures
        match kind {
            Ok(k) => shape_of(choice) == Some(k),
            Err(e) => shape_of(choice) is None && e == ChoiceError::InvalidChoice,
        },
{
    if choice == 1 {
        Ok(ShapeKind::Rectangle)
    } else if choice == 2 {
        Ok(ShapeKind::Cuboid)
    } else {
        Err(ChoiceError::InvalidChoice)
    }
}

/// Reads the number of a shape from a line of input, white space around it
/// dropped. The number is not yet held against the shapes there are.
pub fn read_choice(line: &str) -> (choice: Result<u32, ChoiceError>)
    ensures
        match choice {
            Ok(n) => number_entered(line@) == Some(n as u64),
            Err(e) => e == ChoiceError::NotANumber && match number_entered(line@) {
                Some(n) => n > u32::MAX,
                None => true,
            },
        },
{
    match read_number(line) {
        Some(num) => if num <= u32::MAX as u64 {
            Ok(num as u32)
        } else {
            Err(ChoiceError::NotANumber)
        },
        None => Err(ChoiceError::NotANumber),
    }
}

/// What a speed calculator is asked for.
#[derive(Debug, Clone, Copy, PartialEq, Eq, Structural)]
pub enum QueryKind {
    /// The distance, from speed and time.
    Distance,
    /// The speed, from distance and time.
    Speed,
}

impl QueryKind {
    /// The quantity in words.
    pub open spec fn name_text(self) -> Seq<char> {
        match self {
            QueryKind::Distance => "Distance"@,
            QueryKind::Speed => "Speed"@,
        }
    }

    /// The unit of the quantity.
    pub open spec fn unit_text(self) -> Seq<char> {
        match self {
            QueryKind::Distance => "miles"@,
            QueryKind::Speed => "mph"@,
        }
    }

    /// The quantity in words.
    pub fn name(&self) -> (text: &'static str)
        ensures
            text@ == self.name_text(),
    {
        match self {
            QueryKind::Distance => "Distance",
            QueryKind::Speed => "Speed",
        }
    }

    /// The unit of the quantity.
    pub fn unit(&self) -> (text: &'static str)
        ensures
            text@ == self.unit_text(),
    {
        match self {
            QueryKind::Distance => "miles",
            QueryKind::Speed => "mph",
        }
    }
}

/// The quantity that a word asks for: `1` the distance, `2` the speed.
pub open spec fn query_of(word: Seq<char>) -> Option<QueryKind> {
    if word == "1"@ {
        Some(QueryKind::Distance)
    } else if word == "2"@ {
        Some(QueryKind::Speed)
    } else {
        None
    }
}

/// The quantity that `word` asks for, taken as it is.
pub fn query_from_word(word: &str) -> (kind: Option<QueryKind>)
    ensures
        kind == query_of(word@),
{
    if word.eq("1") {
        Some(QueryKind::Distance)
    } else if word.eq("2") {
        Some(QueryKind::Speed)
    } else {
        None
    }
}

/// Reads the quantity from a line of input, white space around it dropped.
pub fn parse_query_kind(input: &str) -> (kind: Option<QueryKind>)
    ensures
        kind == query_of(trimmed(input@)),
{
    query_from_word(input.trim())
}

} // verus!
