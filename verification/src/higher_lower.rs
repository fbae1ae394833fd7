//! Higher or lower: will the next number be above or below this one?

use crate::text::trimmed;
use vstd::prelude::*;

verus! {

/// What the player expects of the next number.
#[derive(Debug, Clone, Copy, PartialEq, Eq, Structural)]
pub enum Guess {
    Higher,
    Lower,
}

/// The lowest and the highest number that is drawn.
pub const LIMITS: (u64, u64) = (1, 13);

/// How many times a player may try.
pub const MAX_LIVES: u64 = 2;

/// How many guesses of one try have to be right.
pub const WINNING_SCORE: u64 = 10;

/// The guess that a line of input makes: `H` for higher, `L` for lower.
pub open spec fn guess_of(word: Seq<char>) -> Option<Guess> {
    if word == "H"@ {
        Some(Guess::Higher)
    } else if word == "L"@ {
        Some(Guess::Lower)
    } else {
        None
    }
}

/// The guess that `word` makes, taken as it is.
pub fn guess_from_word(word: &str) -> (guess: Option<Guess>)
    ensures
        guess == guess_of(word@),
{
    if word.eq("H") {
        Some(Guess::Higher)
    } else if word.eq("L") {
        Some(Guess::Lower)
    } else {
        None
    }
}

/// Reads a guess from a line of input, white space around it dropped; `None`
/// where the line is neither `H` nor `L`.
pub fn parse_guess(input: &str) -> (guess: Option<Guess>)
    ensures
        guess == guess_of(trimmed(input@)),
{
    guess_from_word(input.trim())
}

/// Whether the guess was right: the next number is above the one before and
/// higher was guessed, or below it and lower was guessed. An equal number
/// makes every guess wrong.
pub open spec fn is_right(prev_num: u64, num: u64, guess: Guess) -> bool {
    (num > prev_num && guess == Guess::Higher) || (num < prev_num && guess == Guess::Lower)
}

/// Judges one guess.
pub fn is_correct_guess(prev_num: u64, num: u64, guess: Guess) -> (right: bool)
    ensures
        right == is_right(prev_num, num, guess),
{
    (num > prev_num && guess == Guess::Higher) || (num < prev_num && guess == Guess::Lower)
}

/// How a try ended.
#[derive(Debug, Clone, Copy, PartialEq, Eq, Structural)]
pub enum TryResult {
    /// Enough guesses were right.
    Won,
    /// Too few were right, and this many tries are left.
    TryAgain(u64),
    /// Too few were right on the last try.
    Lost,
}

/// Judges a try that ended with `correct_guesses` right guesses, `lives`
/// tries having been used up before it.
pub fn judge_try(correct_guesses: u64, lives: u64) -> (result: TryResult)
    requires
        lives < MAX_LIVES,
    ensures
        result == if correct_guesses >= WINNING_SCORE {
            TryResult::Won
        } else if lives < MAX_LIVES - 1 {
            TryResult::TryAgain((MAX_LIVES - lives - 1) as u64)
        } else {
            TryResult::Lost
        },
{
    if correct_guesses >= WINNING_SCORE {
        TryResult::Won
    } else if lives < MAX_LIVES - 1 {
        TryResult::TryAgain(MAX_LIVES - lives - 1)
    } else {
        TryResult::Lost
    }
}

} // verus!
