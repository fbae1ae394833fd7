//! The number guessing game, played either way round: the answers to a
//! player's guesses, and the computer's search by halving.

use crate::numbers::{number_entered, read_number};
use crate::text::{lowercase, trimmed};
use vstd::prelude::*;

verus! {

/// The lowest and the highest number that can be the secret.
pub const GUESS_RNG: (u64, u64) = (1, 100);

/// Who guesses.
#[derive(Debug, Clone, Copy, PartialEq, Eq, Structural)]
pub enum Guesser {
    Human,
    Computer,
}

/// What is said of a guess.
#[derive(Debug, Clone, Copy, PartialEq, Eq, Structural)]
pub enum GuessResult {
    TooLow,
    TooHigh,
    Correct,
}

/// The guesser that a line of input chooses: `y` for the human, `n` for the
/// computer.
pub open spec fn guesser_of(word: Seq<char>) -> Option<Guesser> {
    if word == "y"@ {
        Some(Guesser::Human)
    } else if word == "n"@ {
        Some(Guesser::Computer)
    } else {
        None
    }
}

/// The guesser that `word` chooses, taken as it is.
pub fn guesser_from_word(word: &str) -> (guesser: Option<Guesser>)
    ensures
        guesser == guesser_of(word@),
{
    if word.eq("y") {
        Some(Guesser::Human)
    } else if word.eq("n") {
        Some(Guesser::Computer)
    } else {
        None
    }
}

/// Reads the guesser from a line of input: white space around the letter is
/// dropped and upper case accepted.
pub fn parse_guesser(input: &str) -> (guesser: Option<Guesser>)
    ensures
        guesser == guesser_of(lowercase(trimmed(input@))),
{
    let word = input.trim().to_lowercase();
    guesser_from_word(word.as_str())
}

/// What a line of input says of the computer's guess: `H` for too high, `L`
/// for too low, `C` for correct.
pub open spec fn answer_of(word: Seq<char>) -> Option<GuessResult> {
    if word == "H"@ {
        Some(GuessResult::TooHigh)
    } else if word == "L"@ {
        Some(GuessResult::TooLow)
    } else if word == "C"@ {
        Some(GuessResult::Correct)
    } else {
        None
    }
}

/// What `word` says of a guess, taken as it is.
pub fn answer_from_word(word: &str) -> (answer: Option<GuessResult>)
    ensures
        answer == answer_of(word@),
{
    if word.eq("H") {
        Some(GuessResult::TooHigh)
    } else if word.eq("L") {
        Some(GuessResult::TooLow)
    } else if word.eq("C") {
        Some(GuessResult::Correct)
    } else {
        None
    }
}

/// Reads the answer to the computer's guess from a line of input, white
/// space around it dropped.
pub fn parse_answer(input: &str) -> (answer: Option<GuessResult>)
    ensures
        answer == answer_of(trimmed(input@)),
{
    answer_from_word(input.trim())
}

/// Whether a number that was entered can be a guess: it lies from 1 to 100.
pub fn is_valid_guess(num: u64) -> (ok: bool)
    ensures
        ok == (1 <= num <= 100),
{
    !(num < GUESS_RNG.0 || num > GUESS_RNG.1)
}

/// The true answer to `guess` where `secret` is sought.
pub open spec fn truth(guess: u64, secret: u64) -> GuessResult {
    if guess < secret {
        GuessResult::TooLow
    } else if guess > secret {
        GuessResult::TooHigh
    } else {
        GuessResult::Correct
    }
}

/// Answers a guess at the secret number.
pub fn check_guess(guess: u64, secret: u64) -> (answer: GuessResult)
    ensures
        answer == truth(guess, secret),
{
    if guess < secret {
        GuessResult::TooLow
    } else if guess > secret {
        GuessResult::TooHigh
    } else {
        GuessResult::Correct
    }
}

/// The numbers among which the computer still seeks the secret: those from
/// `left` to `right`, both included.
#[derive(Debug, Clone, Copy, PartialEq, Eq, Structural)]
pub struct Search {
    pub left: u64,
    pub right: u64,
}

impl Search {
    /// Whether `secret` is among the numbers still sought.
    pub open spec fn holds(self, secret: u64) -> bool {
        self.left <= secret <= self.right
    }

    /// The number in the middle, rounded down.
    pub open spec fn middle(self) -> int {
        (self.left + self.right) / 2
    }

    /// A search among all numbers from 1 to 100.
    pub fn new() -> (search: Search)
        ensures
            search.left == 1,
            search.right == 100,
    {
        Search { left: GUESS_RNG.0, right: GUESS_RNG.1 }
    }

    /// The computer's next guess: the number in the middle.
    pub fn guess(&self) -> (guess: u64)
        requires
            self.left + self.right <= u64::MAX,
        ensures
            guess == self.middle(),
    {
        (self.left + self.right) / 2
    }

    /// Takes in the answer to the guess in the middle: after "too low" the
    /// search goes on above the guess, after "too high" below it, and after
    /// "correct" it stays as it is.
    pub fn narrow(&mut self, answer: GuessResult)
        requires
            old(self).left + old(self).right <= u64::MAX,
            answer == GuessResult::TooLow ==> old(self).middle() < u64::MAX,
            answer == GuessResult::TooHigh ==> old(self).middle() > 0,
        ensures
            answer == GuessResult::TooLow ==> {
                &&& final(self).left == old(self).middle() + 1
                &&& final(self).right == old(self).right
            },
            answer == GuessResult::TooHigh ==> {
                &&& final(self).right == old(self).middle() - 1
                &&& final(self).left == old(self).left
            },
            answer == GuessResult::Correct ==> *final(self) == *old(self),
    {
        let guess = self.guess();
        match answer {
            GuessResult::TooLow => {
                self.left = guess + 1;
            },
            GuessResult::TooHigh => {
                self.right = guess - 1;
            },
            GuessResult::Correct => {},
        }
    }
}

/// With true answers the search never loses the secret, and every wrong
/// guess leaves fewer numbers to seek among.
pub proof fn lemma_true_answers_keep_the_secret(search: Search, secret: u64)
    requires
        search.holds(secret),
    ensures
        search.left <= search.middle() <= search.right,
        truth(search.middle() as u64, secret) == GuessResult::TooLow ==> (Search {
            left: (search.middle() + 1) as u64,
            right: search.right,
        }).holds(secret) && search.right - search.middle() - 1 < search.right - search.left,
        truth(search.middle() as u64, secret) == GuessResult::TooHigh ==> (Search {
            left: search.left,
            right: (search.middle() - 1) as u64,
        }).holds(secret) && search.middle() - 1 - search.left < search.right - search.left,
{
}

/// Reads a guess from a line of input: a number from 1 to 100; `None` for
/// anything else.
pub fn read_guess(input: &str) -> (guess: Option<u64>)
    ensures
        guess == match number_entered(input@) {
            Some(n) if 1 <= n <= 100 => Some(n),
            _ => None,
        },
{
    match read_number(input) {
        Some(num) => if is_valid_guess(num) {
            Some(num)
        } else {
            None
        },
        None => None,
    }
}

} // verus!
