//! Rock, paper, scissors: the moves and who beats whom.

use crate::random::pick;
use crate::text::{lowercase, trimmed};
use vstd::prelude::*;

verus! {

/// One of the three moves.
#[derive(Debug, PartialEq, Eq, Structural, Copy, Clone)]
pub enum Move {
    Rock,
    Paper,
    Scissors,
}

/// Whether `player` beats `computer`: rock beats scissors, paper beats rock,
/// scissors beat paper.
pub open spec fn beats(player: Move, computer: Move) -> bool {
    ||| (player == Move::Rock && computer == Move::Scissors)
    ||| (player == Move::Paper && computer == Move::Rock)
    ||| (player == Move::Scissors && computer == Move::Paper)
}

/// Decides whether the player's move wins against the computer's.
pub fn player_wins(player: &Move, computer: &Move) -> (won: bool)
    ensures
        won == beats(*player, *computer),
{
    match (player, computer) {
        (Move::Rock, Move::Scissors) => true,
        (Move::Paper, Move::Rock) => true,
        (Move::Scissors, Move::Paper) => true,
        _ => false,
    }
}

/// The move that a word names, in lower case.
pub open spec fn move_named(word: Seq<char>) -> Option<Move> {
    if word == "rock"@ {
        Some(Move::Rock)
    } else if word == "paper"@ {
        Some(Move::Paper)
    } else if word == "scissors"@ {
        Some(Move::Scissors)
    } else {
        None
    }
}

/// The move that `word` names; `None` for any other word. The word is taken
/// as it is.
pub fn move_from_word(word: &str) -> (mv: Option<Move>)
    ensures
        mv == move_named(word@),
{
    if word.eq("rock") {
        Some(Move::Rock)
    } else if word.eq("paper") {
        Some(Move::Paper)
    } else if word.eq("scissors") {
        Some(Move::Scissors)
    } else {
        None
    }
}

/// Reads a move from a line of input: white space around the word is dropped
/// and upper case accepted.
pub fn get_move_from_input(input: &str) -> (mv: Option<Move>)
    ensures
        mv == move_named(lowercase(trimmed(input@))),
{
    let word = input.trim().to_lowercase();
    move_from_word(word.as_str())
}

/// A move chosen at random: each of the three can come.
pub fn get_rand_move() -> Move {
    let moves = [Move::Rock, Move::Paper, Move::Scissors];
    chosen_or_rock(pick(moves.as_slice()))
}

/// The move that was chosen, or rock where none was.
pub fn chosen_or_rock(chosen: Option<Move>) -> (mv: Move)
    ensures
        mv == match chosen {
            Some(m) => m,
            None => Move::Rock,
        },
{
    match chosen {
        Some(mv) => mv,
        None => Move::Rock,
    }
}

/// How a round ends for the player.
#[derive(Debug, PartialEq, Eq, Structural, Copy, Clone)]
pub enum Outcome {
    Win,
    Tie,
    Lose,
}

/// The round's outcome by the rules: a win where the player's move beats the
/// computer's, a tie where both are the same, else a loss.
pub open spec fn outcome_of(player: Move, computer: Move) -> Outcome {
    if beats(player, computer) {
        Outcome::Win
    } else if player == computer {
        Outcome::Tie
    } else {
        Outcome::Lose
    }
}

/// Judges one round.
pub fn judge(player: Move, computer: Move) -> (outcome: Outcome)
    ensures
        outcome == outcome_of(player, computer),
        outcome == Outcome::Lose <==> beats(computer, player),
{
    if player_wins(&player, &computer) {
        Outcome::Win
    } else if player == computer {
        Outcome::Tie
    } else {
        Outcome::Lose
    }
}

} // verus!
