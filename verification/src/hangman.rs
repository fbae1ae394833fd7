//! Hangman: uncovering the letters of the hidden word.

use crate::text::{
    alphabetic, first_of_uppercase, from_chars, to_chars, trimmed, upper_first, uppercase,
};
use vstd::prelude::*;
use vstd::utf8::is_ascii_chars;

verus! {

/// The sign that stands for a letter not yet guessed.
pub const PLACEHOLDER: char = '*';

/// `word` with `guess` written at every position where `target` holds it.
pub open spec fn uncovered(target: Seq<char>, guess: char, word: Seq<char>) -> Seq<char> {
    Seq::new(
        word.len(),
        |i: int|
            if i < target.len() && target[i] == guess {
                guess
            } else {
                word[i]
            },
    )
}

/// What `update_player_word` asks of its arguments: the word shown to the
/// player is ASCII, and reaches every position at which the target holds the
/// guessed letter, which is then an ASCII letter too.
pub open spec fn can_uncover(target: Seq<char>, guess: char, word: Seq<char>) -> bool {
    &&& is_ascii_chars(word)
    &&& forall|i: int|
        0 <= i < target.len() && #[trigger] target[i] == guess ==> i < word.len() && (guess as int)
            < 128
}

/// Writes the guessed letter into the player's word at every position where
/// the target word holds it. The other positions stay as they are; the
/// letter's case counts.
pub fn update_player_word(target_word: &str, guess_letter: char, player_word: &mut String)
    requires
        can_uncover(target_word@, guess_letter, old(player_word)@),
    ensures
        final(player_word)@ == uncovered(target_word@, guess_letter, old(player_word)@),
        final(player_word)@.len() == old(player_word)@.len(),
{
    let target = to_chars(target_word);
    let mut shown = to_chars(player_word.as_str());
    let ghost before = shown@;
    for i in 0..target.len()
        invariant
            target@ == target_word@,
            before == old(player_word)@,
            can_uncover(target@, guess_letter, before),
            shown@.len() == before.len(),
            forall|k: int|
                0 <= k < shown@.len() ==> shown@[k] == if k < i && target@[k] == guess_letter {
                    guess_letter
                } else {
                    before[k]
                },
    {
        if target[i] == guess_letter {
            shown.set(i, guess_letter);
        }
    }
    *player_word = from_chars(&shown);
}

/// The word as it is first shown: a placeholder for each letter.
pub fn cover(len: usize) -> (word: String)
    ensures
        word@ == Seq::new(len as nat, |i: int| PLACEHOLDER),
{
    let mut word = String::new();
    for k in 0..len
        invariant
            word@ == Seq::new(k as nat, |i: int| PLACEHOLDER),
    {
        word.push(PLACEHOLDER);
    }
    word
}

/// How a game stands after a guess.
#[derive(Debug, Clone, Copy, PartialEq, Eq, Structural)]
pub enum Standing {
    /// Every letter is uncovered.
    Won,
    /// No life is left.
    Lost,
    /// Letters are still covered and lives are left.
    Ongoing,
}

/// The lives left after a guess: one fewer where the target does not hold
/// the letter.
pub open spec fn lives_after(target: Seq<char>, guess: char, lives: int) -> int {
    if target.contains(guess) {
        lives
    } else {
        lives - 1
    }
}

/// How the game stands with this word shown and these lives left: won once
/// no placeholder is left, else lost without lives.
pub open spec fn standing_of(word: Seq<char>, lives: int) -> Standing {
    if !word.contains(PLACEHOLDER) {
        Standing::Won
    } else if lives == 0 {
        Standing::Lost
    } else {
        Standing::Ongoing
    }
}

/// Whether the characters hold `c`.
pub fn holds(chars: &Vec<char>, c: char) -> (found: bool)
    ensures
        found == chars@.contains(c),
{
    for i in 0..chars.len()
        invariant
            forall|k: int| 0 <= k < i ==> chars@[k] != c,
    {
        if chars[i] == c {
            return true;
        }
    }
    false
}

/// Plays one guess: a life is lost where the target does not hold the
/// letter, else the letter is uncovered. Returns the lives left and how the
/// game stands then.
pub fn guess(target_word: &str, guess_letter: char, player_word: &mut String, lives: u32) -> (after:
    (u32, Standing))
    requires
        lives > 0,
        can_uncover(target_word@, guess_letter, old(player_word)@),
    ensures
        after.0 == lives_after(target_word@, guess_letter, lives as int),
        final(player_word)@ == uncovered(target_word@, guess_letter, old(player_word)@),
        after.1 == standing_of(final(player_word)@, after.0 as int),
{
    let target = to_chars(target_word);
    let mut left = lives;
    if !holds(&target, guess_letter) {
        left = left - 1;
        assert(uncovered(target_word@, guess_letter, player_word@) == player_word@);
    } else {
        update_player_word(target_word, guess_letter, player_word);
    }
    let shown = to_chars(player_word.as_str());
    let standing = if !holds(&shown, PLACEHOLDER) {
        Standing::Won
    } else if left == 0 {
        Standing::Lost
    } else {
        Standing::Ongoing
    };
    (left, standing)
}

/// The word to guess that a line of input gives: the line without the white
/// space around it, in upper case.
pub fn read_word(input: &str) -> (word: String)
    ensures
        word@ == uppercase(trimmed(input@)),
{
    input.trim().to_uppercase()
}

/// The letter that a line of input guesses: the first character, if it is a
/// letter, in upper case.
pub open spec fn letter_written(text: Seq<char>) -> Option<char> {
    if text.len() > 0 && alphabetic(text[0]) {
        Some(upper_first(text[0]))
    } else {
        None
    }
}

/// Reads the guessed letter from a line of input, white space around it
/// dropped; `None` where the line is empty or starts with no letter.
pub fn read_letter(input: &str) -> (letter: Option<char>)
    ensures
        letter == letter_written(trimmed(input@)),
{
    let chars = to_chars(input.trim());
    if chars.len() > 0 && chars[0].is_alphabetic() {
        Some(first_of_uppercase(chars[0]))
    } else {
        None
    }
}

} // verus!
