//! Mastermind on digits: scoring a guess against the secret code.

use crate::numbers::is_digit;
use crate::random::random_between;
use crate::text::{numeric, to_chars, trimmed};
use vstd::multiset::*;
use vstd::prelude::*;

verus! {

/// What a guess has in common with the code.
#[derive(Debug, Clone, Copy, PartialEq, Eq, Structural)]
pub struct GuessStats {
    /// How many characters of the guess occur in the code, wherever they
    /// stand; a character that the guess holds more often than the code
    /// counts as often as the code holds it.
    pub correct_digits: u32,
    /// How many positions hold the same character in guess and code.
    pub correct_positions: u32,
}

/// How many of the first `n` positions hold the same character in both
/// texts.
pub open spec fn matches_below(guess: Seq<char>, target: Seq<char>, n: int) -> nat
    decreases n,
{
    if n <= 0 {
        0
    } else {
        matches_below(guess, target, n - 1) + if guess[n - 1] == target[n - 1] {
            1nat
        } else {
            0nat
        }
    }
}

/// How many positions that both texts have hold the same character.
pub open spec fn matching_positions(guess: Seq<char>, target: Seq<char>) -> nat {
    matches_below(
        guess,
        target,
        if guess.len() <= target.len() {
            guess.len() as int
        } else {
            target.len() as int
        },
    )
}

/// How many characters both texts share, position aside: each character
/// counts as often as it occurs in both.
pub open spec fn shared_characters(guess: Seq<char>, target: Seq<char>) -> nat {
    guess.to_multiset().intersection_with(target.to_multiset()).len()
}

proof fn lemma_matches_bounded(guess: Seq<char>, target: Seq<char>, n: int)
    requires
        0 <= n,
    ensures
        matches_below(guess, target, n) <= n,
    decreases n,
{
    if n > 0 {
        lemma_matches_bounded(guess, target, n - 1);
    }
}

/// One more character of the guess is matched against what is left of the
/// code.
proof fn lemma_match_step(
    seen: Multiset<char>,
    code: Multiset<char>,
    left: Multiset<char>,
    c: char,
)
    requires
        left == code.sub(seen.intersection_with(code)),
    ensures
        left.count(c) > 0 ==> {
            &&& seen.insert(c).intersection_with(code) == seen.intersection_with(code).insert(c)
            &&& left.remove(c) == code.sub(seen.insert(c).intersection_with(code))
        },
        left.count(c) == 0 ==> seen.insert(c).intersection_with(code) == seen.intersection_with(
            code,
        ),
{
    broadcast use {group_multiset_axioms, group_multiset_properties};

    let before = seen.intersection_with(code);
    let after = seen.insert(c).intersection_with(code);
    assert(left.count(c) == code.count(c) - before.count(c));
    if left.count(c) > 0 {
        assert forall|x: char| after.count(x) == before.insert(c).count(x) by {
            if x != c {
                assert(seen.insert(c).count(x) == seen.count(x));
            }
        }
        assert(after =~= before.insert(c));
        assert(left.remove(c) =~= code.sub(after));
    } else {
        assert forall|x: char| after.count(x) == before.count(x) by {
            if x != c {
                assert(seen.insert(c).count(x) == seen.count(x));
            }
        }
        assert(after =~= before);
    }
}

/// Scores a guess against the code: the positions that agree, and the
/// characters that both share wherever they stand.
pub fn evaluate_guess(guess: &str, target: &str) -> (stats: GuessStats)
    requires
        guess@.len() <= u32::MAX || target@.len() <= u32::MAX,
    ensures
        stats.correct_positions == matching_positions(guess@, target@),
        stats.correct_digits == shared_characters(guess@, target@),
{
    let guessed = to_chars(guess);
    let code = to_chars(target);
    let common = if guessed.len() <= code.len() {
        guessed.len()
    } else {
        code.len()
    };

    // first the positions that agree
    let mut positions: usize = 0;
    for i in 0..common
        invariant
            common <= guessed@.len(),
            common <= code@.len(),
            positions == matches_below(guessed@, code@, i as int),
            positions <= i,
    {
        if guessed[i] == code[i] {
            positions += 1;
        }
    }

    // then the characters that both hold, each taken out of the code once it is matched
    let mut left = code;
    let mut digits: usize = 0;
    proof {
        broadcast use {group_multiset_axioms, group_multiset_properties};

        let none = guessed@.take(0).to_multiset();
        guessed@.take(0).to_multiset_ensures();
        assert(none.len() == 0);
        assert(none =~= Multiset::empty());
        assert(none.intersection_with(target@.to_multiset()) =~= Multiset::empty());
        assert(target@.to_multiset().sub(Multiset::empty()) =~= target@.to_multiset());
    }
    for i in 0..guessed.len()
        invariant
            guessed@ == guess@,
            digits == guessed@.take(i as int).to_multiset().intersection_with(
                target@.to_multiset(),
            ).len(),
            left@.to_multiset() == target@.to_multiset().sub(
                guessed@.take(i as int).to_multiset().intersection_with(target@.to_multiset()),
            ),
            digits <= i,
            digits + left@.len() == target@.len(),
    {
        let c = guessed[i];
        let ghost seen = guessed@.take(i as int).to_multiset();
        proof {
            broadcast use {group_multiset_axioms, group_multiset_properties};

            assert(guessed@.take(i + 1) == guessed@.take(i as int).push(c));
            guessed@.take(i as int).to_multiset_ensures();
            left@.to_multiset_ensures();
            lemma_match_step(seen, target@.to_multiset(), left@.to_multiset(), c);
        }
        let mut j: usize = 0;
        let mut found = false;
        while j < left.len() && !found
            invariant
                j <= left@.len(),
                !found ==> forall|k: int| 0 <= k < j ==> left@[k] != c,
                found ==> j < left@.len() && left@[j as int] == c,
            decreases left@.len() - j + if found { 0int } else { 1int },
        {
            if left[j] == c {
                found = true;
            } else {
                j += 1;
            }
        }
        if found {
            proof {
                broadcast use {group_multiset_axioms, group_multiset_properties};

                assert(left@.contains(c));
                vstd::seq_lib::to_multiset_remove(left@, j as int);
            }
            left.remove(j);
            digits += 1;
        } else {
            assert(!left@.contains(c));
        }
    }
    assert(guessed@.take(guessed@.len() as int) == guessed@);
    proof {
        lemma_matches_bounded(guess@, target@, common as int);
    }
    GuessStats { correct_digits: digits as u32, correct_positions: positions as u32 }
}

/// A code of `num_digits` digits, each chosen at random.
pub fn generate_code(num_digits: u32) -> (code: String)
    ensures
        code@.len() == num_digits,
        forall|i: int| 0 <= i < code@.len() ==> is_digit(#[trigger] code@[i]),
{
    let mut code = String::new();
    for k in 0..num_digits
        invariant
            code@.len() == k,
            forall|i: int| 0 <= i < code@.len() ==> is_digit(#[trigger] code@[i]),
    {
        let digit = random_between(0, 9);
        code.push((48 + digit as u8) as char);
    }
    code
}

/// Whether a line of input is a guess at a code of `num_digits` digits: with
/// the white space around it dropped, it takes `num_digits` bytes, and each
/// of its characters is numeric.
pub open spec fn is_guess(line: Seq<char>, num_digits: u32) -> bool {
    &&& vstd::utf8::encode_utf8(trimmed(line)).len() == num_digits
    &&& forall|i: int| 0 <= i < trimmed(line).len() ==> numeric(#[trigger] trimmed(line)[i])
}

/// Reads a guess from a line of input: the line without the white space
/// around it; `None` where that is no guess of `num_digits` digits.
pub fn read_guess(input: &str, num_digits: u32) -> (guess: Option<String>)
    ensures
        match guess {
            Some(g) => is_guess(input@, num_digits) && g@ == trimmed(input@),
            None => !is_guess(input@, num_digits),
        },
{
    let word = input.trim();
    if word.as_bytes().len() != num_digits as usize {
        return None;
    }
    let chars = to_chars(word);
    for i in 0..chars.len()
        invariant
            chars@ == trimmed(input@),
            forall|k: int| 0 <= k < i ==> numeric(#[trigger] chars@[k]),
    {
        if !chars[i].is_numeric() {
            return None;
        }
    }
    Some(word.to_owned())
}

} // verus!
