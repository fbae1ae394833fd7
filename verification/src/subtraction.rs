//! The subtraction game: both sides take 1 to 3 from a number in turn, and
//! who reaches 0 has lost.

use crate::numbers::{number_entered, read_number};
use crate::random::random_between;
use vstd::prelude::*;

verus! {

/// A number chosen at random from `min` to `max`, both included.
pub fn get_rand_num(min: u64, max: u64) -> (n: u64)
    requires
        min <= max,
    ensures
        min <= n <= max,
{
    random_between(min, max)
}

/// The computer's move on `num`. With 1, 2 or 3 left it takes 1, 1 and 2;
/// else it takes 1 to 3 at random.
pub fn make_move_ai(num: u64) -> (taken: u64)
    ensures
        1 <= taken <= 3,
        num == 1 ==> taken == 1,
        num == 2 ==> taken == 1,
        num == 3 ==> taken == 2,
{
    if num == 1 {
        1
    } else if num == 2 {
        1
    } else if num == 3 {
        2
    } else {
        get_rand_num(1, 3)
    }
}

/// Whether a number that was entered lies within the limits, both included.
pub fn is_within_limits(num: u64, limits: (u64, u64)) -> (ok: bool)
    ensures
        ok == (limits.0 <= num <= limits.1),
{
    !(num < limits.0 || num > limits.1)
}

/// How the game stands after a move.
#[derive(Debug, Clone, Copy, PartialEq, Eq, Structural)]
pub enum Standing {
    /// The number is above 0: the other side moves.
    Ongoing,
    /// The player reached 0.
    PlayerLost,
    /// The computer reached 0.
    PlayerWon,
}

/// Takes `deduction` from `num`, stopping at 0, and says how the game stands:
/// the side that moved has lost where 0 is reached.
pub fn take(num: u64, deduction: u64, is_player_turn: bool) -> (after: (u64, Standing))
    ensures
        after.0 == if deduction >= num {
            0
        } else {
            num - deduction
        },
        after.1 == if after.0 > 0 {
            Standing::Ongoing
        } else if is_player_turn {
            Standing::PlayerLost
        } else {
            Standing::PlayerWon
        },
{
    let left = if deduction >= num {
        0
    } else {
        num - deduction
    };
    let standing = if left == 0 {
        if is_player_turn {
            Standing::PlayerLost
        } else {
            Standing::PlayerWon
        }
    } else {
        Standing::Ongoing
    };
    (left, standing)
}

/// Reads the number to take from a line of input: a number within the
/// limits, both included; `None` for anything else.
pub fn read_deduction(input: &str, limits: (u64, u64)) -> (taken: Option<u64>)
    ensures
        taken == match number_entered(input@) {
            Some(n) if limits.0 <= n <= limits.1 => Some(n),
            _ => None,
        },
{
    match read_number(input) {
        Some(num) => if is_within_limits(num, limits) {
            Some(num)
        } else {
            None
        },
        None => None,
    }
}

} // verus!
