//! Drawing the name of a suit or of a rank at random.

use crate::random::pick;
use vstd::prelude::*;

verus! {

/// Whether `name` is the name of one of the four suits.
pub open spec fn is_suite_name(name: Seq<char>) -> bool {
    name == "Hearts"@ || name == "Diamonds"@ || name == "Clubs"@ || name == "Spades"@
}

/// Whether `name` is the name of one of the thirteen ranks: `Ace`, the
/// numbers `2` to `10`, `Jack`, `Queen`, `King`.
pub open spec fn is_rank_name(name: Seq<char>) -> bool {
    ||| name == "Ace"@
    ||| name == "2"@
    ||| name == "3"@
    ||| name == "4"@
    ||| name == "5"@
    ||| name == "6"@
    ||| name == "7"@
    ||| name == "8"@
    ||| name == "9"@
    ||| name == "10"@
    ||| name == "Jack"@
    ||| name == "Queen"@
    ||| name == "King"@
}

/// The names of the four suits.
pub fn suite_names() -> (names: [&'static str; 4])
    ensures
        forall|i: int| 0 <= i < 4 ==> is_suite_name(#[trigger] names@[i]@),
{
    ["Hearts", "Diamonds", "Clubs", "Spades"]
}

/// The names of the thirteen ranks.
pub fn rank_names() -> (names: [&'static str; 13])
    ensures
        forall|i: int| 0 <= i < 13 ==> is_rank_name(#[trigger] names@[i]@),
{
    ["Ace", "2", "3", "4", "5", "6", "7", "8", "9", "10", "Jack", "Queen", "King"]
}

/// The name of a suit chosen at random.
pub fn get_rand_suite() -> (name: &'static str)
    ensures
        is_suite_name(name@),
{
    let names = suite_names();
    match pick(names.as_slice()) {
        Some(name) => name,
        None => "Hearts",
    }
}

/// The name of a rank chosen at random.
pub fn get_rand_rank() -> (name: &'static str)
    ensures
        is_rank_name(name@),
{
    let names = rank_names();
    match pick(names.as_slice()) {
        Some(name) => name,
        None => "Ace",
    }
}

} // verus!
