//! The alphabet typing game: is what was typed the alphabet?

use crate::text::{lowercase, trimmed};
use vstd::prelude::*;

verus! {

/// The alphabet in lower case.
pub open spec fn alphabet() -> Seq<char> {
    "abcdefghijklmnopqrstuvwxyz"@
}

/// Whether `word` is exactly the lower-case alphabet.
pub fn is_alphabet(word: &str) -> (ok: bool)
    ensures
        ok == (word@ == alphabet()),
{
    word.eq("abcdefghijklmnopqrstuvwxyz")
}

/// Whether the line that was typed is the alphabet, once white space around
/// it is dropped and upper case turned into lower case.
pub fn is_valid_alphabet(input: &str) -> (ok: bool)
    ensures
        ok == (lowercase(trimmed(input@)) == alphabet()),
{
    let word = input.trim().to_lowercase();
    is_alphabet(word.as_str())
}

} // verus!
