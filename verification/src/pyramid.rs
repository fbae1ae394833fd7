//! Pyramids of stars, line by line.

use crate::numbers::{number_entered, read_number};
use vstd::prelude::*;

verus! {

/// A line of `spaces` blanks followed by `stars` stars.
pub open spec fn star_line(spaces: nat, stars: nat) -> Seq<char> {
    Seq::new(spaces, |i: int| ' ') + Seq::new(stars, |i: int| '*')
}

/// Line `row` of a pyramid of `base` lines, counted from 0 at the top: one
/// star at the top, two more on each line below, the stars centred.
pub open spec fn pyramid_line(base: nat, row: nat) -> Seq<char> {
    star_line((base - row - 1) as nat, 2 * row + 1)
}

/// Writes `num_spaces` blanks and then `num_stars` stars.
pub fn draw_stars(num_spaces: u32, num_stars: u32) -> (line: String)
    ensures
        line@ == star_line(num_spaces as nat, num_stars as nat),
{
    let mut line = String::new();
    for k in 0..num_spaces
        invariant
            line@ == Seq::new(k as nat, |i: int| ' '),
    {
        line.push(' ');
    }
    let ghost blanks = line@;
    for k in 0..num_stars
        invariant
            line@ == blanks + Seq::new(k as nat, |i: int| '*'),
    {
        line.push('*');
    }
    line
}

/// The lines of a pyramid of `base` lines, from the top down.
pub fn draw_pyramid(base: u32) -> (lines: Vec<String>)
    requires
        2 * base - 1 <= u32::MAX,
    ensures
        lines@.len() == base,
        forall|row: int| 0 <= row < base ==> (#[trigger] lines@[row])@ == pyramid_line(base as nat, row as nat),
{
    let mut lines: Vec<String> = Vec::new();
    for i in 0..base
        invariant
            2 * base - 1 <= u32::MAX,
            lines@.len() == i,
            forall|row: int| 0 <= row < i ==> (#[trigger] lines@[row])@ == pyramid_line(base as nat, row as nat),
    {
        let num_spaces = base - i - 1;
        let num_stars = 2 * i + 1;
        lines.push(draw_stars(num_spaces, num_stars));
    }
    lines
}

/// Whether a number that was entered can be the base of a pyramid: it is
/// odd.
pub fn is_valid_base(num: u32) -> (ok: bool)
    ensures
        ok == (num % 2 == 1),
{
    num % 2 != 0
}

/// Reads the base of a pyramid from a line of input: an odd number that fits
/// in 32 bits; `None` for anything else.
pub fn read_base(input: &str) -> (base: Option<u32>)
    ensures
        base == match number_entered(input@) {
            Some(n) if n <= u32::MAX && n % 2 == 1 => Some(n as u32),
            _ => None,
        },
{
    match read_number(input) {
        Some(num) => if num <= u32::MAX as u64 && is_valid_base(num as u32) {
            Some(num as u32)
        } else {
            None
        },
        None => None,
    }
}

} // verus!
