//! The treasure hunt on a square grid: how near is a guess?

use crate::numbers::{number_written, parse_u64};
use crate::random::random_between;
use crate::text::{from_chars, to_chars, trimmed};
use vstd::prelude::*;

verus! {

/// A place on the grid: column and row.
pub type Point2D = (u32, u32);

/// How near a guess is to the treasure.
#[derive(Debug, Clone, Copy, PartialEq, Eq, Structural)]
pub enum Proximity {
    Hot,
    Warm,
    Cold,
}

/// The square of the straight-line distance between two places.
pub open spec fn distance_squared(p1: Point2D, p2: Point2D) -> int {
    (p1.0 - p2.0) * (p1.0 - p2.0) + (p1.1 - p2.1) * (p1.1 - p2.1)
}

/// Hot where the distance is at most a quarter of the grid's size, warm
/// where it is at most half of it, cold beyond. Stated on squares, which
/// needs no root: `d <= size / 4` is `16 * d * d <= size * size`.
pub open spec fn proximity_of(size: int, p1: Point2D, p2: Point2D) -> Proximity {
    if 16 * distance_squared(p1, p2) <= size * size {
        Proximity::Hot
    } else if 4 * distance_squared(p1, p2) <= size * size {
        Proximity::Warm
    } else {
        Proximity::Cold
    }
}

fn gap(a: u32, b: u32) -> (d: u128)
    ensures
        d == (a - b) * (a - b),
        d <= 0xFFFF_FFFF * 0xFFFF_FFFF,
{
    let d: u128 = if a >= b {
        (a - b) as u128
    } else {
        (b - a) as u128
    };
    assert(d * d <= 0xFFFF_FFFF * 0xFFFF_FFFF) by (nonlinear_arith)
        requires
            0 <= d <= 0xFFFF_FFFF,
    ;
    assert(d * d == (a - b) * (a - b)) by (nonlinear_arith)
        requires
            d == a - b || d == b - a,
    ;
    d * d
}

/// Tells how near `p1` is to `p2` on a grid of `size` by `size` places.
pub fn get_proximity(size: u32, p1: Point2D, p2: Point2D) -> (proximity: Proximity)
    ensures
        proximity == proximity_of(size as int, p1, p2),
{
    let squared: u128 = gap(p1.0, p2.0) + gap(p1.1, p2.1);
    let side: u128 = size as u128;
    assert(side * side <= 0xFFFF_FFFF * 0xFFFF_FFFF) by (nonlinear_arith)
        requires
            0 <= side <= 0xFFFF_FFFF,
    ;
    let area: u128 = side * side;
    if 16 * squared <= area {
        Proximity::Hot
    } else if 4 * squared <= area {
        Proximity::Warm
    } else {
        Proximity::Cold
    }
}

/// A place of the grid chosen at random.
pub fn generate_random_coord(size: u32) -> (place: Point2D)
    requires
        size > 0,
    ensures
        place.0 < size,
        place.1 < size,
{
    let x = random_between(0, (size - 1) as u64);
    let y = random_between(0, (size - 1) as u64);
    (x as u32, y as u32)
}

/// Whether a place lies on the grid.
pub fn is_on_grid(size: u32, place: Point2D) -> (ok: bool)
    ensures
        ok == (place.0 < size && place.1 < size),
{
    !(place.0 >= size || place.1 >= size)
}

/// What the player is told after a guess.
#[derive(Debug, Clone, Copy, PartialEq, Eq, Structural)]
pub enum Hint {
    /// The guess is the treasure's place.
    Found,
    /// The guess is wrong, and this near.
    Near(Proximity),
}

/// Judges a guess: found where it is the treasure's place, else how near it
/// is.
pub fn judge_guess(size: u32, guess: Point2D, treasure: Point2D) -> (hint: Hint)
    ensures
        hint == if guess == treasure {
            Hint::Found
        } else {
            Hint::Near(proximity_of(size as int, guess, treasure))
        },
{
    if guess.0 == treasure.0 && guess.1 == treasure.1 {
        Hint::Found
    } else {
        Hint::Near(get_proximity(size, guess, treasure))
    }
}

/// Where the only comma of a text stands; `None` where the text holds no
/// comma or more than one.
pub open spec fn only_comma(text: Seq<char>) -> Option<int> {
    if exists|at: int| is_only_comma(text, at) {
        Some(choose|at: int| is_only_comma(text, at))
    } else {
        None
    }
}

/// Whether the text holds a comma at position `at` and nowhere else.
pub open spec fn is_only_comma(text: Seq<char>, at: int) -> bool {
    &&& 0 <= at < text.len()
    &&& forall|k: int| 0 <= k < text.len() ==> (#[trigger] text[k] == ',' <==> k == at)
}

/// The place that a line of input names: two numbers with one comma and
/// nothing else between them, both below `size`. White space around the
/// line is dropped.
pub open spec fn location_written(line: Seq<char>, size: u32) -> Option<Point2D> {
    let text = trimmed(line);
    match only_comma(text) {
        Some(at) => match (number_written(text.take(at)), number_written(text.skip(at + 1))) {
            (Some(x), Some(y)) if x < size && y < size => Some((x as u32, y as u32)),
            _ => None,
        },
        None => None,
    }
}

/// Reads a place of the grid from a line of input such as `3,4`; `None`
/// where the line is no such pair or the place lies off the grid.
pub fn read_location(input: &str, size: u32) -> (place: Option<Point2D>)
    ensures
        place == location_written(input@, size),
{
    let chars = to_chars(input.trim());
    let ghost text = chars@;
    let mut at: usize = 0;
    while at < chars.len() && chars[at] != ','
        invariant
            at <= chars@.len(),
            forall|k: int| 0 <= k < at ==> chars@[k] != ',',
        decreases chars@.len() - at,
    {
        at += 1;
    }
    if at == chars.len() {
        assert(only_comma(text) is None) by {
            if exists|w: int| is_only_comma(text, w) {
                let w = choose|w: int| is_only_comma(text, w);
                assert(text[w] == ',');
            }
        }
        return None;
    }
    let mut first: Vec<char> = Vec::new();
    for k in 0..at
        invariant
            at < chars@.len(),
            first@ == chars@.take(k as int),
    {
        first.push(chars[k]);
        assert(chars@.take(k + 1) == chars@.take(k as int).push(chars@[k as int]));
    }
    let mut second: Vec<char> = Vec::new();
    let mut another = false;
    for k in (at + 1)..chars.len()
        invariant
            at < chars@.len(),
            second@ == chars@.subrange(at + 1, k as int),
            another == second@.contains(','),
    {
        let ghost before = second@;
        if chars[k] == ',' {
            another = true;
        }
        second.push(chars[k]);
        assert(chars@.subrange(at + 1, k + 1) == before.push(chars@[k as int]));
        assert(second@.contains(',') == (before.contains(',') || chars@[k as int] == ',')) by {
            if before.contains(',') {
                let w = choose|w: int| 0 <= w < before.len() && before[w] == ',';
                assert(second@[w] == ',');
            }
            if chars@[k as int] == ',' {
                assert(second@[second@.len() - 1] == ',');
            }
        }
    }
    assert(second@ == text.skip(at + 1));
    if another {
        assert(only_comma(text) is None) by {
            let w2 = choose|w2: int| 0 <= w2 < second@.len() && second@[w2] == ',';
            assert(text[at + 1 + w2] == ',');
            assert(text[at as int] == ',');
            if exists|w: int| is_only_comma(text, w) {
                let w = choose|w: int| is_only_comma(text, w);
                assert(text[at as int] == ',' <==> at == w);
                assert(text[at + 1 + w2] == ',' <==> at + 1 + w2 == w);
            }
        }
        return None;
    }
    assert(only_comma(text) == Some(at as int)) by {
        assert forall|k: int| 0 <= k < text.len() implies (#[trigger] text[k] == ',' <==> k
            == at) by {
            if k > at {
                assert(second@[k - at - 1] == text[k]);
            }
        }
        assert(is_only_comma(text, at as int));
        let w = choose|w: int| is_only_comma(text, w);
        assert(text[at as int] == ',' <==> at == w);
    }
    let x = parse_u64(from_chars(&first).as_str());
    let y = parse_u64(from_chars(&second).as_str());
    match (x, y) {
        (Some(x), Some(y)) => if x < size as u64 && y < size as u64 {
            Some((x as u32, y as u32))
        } else {
            None
        },
        _ => None,
    }
}

} // verus!
