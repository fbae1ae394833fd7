//! A square grid of random numbers, and how it is shown.

use crate::numbers::{decimal_text, to_decimal};
use crate::random::random_between;
use vstd::prelude::*;

verus! {

/// The colours in which cells are shown.
#[derive(Debug, Clone, Copy, PartialEq, Eq, Structural)]
pub enum CellColor {
    Red,
    Green,
    Blue,
    Yellow,
    Magenta,
    White,
}

/// How many colours the cells take in turn.
pub const NUM_COLORS: u32 = 5;

/// The colour of a cell: red, green, blue, yellow and magenta in turn, by
/// the remainder of the cell's number on division by 5.
pub open spec fn color_at(elem: u32) -> CellColor {
    if elem % 5 == 0 {
        CellColor::Red
    } else if elem % 5 == 1 {
        CellColor::Green
    } else if elem % 5 == 2 {
        CellColor::Blue
    } else if elem % 5 == 3 {
        CellColor::Yellow
    } else {
        CellColor::Magenta
    }
}

/// The colour in which a cell is shown.
pub fn color_of(elem: u32) -> (color: CellColor)
    ensures
        color == color_at(elem),
        color != CellColor::White,
{
    let turn = elem % NUM_COLORS;
    if turn == 0 {
        CellColor::Red
    } else if turn == 1 {
        CellColor::Green
    } else if turn == 2 {
        CellColor::Blue
    } else if turn == 3 {
        CellColor::Yellow
    } else if turn == 4 {
        CellColor::Magenta
    } else {
        CellColor::White
    }
}

/// Whether `arr` is a grid of `n` rows of `n` numbers, each from `low` to
/// `high`.
pub open spec fn is_grid(arr: Seq<Vec<u32>>, n: nat, low: u32, high: u32) -> bool {
    &&& arr.len() == n
    &&& forall|r: int| 0 <= r < arr.len() ==> (#[trigger] arr[r])@.len() == n
    &&& forall|r: int, c: int|
        0 <= r < arr.len() && 0 <= c < arr[r]@.len() ==> low <= #[trigger] arr[r]@[c] <= high
}

/// A grid of `n` rows of `n` numbers, each chosen at random from
/// `num_rng.0` to `num_rng.1`, both included.
pub fn create_rand_2d_array(n: usize, num_rng: &(u32, u32)) -> (arr: Vec<Vec<u32>>)
    requires
        num_rng.0 <= num_rng.1,
    ensures
        is_grid(arr@, n as nat, num_rng.0, num_rng.1),
{
    let mut arr: Vec<Vec<u32>> = Vec::new();
    for r in 0..n
        invariant
            num_rng.0 <= num_rng.1,
            arr@.len() == r,
            forall|k: int| 0 <= k < r ==> (#[trigger] arr@[k])@.len() == n,
            forall|k: int, c: int|
                0 <= k < r && 0 <= c < n ==> num_rng.0 <= #[trigger] arr@[k]@[c] <= num_rng.1,
    {
        let mut row: Vec<u32> = Vec::new();
        for c in 0..n
            invariant
                num_rng.0 <= num_rng.1,
                row@.len() == c,
                forall|k: int| 0 <= k < c ==> num_rng.0 <= #[trigger] row@[k] <= num_rng.1,
        {
            let elem = random_between(num_rng.0 as u64, num_rng.1 as u64);
            row.push(elem as u32);
        }
        arr.push(row);
    }
    arr
}

/// A number as it stands in a printed row: its decimal digits, with blanks
/// in front up to a width of 4.
pub open spec fn cell_text(elem: u32) -> Seq<char> {
    let digits = decimal_text(elem as nat);
    if digits.len() >= 4 {
        digits
    } else {
        Seq::new((4 - digits.len()) as nat, |i: int| ' ') + digits
    }
}

/// The text of a row of numbers, one after the other.
pub open spec fn row_text(row: Seq<u32>) -> Seq<char>
    decreases row.len(),
{
    if row.len() == 0 {
        Seq::empty()
    } else {
        row_text(row.drop_last()) + cell_text(row.last())
    }
}

/// Writes a row of numbers, each in a column 4 wide, or wider where the
/// number is.
pub fn format_row(row: &Vec<u32>) -> (line: String)
    ensures
        line@ == row_text(row@),
{
    let mut line = String::new();
    for i in 0..row.len()
        invariant
            line@ == row_text(row@.take(i as int)),
    {
        let digits = to_decimal(row[i] as u64);
        let width = digits.as_str().unicode_len();
        let ghost start = line@;
        if width < 4 {
            for k in 0..(4 - width)
                invariant
                    width < 4,
                    line@ == start + Seq::new(k as nat, |j: int| ' '),
            {
                line.push(' ');
            }
        }
        line.append(digits.as_str());
        assert(row@.take(i + 1).drop_last() == row@.take(i as int));
    }
    assert(row@.take(row@.len() as int) == row@);
    line
}

} // verus!
