//! The colours in which an answer can be shown.

use crate::random::{pick, random_between};
use vstd::prelude::*;

verus! {

/// A terminal colour.
#[derive(Debug, Clone, Copy, PartialEq, Eq, Structural)]
pub enum AnswerColor {
    Red,
    Green,
    Yellow,
    Blue,
    Magenta,
    Cyan,
    White,
    BrightRed,
    BrightGreen,
    BrightYellow,
    BrightBlue,
    BrightMagenta,
    BrightCyan,
    BrightWhite,
}

/// The fourteen colours from which one is chosen. Black is not among them.
pub fn palette() -> (colors: [AnswerColor; 14])
    ensures
        colors@ == palette_colors() && colors@.no_duplicates(),
{
    let colors = [
        AnswerColor::Red,
        AnswerColor::Green,
        AnswerColor::Yellow,
        AnswerColor::Blue,
        AnswerColor::Magenta,
        AnswerColor::Cyan,
        AnswerColor::White,
        AnswerColor::BrightRed,
        AnswerColor::BrightGreen,
        AnswerColor::BrightYellow,
        AnswerColor::BrightBlue,
        AnswerColor::BrightMagenta,
        AnswerColor::BrightCyan,
        AnswerColor::BrightWhite,
    ];
    colors
}

/// A colour chosen at random from the palette.
pub fn get_random_color() -> AnswerColor {
    // every colour there is stands in the palette, so nothing is known of
    // the colour beforehand
    let colors = palette();
    let chosen = pick(colors.as_slice());
    chosen_or_white(chosen)
}

/// A position chosen at random in a list of `len` entries.
pub fn random_index(len: usize) -> (index: usize)
    requires
        len > 0,
    ensures
        index < len,
{
    random_between(0, (len - 1) as u64) as usize
}

/// The fourteen colours from which one is chosen, in their order. Black is
/// not among them.
pub open spec fn palette_colors() -> Seq<AnswerColor> {
    seq![
        AnswerColor::Red,
        AnswerColor::Green,
        AnswerColor::Yellow,
        AnswerColor::Blue,
        AnswerColor::Magenta,
        AnswerColor::Cyan,
        AnswerColor::White,
        AnswerColor::BrightRed,
        AnswerColor::BrightGreen,
        AnswerColor::BrightYellow,
        AnswerColor::BrightBlue,
        AnswerColor::BrightMagenta,
        AnswerColor::BrightCyan,
        AnswerColor::BrightWhite,
    ]
}

/// The colour that was chosen, or white where none was.
pub fn chosen_or_white(chosen: Option<AnswerColor>) -> (color: AnswerColor)
    ensures
        color == match chosen {
            Some(c) => c,
            None => AnswerColor::White,
        },
{
    match chosen {
        Some(color) => color,
        None => AnswerColor::White,
    }
}

} // verus!
