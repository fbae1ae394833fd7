//! What is kept of a line that was read.

use crate::text::trimmed;
use vstd::prelude::*;

verus! {

/// The content of a line of input: the line without the white space around
/// it, the line's end included.
pub fn read_input(line: &str) -> (content: String)
    ensures
        content@ == trimmed(line@),
{
    line.trim().to_owned()
}

} // verus!
