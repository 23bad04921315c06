//! The input reader's pure half: extract a guess from one line of text.

use vstd::prelude::*;

verus! {

/// The reserved character that asks to quit the game. An empty line maps to
/// it too, so running out of input ends the session quietly.
pub const QUIT_SENTINEL: char = '*';

/// The first character of `line`, or the quit sentinel if the line is empty.
pub fn extract_guess(line: &str) -> (c: char)
    ensures
        line@.len() == 0 ==> c == QUIT_SENTINEL,
        line@.len() > 0 ==> c == line@[0],
{
    if line.unicode_len() == 0 {
        QUIT_SENTINEL
    } else {
        line.get_char(0)
    }
}

} // verus!
