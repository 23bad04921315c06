//! The progress evaluator: from the turn budget and the board, decide
//! whether the game is ongoing, won, or lost.

use vstd::prelude::*;
use crate::board::Letter;

verus! {

/// The derived state of a session: still running, won, or lost.
#[derive(Clone, Copy, PartialEq, Eq, Structural, Debug)]
pub enum GameProgress {
    InProgress,
    Won,
    Lost,
}

/// Every letter of the board has been revealed.
pub open spec fn all_revealed(letters: Seq<Letter>) -> bool {
    forall|i: int| 0 <= i < letters.len() ==> letters[i].revealed
}

/// The progress that a turn budget and a board determine: a fully revealed
/// board is a win whatever the budget; otherwise a positive budget keeps the
/// game going, and an exhausted one loses it.
pub open spec fn progress_of(turns_left: u8, letters: Seq<Letter>) -> GameProgress {
    if all_revealed(letters) {
        GameProgress::Won
    } else if turns_left > 0 {
        GameProgress::InProgress
    } else {
        GameProgress::Lost
    }
}

/// Scan the board and report the session's progress. The win check comes
/// first, so a guess that reveals the last letter wins even with no turns
/// left.
pub fn check_progress(turns_left: u8, letters: &Vec<Letter>) -> (p: GameProgress)
    ensures
        p == progress_of(turns_left, letters@),
{
    let mut all_found = true;
    let mut idx: usize = 0;
    while idx < letters.len()
        invariant
            idx <= letters@.len(),
            all_found == forall|i: int| 0 <= i < idx ==> letters@[i].revealed,
        decreases letters@.len() - idx,
    {
        if !letters[idx].revealed {
            all_found = false;
        }
        idx += 1;
    }
    if all_found {
        GameProgress::Won
    } else if turns_left > 0 {
        GameProgress::InProgress
    } else {
        GameProgress::Lost
    }
}

/// A fully revealed board is a win, whatever the turn budget — zero included.
pub proof fn lemma_all_revealed_wins(turns_left: u8, letters: Seq<Letter>)
    requires
        all_revealed(letters),
    ensures
        progress_of(turns_left, letters) == GameProgress::Won,
{
}

/// With a hidden letter left and turns remaining, the game is still going.
pub proof fn lemma_hidden_letter_in_progress(turns_left: u8, letters: Seq<Letter>)
    requires
        !all_revealed(letters),
        turns_left > 0,
    ensures
        progress_of(turns_left, letters) == GameProgress::InProgress,
{
}

/// With a hidden letter left and no turns remaining, the game is lost.
pub proof fn lemma_hidden_letter_no_turns_lost(letters: Seq<Letter>)
    requires
        !all_revealed(letters),
    ensures
        progress_of(0, letters) == GameProgress::Lost,
{
}

} // verus!
