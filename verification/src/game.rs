//! The game's state machine: one session's board and turn budget, advanced
//! one guessed character at a time.

use vstd::prelude::*;
use crate::board::Letter;
use crate::board::create_letters;
use crate::progress::GameProgress;
use crate::progress::check_progress;
use crate::progress::progress_of;
use crate::input::QUIT_SENTINEL;

verus! {

/// How many wrong guesses a session starts with.
pub const ALLOWED_ATTEMPTS: u8 = 5;

/// What one turn ends in: the session goes on, was won or lost, or the
/// player asked to quit.
#[derive(Clone, Copy, PartialEq, Eq, Structural, Debug)]
pub enum TurnOutcome {
    InProgress,
    Won,
    Lost,
    Quit,
}

/// One session: the letter board and the remaining budget of wrong guesses.
pub struct Game {
    pub letters: Vec<Letter>,
    pub turns_left: u8,
}

/// Some letter of the board stores the guessed character.
pub open spec fn board_has_char(letters: Seq<Letter>, guess: char) -> bool {
    exists|i: int| 0 <= i < letters.len() && letters[i].character == guess
}

/// The board after a guess: every letter storing the guessed character is
/// revealed, every other letter is unchanged.
pub open spec fn reveal_matches(letters: Seq<Letter>, guess: char) -> Seq<Letter> {
    letters.map_values(
        |l: Letter|
            Letter { character: l.character, revealed: l.revealed || l.character == guess },
    )
}

/// The turn budget after a guess: unchanged on a hit, one less on a miss,
/// floored at zero.
pub open spec fn next_turns(turns_left: u8, hit: bool) -> u8 {
    if hit {
        turns_left
    } else if turns_left > 0 {
        (turns_left - 1) as u8
    } else {
        0
    }
}

/// The turn outcome that a progress value maps to.
pub open spec fn outcome_of(p: GameProgress) -> TurnOutcome {
    match p {
        GameProgress::InProgress => TurnOutcome::InProgress,
        GameProgress::Won => TurnOutcome::Won,
        GameProgress::Lost => TurnOutcome::Lost,
    }
}

impl Game {
    /// Start a session on `word`: a fresh, fully hidden board and the full
    /// turn budget.
    pub fn new(word: &String) -> (g: Game)
        ensures
            g.turns_left == ALLOWED_ATTEMPTS,
            g.letters@.len() == word@.len(),
            forall|i: int|
                0 <= i < word@.len() ==> g.letters@[i].character == word@[i]
                    && !g.letters@[i].revealed,
    {
        Game { letters: create_letters(word), turns_left: ALLOWED_ATTEMPTS }
    }

    /// Reveal every letter matching `guess`; on a miss, spend one turn of
    /// the budget. Returns whether at least one letter matched.
    pub fn apply_guess(&mut self, guess: char) -> (hit: bool)
        ensures
            hit == board_has_char(old(self).letters@, guess),
            final(self).letters@ == reveal_matches(old(self).letters@, guess),
            final(self).turns_left == next_turns(old(self).turns_left, hit),
    {
        let ghost orig = self.letters@;
        let mut hit = false;
        let mut idx: usize = 0;
        while idx < self.letters.len()
            invariant
                idx <= orig.len(),
                self.letters@.len() == orig.len(),
                self.turns_left == old(self).turns_left,
                forall|i: int| idx <= i < orig.len() ==> self.letters@[i] == orig[i],
                forall|i: int|
                    0 <= i < idx ==> self.letters@[i] == (Letter {
                        character: orig[i].character,
                        revealed: orig[i].revealed || orig[i].character == guess,
                    }),
                hit == exists|i: int| 0 <= i < idx && orig[i].character == guess,
            decreases orig.len() - idx,
        {
            let l = self.letters[idx];
            if l.character == guess {
                self.letters.set(idx, Letter { character: l.character, revealed: true });
                hit = true;
                proof {
                    assert(orig[idx as int].character == guess);
                }
            }
            idx += 1;
        }
        proof {
            assert(self.letters@ =~= reveal_matches(orig, guess));
        }
        if !hit && self.turns_left > 0 {
            self.turns_left = self.turns_left - 1;
        }
        hit
    }

    /// Play one full turn on `guess`. The quit sentinel ends the session at
    /// once and changes nothing; any other character is applied to the board
    /// and the turn budget, and the session's progress decides the outcome.
    pub fn play_turn(&mut self, guess: char) -> (r: TurnOutcome)
        ensures
            guess == QUIT_SENTINEL ==> r == TurnOutcome::Quit && *final(self) == *old(self),
            guess != QUIT_SENTINEL ==> {
                &&& final(self).letters@ == reveal_matches(old(self).letters@, guess)
                &&& final(self).turns_left == next_turns(
                    old(self).turns_left,
                    board_has_char(old(self).letters@, guess),
                )
                &&& r == outcome_of(progress_of(final(self).turns_left, final(self).letters@))
            },
    {
        if guess == QUIT_SENTINEL {
            return TurnOutcome::Quit;
        }
        self.apply_guess(guess);
        let p = check_progress(self.turns_left, &self.letters);
        match p {
            GameProgress::InProgress => TurnOutcome::InProgress,
            GameProgress::Won => TurnOutcome::Won,
            GameProgress::Lost => TurnOutcome::Lost,
        }
    }
}

} // verus!
