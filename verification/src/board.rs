//! The letter board: one guessable unit per character of the chosen word.

use vstd::prelude::*;

verus! {

/// One position of the target word: its character, and whether the player
/// has revealed it. The character never changes once the board is built.
#[derive(Clone, Copy, PartialEq, Eq, Structural, Debug)]
pub struct Letter {
    pub character: char,
    pub revealed: bool,
}

/// Build a fresh board for `word`: one hidden letter per character, in word
/// order. A repeated character yields one independent letter per occurrence.
pub fn create_letters(word: &String) -> (letters: Vec<Letter>)
    ensures
        letters@.len() == word@.len(),
        forall|i: int|
            0 <= i < word@.len() ==> letters@[i].character == word@[i] && !letters@[i].revealed,
{
    let n = word.as_str().unicode_len();
    let mut letters: Vec<Letter> = Vec::new();
    let mut idx: usize = 0;
    while idx < n
        invariant
            n == word@.len(),
            idx <= n,
            letters@.len() == idx,
            forall|i: int|
                0 <= i < idx ==> letters@[i].character == word@[i] && !letters@[i].revealed,
        decreases n - idx,
    {
        let c = word.as_str().get_char(idx);
        letters.push(Letter { character: c, revealed: false });
        idx += 1;
    }
    letters
}

/// The one character a letter shows: its own once revealed, a placeholder
/// underscore while hidden.
pub open spec fn letter_display(l: Letter) -> char {
    if l.revealed {
        l.character
    } else {
        '_'
    }
}

/// The board's display tokens: for each letter in order, its shown character
/// followed by a separating space.
pub open spec fn board_tokens(letters: Seq<Letter>) -> Seq<char>
    decreases letters.len(),
{
    if letters.len() == 0 {
        Seq::<char>::empty()
    } else {
        board_tokens(letters.drop_last()) + seq![letter_display(letters.last()), ' ']
    }
}

/// The display tokens hold exactly one shown character and one space per
/// letter of the board, in board order, and a revealed letter shows the
/// exact character it stores.
pub proof fn lemma_board_tokens_shape(letters: Seq<Letter>)
    ensures
        board_tokens(letters).len() == 2 * letters.len(),
        forall|i: int|
            0 <= i < letters.len() ==> board_tokens(letters)[2 * i] == letter_display(letters[i])
                && board_tokens(letters)[2 * i + 1] == ' ',
    decreases letters.len(),
{
    if letters.len() > 0 {
        let prefix = letters.drop_last();
        lemma_board_tokens_shape(prefix);
        assert forall|i: int|
            0 <= i < letters.len() implies board_tokens(letters)[2 * i] == letter_display(
            letters[i],
        ) && board_tokens(letters)[2 * i + 1] == ' ' by {
            if i < prefix.len() {
                assert(board_tokens(letters)[2 * i] == board_tokens(prefix)[2 * i]);
                assert(board_tokens(letters)[2 * i + 1] == board_tokens(prefix)[2 * i + 1]);
                assert(letters[i] == prefix[i]);
            } else {
                assert(i == letters.len() - 1);
            }
        }
    }
}

/// Relies on String::push: it appends the given character to the end of the
/// string.
pub assume_specification[ String::push ](s: &mut String, ch: char)
    ensures
        final(s)@ == old(s)@.push(ch),
;

/// Render the board as one line: a fixed label, then for each position the
/// revealed character or an underscore, each followed by a space.
pub fn display_progress(letters: &Vec<Letter>) -> (s: String)
    ensures
        s@ == "Progress: "@ + board_tokens(letters@),
{
    let mut s = String::from_str("Progress: ");
    let mut idx: usize = 0;
    while idx < letters.len()
        invariant
            idx <= letters@.len(),
            s@ == "Progress: "@ + board_tokens(letters@.subrange(0, idx as int)),
        decreases letters@.len() - idx,
    {
        let l = letters[idx];
        let shown: char = if l.revealed {
            l.character
        } else {
            '_'
        };
        s.push(shown);
        s.push(' ');
        idx += 1;
        proof {
            let sub1 = letters@.subrange(0, idx as int);
            assert(sub1.drop_last() =~= letters@.subrange(0, idx - 1));
            assert(sub1.last() == letters@[idx - 1]);
            assert(s@ =~= "Progress: "@ + board_tokens(sub1));
        }
    }
    proof {
        assert(letters@.subrange(0, letters@.len() as int) =~= letters@);
    }
    s
}

} // verus!
