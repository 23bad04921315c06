use hangman::board::{create_letters, display_progress, Letter};
use hangman::game::{Game, TurnOutcome, ALLOWED_ATTEMPTS};
use hangman::input::{extract_guess, QUIT_SENTINEL};
use hangman::progress::{check_progress, GameProgress};
use hangman::words::{select_word, split_words, trim_spaces};

fn board(spec: &[(char, bool)]) -> Vec<Letter> {
    spec.iter()
        .map(|&(character, revealed)| Letter { character, revealed })
        .collect()
}

#[test]
fn create_letters_fresh_board() {
    let word = String::from("cat");
    let letters = create_letters(&word);
    assert_eq!(letters.len(), 3);
    let expected = ['c', 'a', 't'];
    for (i, letter) in letters.iter().enumerate() {
        assert_eq!(letter.character, expected[i]);
        assert!(!letter.revealed);
    }
}

#[test]
fn create_letters_keeps_duplicates() {
    let word = String::from("noon");
    let letters = create_letters(&word);
    assert_eq!(letters.len(), 4);
    assert_eq!(letters[0].character, 'n');
    assert_eq!(letters[1].character, 'o');
    assert_eq!(letters[2].character, 'o');
    assert_eq!(letters[3].character, 'n');
}

#[test]
fn check_progress_all_revealed_is_won_even_at_zero_turns() {
    let letters = board(&[('c', true), ('a', true), ('t', true)]);
    assert_eq!(check_progress(0, &letters), GameProgress::Won);
    assert_eq!(check_progress(5, &letters), GameProgress::Won);
}

#[test]
fn check_progress_hidden_letter_with_turns_is_in_progress() {
    let letters = board(&[('c', true), ('a', false), ('t', true)]);
    assert_eq!(check_progress(1, &letters), GameProgress::InProgress);
    assert_eq!(check_progress(5, &letters), GameProgress::InProgress);
}

#[test]
fn check_progress_hidden_letter_without_turns_is_lost() {
    let letters = board(&[('c', false), ('a', false), ('t', false)]);
    assert_eq!(check_progress(0, &letters), GameProgress::Lost);
}

#[test]
fn display_progress_shows_revealed_and_placeholders() {
    let letters = board(&[('c', true), ('a', false), ('t', true)]);
    assert_eq!(display_progress(&letters), "Progress: c _ t ");
}

#[test]
fn display_progress_all_hidden() {
    let letters = board(&[('c', false), ('a', false), ('t', false)]);
    assert_eq!(display_progress(&letters), "Progress: _ _ _ ");
}

#[test]
fn extract_guess_takes_first_character() {
    assert_eq!(extract_guess("guess\n"), 'g');
    assert_eq!(extract_guess("c"), 'c');
}

#[test]
fn extract_guess_empty_line_is_quit() {
    assert_eq!(extract_guess(""), QUIT_SENTINEL);
    assert_eq!(extract_guess(""), '*');
}

#[test]
fn trim_spaces_strips_both_ends() {
    assert_eq!(trim_spaces(" \n\tcat,dog \r\n"), "cat,dog");
    assert_eq!(trim_spaces("cat"), "cat");
    assert_eq!(trim_spaces("   "), "");
}

#[test]
fn split_words_splits_on_commas() {
    let words = split_words("cat,dog,pig");
    assert_eq!(words, vec!["cat", "dog", "pig"]);
}

#[test]
fn split_words_keeps_empty_entries() {
    assert_eq!(split_words("a,,b"), vec!["a", "", "b"]);
    assert_eq!(split_words(""), vec![""]);
}

#[test]
fn select_word_single_entry() {
    assert_eq!(select_word("cat"), "cat");
    assert_eq!(select_word("  cat \n"), "cat");
}

#[test]
fn select_word_returns_a_listed_word() {
    for _ in 0..20 {
        let word = select_word(" cat,dog,pig ");
        assert!(word == "cat" || word == "dog" || word == "pig");
    }
}

#[test]
fn winning_game_keeps_full_turn_budget() {
    let word = String::from("cat");
    let mut game = Game::new(&word);
    assert_eq!(game.turns_left, 5);
    assert_eq!(game.play_turn('c'), TurnOutcome::InProgress);
    assert_eq!(game.play_turn('a'), TurnOutcome::InProgress);
    assert_eq!(game.play_turn('t'), TurnOutcome::Won);
    assert_eq!(game.turns_left, 5);
}

#[test]
fn five_misses_lose_the_game() {
    let word = String::from("cat");
    let mut game = Game::new(&word);
    assert_eq!(game.play_turn('x'), TurnOutcome::InProgress);
    assert_eq!(game.play_turn('y'), TurnOutcome::InProgress);
    assert_eq!(game.play_turn('z'), TurnOutcome::InProgress);
    assert_eq!(game.play_turn('q'), TurnOutcome::InProgress);
    assert_eq!(game.play_turn('w'), TurnOutcome::Lost);
    assert_eq!(game.turns_left, 0);
}

#[test]
fn quit_sentinel_ends_the_game_unchanged() {
    let word = String::from("cat");
    let mut game = Game::new(&word);
    assert_eq!(game.play_turn('*'), TurnOutcome::Quit);
    assert_eq!(game.turns_left, 5);
    assert!(game.letters.iter().all(|l| !l.revealed));
}

#[test]
fn repeated_letters_reveal_together() {
    let word = String::from("noon");
    let mut game = Game::new(&word);
    assert_eq!(game.play_turn('o'), TurnOutcome::InProgress);
    assert!(game.letters[1].revealed);
    assert!(game.letters[2].revealed);
    assert!(!game.letters[0].revealed);
    assert!(!game.letters[3].revealed);
    assert_eq!(game.play_turn('n'), TurnOutcome::Won);
    assert!(game.letters.iter().all(|l| l.revealed));
    assert_eq!(game.turns_left, 5);
}

#[test]
fn miss_spends_one_turn_and_hit_spends_none() {
    let word = String::from("cat");
    let mut game = Game::new(&word);
    assert_eq!(game.turns_left, ALLOWED_ATTEMPTS);
    game.play_turn('x');
    assert_eq!(game.turns_left, 4);
    game.play_turn('c');
    assert_eq!(game.turns_left, 4);
}
