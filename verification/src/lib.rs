//! Core of a terminal letter-guessing game.
//!
//! A word is chosen at random from a comma-separated list, wrapped into a
//! board of hidden letters, and revealed guess by guess until the word is
//! complete (a win) or the budget of wrong guesses is spent (a loss).

pub mod board;
pub mod progress;
pub mod words;
pub mod input;
pub mod game;
