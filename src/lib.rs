//! One round of a letter-guessing game: a secret word, the part of it that
//! has been revealed so far, and the count of wrong guesses against a fixed
//! number of lives.

pub mod game;
pub mod input;

pub use game::{
    evaluate_status, init_state, lives_left, process_turn, GameStatus, State, MAX_LIVES, PLACEHOLDER,
};
pub use input::{letter_from_line, letter_of, word_from_line, word_of};
