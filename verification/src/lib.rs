//! The rules of a five-letter word-guessing game, with verified contracts.
//!
//! A `Game` holds a secret word and the history of guesses. `Game::guess_word`
//! takes a guess and says what became of it; `evaluate` says how each letter
//! of a guess relates to the secret word. The module `rules` states the game
//! as mathematics, `laws` proves what follows from it, and `render` turns a
//! game into text for a terminal.

pub mod evaluator;
pub mod game;
pub mod guess;
pub mod laws;
pub mod render;
pub mod rules;
pub mod text;
mod words;

pub use evaluator::{evaluate, GuessChar, GuessCharStatus};
pub use game::{valid_secret, Game, GuessOutcome};
pub use guess::Guess;
pub use render::{render_guess, render_status, render_turn};
pub use rules::{RejectReason, MAX_GUESSES, WORD_LEN};
