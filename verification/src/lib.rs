//! A five-letter word-guessing game core: a board of six rows of letter
//! cells, the duplicate-letter-aware guess classification algorithm, and a
//! word bank that selects a secret answer and validates guesses.
//!
//! The presentation layer (terminal drawing, keyboard handling) lives
//! outside this crate; it drives the board through plain edit events and
//! reads the board back through plain queries.

mod classify;
mod game;
mod letters;
mod util;
mod words;

pub use game::BoardRow;
pub use game::Cell;
pub use game::Game;
pub use util::get_centered_top_left;
pub use words::Words;
