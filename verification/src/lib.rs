//! Ultimate tic-tac-toe: a verified game-state model and adversarial search.
//!
//! The game is played on a 3x3 grid of 3x3 sub-boards. The cell a player
//! picks inside a sub-board decides which sub-board the opponent must play
//! in next. [`game`] holds the board model and the move rules, [`eval`] the
//! static heuristic score of a position, and [`search`] the depth- and
//! time-bounded minimax search that picks the computer's move. [`laws`]
//! states and proves the properties the model guarantees.

pub mod eval;
pub mod game;
pub mod laws;
pub mod search;
