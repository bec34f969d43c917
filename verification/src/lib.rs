//! A connection-game engine for classic four-in-a-row and for the
//! letter-placement variant TOOT-OTTO: the grid, the board with its move
//! rules, win detection over a four-symbol pattern, and a depth-limited
//! minimax search with alpha-beta pruning.
//!
//! - [`grid`]: the cell store.
//! - [`board`]: the board, its invariant and its mathematical value.
//! - [`moves`]: making and taking back moves, legal moves, draws.
//! - [`winner`]: win detection.
//! - [`search`]: the search and what its score means.
//! - [`laws`]: what holds of every game.
//! - [`play`]: one turn of a game against a human or the computer.
//! - [`setup`]: checks on the entries that set a game up.
//! - [`render`]: the board as text.
//! - [`models`]: the records that callers store and send.

pub mod board;
pub mod grid;
pub mod laws;
pub mod models;
pub mod moves;
pub mod play;
pub mod render;
pub mod search;
pub mod setup;
pub mod winner;
