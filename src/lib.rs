//! Rules engine for the board game Backgammon: the board, the dice, the doubling cube and the
//! turn sequence of a single game, with every rule stated as a contract and proved.
//!
//! * [`Board`]: checker counts per point, bar and off for both players, with hits and blocks.
//! * [`Dices`]: a roll and which of its moves have been used.
//! * [`Cube`]: the stake, a power of two, and who holds it.
//! * [`Game`]: the state machine that orders rolls, moves and doubling offers.

pub mod board;
pub mod cube;
pub mod dices;
pub mod error;
pub mod game;
pub mod player;
pub mod rules;

pub use board::{Board, BoardDisplay, Move, PlayerBoard};
pub use cube::Cube;
pub use dices::{Dices, Roll};
pub use error::Error;
pub use game::{Game, GameState};
pub use player::Player;
pub use rules::{Rules, SetRules};
