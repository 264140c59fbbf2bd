//! A verified core for a two-player game of tic-tac-toe on a 3×3 board.
//!
//! The library holds the rules of the game and nothing of the platform: input
//! events go in as plain values, and each frame comes out as a list of drawing
//! commands.

pub mod draw;
pub mod game;
pub mod globals;
pub mod inputhandler;
pub mod tile;
