//! A two-lane terminal race between a player's crab and a timer-driven
//! opponent, with the race rules proved against a model of the board.

pub mod crab;
pub mod crabrace;
pub mod schedule;
pub mod screen;
pub mod terminal;
