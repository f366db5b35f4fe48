//! A number-guessing game for the terminal, as a library of verified parts.
//!
//! The player names a range and a guess, a number is drawn from the range, and
//! the outcome decides which message is asked of a text-generation service.
//! This crate holds everything that decides or computes: the range parser,
//! the bounded draw, the key-driven screens and their layout. Reading keys,
//! writing to the terminal and talking to the network are left to the caller.

pub mod frame;
pub mod game;
pub mod input;
pub mod key;
pub mod messages;
