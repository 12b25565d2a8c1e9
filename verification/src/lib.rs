//! A number-guessing game: a hidden secret number in [1, 100] and a prize
//! that starts at 1 and is halved on every incorrect guess, never falling
//! below a fixed floor of 1/10000.

pub mod game;
pub mod prize;
mod rng;
