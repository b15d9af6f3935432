//! Monte Carlo estimation for the dice-resolution combat mechanic of a
//! territory-conquest board game: one battle is simulated round by round
//! until a side is eliminated, and many independent battles are aggregated
//! into summary statistics.

pub mod battle;
pub mod dice;
pub mod policy;
pub mod stats;
pub mod text;
