//! Small verified building blocks: a number sequence, a cumulative verse,
//! temperature conversion, string and slice helpers, rectangles, coins, the
//! rules of a guessing game, and a restaurant laid out as a module tree.
pub mod exercises;
pub mod ownership;
pub mod structs;
pub mod collections;
pub mod enums;
pub mod guessing_game;
pub mod variables;
pub mod restaurant;
