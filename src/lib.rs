//! A small grid-based snake game: the movement step, the food placement rule and
//! the tick accumulation that drives them, each with a proved contract.

pub mod grid;
pub mod snake;
pub mod food;
pub mod game;
