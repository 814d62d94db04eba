//! Logic of a small grid arcade game: a frog steps around an 8 by 6 board
//! while robots chase it; collisions kill actors and leave wrecks behind.

pub mod actor;
pub mod game;
pub mod grid;
pub mod random;
