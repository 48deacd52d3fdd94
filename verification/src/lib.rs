pub mod cube;
pub mod generators;
pub mod moves;
pub mod random;
pub mod scramble;

pub use cube::Cube;
pub use moves::{Move, MoveFace, MoveType, MoveWidth};
pub use scramble::Scramble;
