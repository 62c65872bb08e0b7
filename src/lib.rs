//! A turn-based text maze: the player walks a grid towards a hidden key,
//! then towards a hidden exit, while the walls around them shift after
//! every step.
pub mod point;
pub mod direction;
pub mod player;
pub mod random;
pub mod walls;
pub mod command;
pub mod game;
