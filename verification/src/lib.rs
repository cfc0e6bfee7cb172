//! The simulation core of a small tile-based roguelike: a grid of tiles,
//! the objects that walk on it, the frame that shows them and the loop that
//! reacts to the keyboard.

pub mod game;
pub mod game_loop;
pub mod grid;
pub mod input;
pub mod map;
pub mod object;
pub mod render;
pub mod tile;
