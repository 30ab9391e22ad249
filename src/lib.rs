//! A snake game on a square grid with wrap-around edges, a wall map that can
//! be edited, and a menu that switches between playing and editing.
//!
//! Everything that decides what happens lives here and is verified; drawing
//! to the terminal and reading input belong to the program that drives it.

pub mod geometry;
pub mod grid;
pub mod snake;
pub mod fruit;
pub mod input;
pub mod session;
