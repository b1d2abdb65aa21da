//! A bounded grid on which a player square, a coin and enemies bounce.
//!
//! `entity` holds the per-tick motion rule; `game` holds the board state, its
//! per-tick update, the handling of input events and the rasterization of the
//! board into a pixel grid.

pub mod entity;
pub mod game;
pub mod geometry;
mod random;
