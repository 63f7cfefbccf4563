//! Rules of an artillery duel between two sides on destructible terrain:
//! turn order, weapons and their effects, defensive structures, and the
//! index buffers of the meshes that the world is drawn with.

pub mod arsenal;
pub mod flight;
pub mod game;
pub mod mesh;
pub mod player;
pub mod structures;
pub mod terrain;
pub mod text;
pub mod world;
