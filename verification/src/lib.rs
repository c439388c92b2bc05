//! Simulation core of a tile-based dungeon game: a procedurally generated
//! tile grid, entities that occupy grid cells, and collision-aware movement
//! over that grid. Window management, font loading and device input are left
//! to an external rendering collaborator; this crate only composes frames and
//! decides what each key event means.

pub mod entity;
pub mod gen;
pub mod grid;
pub mod input;
pub mod scene;
pub mod tile;
