//! Simulation core of a fixed-formation arcade shooter: movement, formation
//! marching, weapons, collision resolution, scoring and the game state machine.

pub mod collision;
pub mod components;
pub mod enums;
pub mod frame;
pub mod game;
pub mod geometry;
pub mod ledger;
pub mod movement;
pub mod random;
pub mod resources;
pub mod search;
pub mod setup;
pub mod states;
pub mod timer;
pub mod weapons;
