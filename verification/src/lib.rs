//! Simulation core of a small tile-platform runner: terrain, input, player
//! physics, frame composition and the setup protocol of the drawing program.
//!
//! Lengths, speeds and colour channels are fixed-point integers in
//! thousandths of a unit, so every rule of the simulation is exact.

pub mod terrain;
pub mod frame;
pub mod input;
pub mod motion_laws;
pub mod player;
pub mod program;
pub mod scene;
