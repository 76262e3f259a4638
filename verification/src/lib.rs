//! Deterministic control core of a small 2D spaceship simulation.
//!
//! The crate turns key state and the ship's heading into a force and torque
//! command, steps the thrust animation, eases a camera after the ship and
//! supervises the two phases of a game. Every quantity is a fixed-point
//! integer, see [`units`]; rendering, physics integration and input devices
//! belong to the host.

pub mod animation;
pub mod camera;
pub mod input;
pub mod lifecycle;
pub mod resolver;
pub mod ship;
pub mod systems;
pub mod units;
pub mod world;
