//! Orchestration core for a first-person scene in which the player walks
//! around, aims at rigid bodies with a ray cast from the viewpoint, picks one
//! up, carries it with stabilized orientation, and releases it, while the
//! physics world advances on a fixed timestep.
//!
//! All quantities are signed 16.16 fixed-point integers; the surrounding
//! binary converts the engine's floating-point state at the boundary.

pub mod fx;
pub mod vec3;
pub mod components;
pub mod scene;
pub mod world;
pub mod picking;
pub mod grab;
pub mod stepper;
pub mod locomotion;
pub mod merge;
pub mod loading;
pub mod game_state;
pub mod frame;
