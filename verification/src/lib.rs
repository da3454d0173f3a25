//! Verified core of a dual-rate movement pipeline for a single controllable
//! entity.
//!
//! The library separates input sampling (run once per variable-rate tick)
//! from movement resolution and integration (run at a fixed rate), and keeps
//! every quantity in signed 64-bit fixed point so that the whole pipeline can
//! be reasoned about exactly.

pub mod bundles;
pub mod component;
pub mod input;
pub mod math;
pub mod movement;
pub mod schedules;
pub mod task;
pub mod world;
