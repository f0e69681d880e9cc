//! A kinematic character controller in the style of the PhysX character
//! controller: movement is split into an up, a side and a down sweep, steps
//! are climbed automatically, and a move whose side or down pass touches a
//! surface steeper than the slope limit, higher than a step above the feet,
//! is refused: it is retried as a "walk experiment", and a retry that is
//! still refused is followed by a recovery sweep downward.
//!
//! This crate holds the controller's decisions: how grounding evolves, which
//! sweep passes run and with which budgets, how one sweep iteration reacts to
//! what the geometry reported, how collision flags and the non-walkable
//! verdict are assembled, when the move retries and recovers, when gravity
//! acts, and how the velocity is corrected afterwards.
//! The geometry itself (sweeps, projections, lengths and angles) is measured
//! by the caller and handed in as plain observations.

pub mod engine;
pub mod ground;
pub mod stepping;
pub mod collision;
pub mod controller;
pub mod movement;
