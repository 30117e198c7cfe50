//! Core of a small real-time-strategy world: an entity store keyed by
//! unique names, a FIFO event queue, and a per-tick event processor that
//! resolves movement, combat, construction and destruction.
//!
//! All world quantities (coordinates, speeds, cargo, health, elapsed time)
//! are fixed-point integers in milli-units: a stored value of 1000 is one
//! world unit. This keeps every rule of the simulation exact and decidable.

pub mod engine;
pub mod events;
pub mod geom;
pub mod laws;
pub mod object;
pub mod step;
pub mod worldgen;
