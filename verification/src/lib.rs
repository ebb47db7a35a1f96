//! Core of a tick-driven 2D arena combat simulation.
//!
//! All world quantities are fixed-point integers: positions, velocities and
//! distances carry 1000 sub-units per world unit (`MILLI`), and combatant
//! health carries 300 sub-units per health point (`HEALTH_SCALE`), so that the
//! damage and regeneration rules are exact integer arithmetic.  Rendering and
//! input polling are left to a host layer, which drives [`sim::Game::tick`]
//! with a plain [`sim::InputState`] and draws from the public state.

pub mod combat;
pub mod entity;
pub mod geom;
pub mod grid;
mod rng;
pub mod sim;
pub mod store;
