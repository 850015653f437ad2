//! Procedural generation of a small universe: a galaxy of stars, the planets
//! of a chosen star and the biosphere of a chosen planet, with the state
//! machine that moves between the three levels.
//!
//! Every level below the galaxy is generated from a seed that its parent
//! gives, so that the same star has the same planets and the same planet the
//! same life whenever the player comes back to it.

pub mod commands;
pub mod galaxy_generator;
pub mod game_manager;
pub mod organism_generator;
pub mod planet_generator;
pub mod planetary_environment_generator;
pub mod planetary_system_generator;
pub mod rng;
pub mod sampler;
pub mod star_generator;
pub mod state_machine;
pub mod text;

