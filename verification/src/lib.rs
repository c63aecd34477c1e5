//! A classic bottom-up "doom fire" cellular automaton on a grid of palette
//! indices, with noise-driven wind drift, stochastic decay, a text-label
//! overlay, and an ember particle overlay rendered into the same buffer.

pub mod diffusion;
pub mod doom_fire;
pub mod fire_type;
pub mod palette;
pub mod particle;
mod rng;
pub mod wind;
