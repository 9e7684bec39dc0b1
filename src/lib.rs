//! Procedural board generation and player movement for a small exploration game.
//!
//! World lengths are fixed-point integers: one world unit is `MILLI` steps.
//! Noise samples are fixed-point too: a noise value of one is `NOISE_ONE`.

pub mod constants;
pub mod grid;
pub mod player;
pub mod shared;
pub mod terrain;


