//! Evaluators for a monitoring layer: hard-limit constraint checks, z-score
//! drift verdicts and the sample checks around embedding-based divergence.
//!
//! Single-precision values are carried as their IEEE-754 bit patterns
//! ([`reading::Reading`]); their ordering is specified and proved over the bits.

pub mod constraints;
pub mod divergence;
pub mod drift;
pub mod reading;
pub mod text;
