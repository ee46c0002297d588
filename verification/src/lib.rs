//! A seed-deterministic byte-buffer mutation engine for fuzz testing.
//!
//! A [`Mutator`] owns a byte buffer, a seed and a number of rounds. Each
//! round draws from a pseudo-random generator to select one of a fixed
//! catalog of byte-level strategies and its parameters, and applies the
//! resulting mutation to the buffer in place.

pub mod catalog;
pub mod engine;
pub mod laws;
pub mod mutation;
pub mod mutator;
pub mod rng;
pub mod strategy;

pub use crate::catalog::Catalog;
pub use crate::engine::mutate;
pub use crate::mutation::Mutation;
pub use crate::mutator::Mutator;
pub use crate::rng::Rng;
pub use crate::strategy::Strategy;
