//! Benchmark-suite generation for chess move-counting backends.

pub mod emit;
pub mod error;
pub mod expand;
pub mod filter;
pub mod generate;
pub mod harness;
pub mod load;
pub mod model;
pub mod normalize;
pub mod text;
