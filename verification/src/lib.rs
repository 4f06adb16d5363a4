//! An evolutionary simulation engine: populations of simple creatures whose
//! behavior is wired by a bit-packed genome, evolving across generations
//! through selection, crossover and mutation.

pub mod andis;
pub mod creature;
pub mod evaluator;
pub mod genes;
pub mod pairing;
pub mod fixp;
pub mod generation;
pub mod rng;
pub mod world;
