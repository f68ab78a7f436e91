//! Solver for a five-letter word-guessing puzzle.
//!
//! A dictionary of candidate words is narrowed, guess by guess, using
//! per-letter feedback from an external oracle, until a guess comes back
//! fully correct or the candidate set runs dry.

pub mod errors;
pub mod feedback;
pub mod engine;
