//! Finds the musical key(s) consistent with a chord progression.
//!
//! The crate has two halves: `keys` builds the catalog of the thirty
//! circle-of-fifths keys with their seven diatonic chords each, and
//! `keyfinder` normalizes free-text chord progressions and matches them
//! against that catalog. The `candidates` module writes out, key by key,
//! what the four generation passes yield, and proves it.

pub mod candidates;
pub mod keyfinder;
pub mod keys;
