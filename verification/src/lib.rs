//! The withdrawal relation of an anonymous mixer.
//!
//! A withdrawal is valid where a secret note hashes to a leaf that an
//! authentication path joins to a public root, where the public nullifier is
//! the one derived from that note, and where the public memo is not `-1`. The
//! relation is written once, against an evaluation strategy, and evaluated
//! here over concrete field elements.

pub mod circuit;
pub mod constants;
pub mod errors;
pub mod field;
pub mod merkle;
pub mod native;
pub mod poseidon;
