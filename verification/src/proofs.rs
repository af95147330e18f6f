//! Pieces, sectors, seals and proofs of spacetime.
pub mod api;
pub mod engine;
pub mod error;
pub mod helpers;
pub mod types;
