//! Keys, digests and signatures, all by their encodings.
pub mod api;
pub mod engine;
pub mod types;
