//! BLS signatures over BLS12-381 and the bookkeeping of sealing and of
//! proofs of spacetime: what is decoded, what is refused, and what a caller
//! is told. The curve arithmetic and the proofs themselves are the work of
//! outside engines; what is believed of them stands with each call.
pub mod bls;
pub mod chunks;
pub mod field;
pub mod proofs;
