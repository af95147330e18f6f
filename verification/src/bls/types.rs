//! What the signature operations hand back.
use vstd::prelude::*;

verus! {

/// What hashing a message gives: the digest.
#[derive(Debug)]
pub struct HashResponse {
    pub digest: [u8; 96],
}

/// What aggregating signatures gives: one signature.
#[derive(Debug)]
pub struct AggregateResponse {
    pub signature: [u8; 96],
}

/// What key generation gives: a fresh private key.
#[derive(Debug)]
pub struct PrivateKeyGenerateResponse {
    pub private_key: [u8; 32],
}

/// What signing gives: the signature.
#[derive(Debug)]
pub struct PrivateKeySignResponse {
    pub signature: [u8; 96],
}

/// What key derivation gives: the public key.
#[derive(Debug)]
pub struct PrivateKeyPublicKeyResponse {
    pub public_key: [u8; 48],
}

} // verus!
