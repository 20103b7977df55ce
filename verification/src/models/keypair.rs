use vstd::prelude::*;

verus! {

/// A freshly generated keypair, both halves in base58.
#[derive(Debug)]
pub struct KeypairData {
    /// base58-encoded public key
    pub pubkey: String,
    /// base58-encoded secret key (64 bytes)
    pub secret: String,
}

/// Envelope for a keypair-generation result.
#[derive(Debug)]
pub struct KeypairResponse {
    /// always true on success
    pub success: bool,
    pub data: KeypairData,
}

} // verus!
