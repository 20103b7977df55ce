use vstd::prelude::*;

verus! {

/// Request to sign a message.
#[derive(Debug)]
pub struct SignMessageRequest {
    /// The message to sign
    pub message: String,
    /// Base58-encoded 64-byte secret key
    pub secret: String,
}

/// Request to verify a signature.
#[derive(Debug)]
pub struct VerifyMessageRequest {
    /// The message that was signed
    pub message: String,
    /// Base64-encoded signature
    pub signature: String,
    /// Base58-encoded public key used to sign
    pub pubkey: String,
}

/// Result of a successful sign.
#[derive(Debug)]
pub struct SignMessageData {
    pub signature: String,
    pub public_key: String,
    pub message: String,
}

/// Envelope for a sign result.
#[derive(Debug)]
pub struct SignMessageResponse {
    pub success: bool,
    pub data: SignMessageData,
}

/// Result of a successful verify.
#[derive(Debug)]
pub struct VerifyMessageData {
    pub valid: bool,
    pub message: String,
    pub pubkey: String,
}

/// Envelope for a verify result.
#[derive(Debug)]
pub struct VerifyMessageResponse {
    pub success: bool,
    pub data: VerifyMessageData,
}

} // verus!
