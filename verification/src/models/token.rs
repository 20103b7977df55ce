use vstd::prelude::*;

verus! {

/// Request to build a mint-initialization instruction.
#[derive(Debug)]
pub struct CreateTokenRequest {
    /// base58 pubkey of the mint authority
    pub mint_authority: String,
    /// base58 pubkey of the new mint account
    pub mint: String,
    /// number of decimals
    pub decimals: u8,
}

/// Request to build a mint-to instruction.
#[derive(Debug)]
pub struct MintTokenRequest {
    /// base58 pubkey of the mint
    pub mint: String,
    /// base58 pubkey of the destination account
    pub destination: String,
    /// base58 pubkey of the mint authority
    pub authority: String,
    /// amount to mint
    pub amount: u64,
}

/// One account reference in a response, with both access flags.
#[derive(Debug)]
pub struct AccountMetaInfo {
    pub pubkey: String,
    pub is_signer: bool,
    pub is_writable: bool,
}

/// Result of building a mint-initialization instruction.
#[derive(Debug)]
pub struct CreateTokenData {
    pub program_id: String,
    pub accounts: Vec<AccountMetaInfo>,
    /// base64-encoded
    pub instruction_data: String,
}

/// Envelope for a mint-initialization result.
#[derive(Debug)]
pub struct CreateTokenResponse {
    pub success: bool,
    pub data: CreateTokenData,
}

/// Result of building a mint-to instruction.
#[derive(Debug)]
pub struct MintTokenData {
    pub program_id: String,
    pub accounts: Vec<AccountMetaInfo>,
    /// base64-encoded
    pub instruction_data: String,
}

/// Envelope for a mint-to result.
#[derive(Debug)]
pub struct MintTokenResponse {
    pub success: bool,
    pub data: MintTokenData,
}

} // verus!
