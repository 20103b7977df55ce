use vstd::prelude::*;

verus! {

/// Request to build a native-currency transfer instruction.
#[derive(Debug)]
pub struct SendSolRequest {
    /// Base58 "from" pubkey (sender)
    pub from: String,
    /// Base58 "to" pubkey (recipient)
    pub to: String,
    /// Amount in lamports
    pub lamports: u64,
}

/// Result of building a native-currency transfer instruction.
#[derive(Debug)]
pub struct SendSolData {
    /// System program ID
    pub program_id: String,
    /// Ordered list of account pubkeys involved
    pub accounts: Vec<String>,
    /// Base64-encoded instruction data
    pub instruction_data: String,
}

/// Envelope for a native-transfer result.
#[derive(Debug)]
pub struct SendSolResponse {
    pub success: bool,
    pub data: SendSolData,
}

/// Request to build a token transfer instruction.
#[derive(Debug)]
pub struct SendTokenRequest {
    /// Token mint address
    pub mint: String,
    /// Owner of the destination token account
    pub destination: String,
    /// Owner of the source token account (must sign)
    pub owner: String,
    /// Amount in the mint's smallest units
    pub amount: u64,
}

/// One account reference in a token-transfer response, with its signer flag.
#[derive(Debug)]
pub struct AccountSignerInfo {
    pub pubkey: String,
    pub is_signer: bool,
}

/// Result of building a token transfer instruction.
#[derive(Debug)]
pub struct SendTokenData {
    pub program_id: String,
    pub accounts: Vec<AccountSignerInfo>,
    pub instruction_data: String,
}

/// Envelope for a token-transfer result.
#[derive(Debug)]
pub struct SendTokenResponse {
    pub success: bool,
    pub data: SendTokenData,
}

} // verus!
