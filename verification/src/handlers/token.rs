use vstd::prelude::*;
use crate::codec::{
    base58_decode_of, base58_of, base64_decode_of, base64_of, encode_base58, encode_base64,
    parse_pubkey, pubkey_from_b58,
};
use crate::errors::{ApiError, ErrorKind};
use crate::instruction::{
    build_initialize_mint, build_mint_to, initialize_mint_data, mint_to_data, rent_sysvar_id_bytes,
    token_program_id_bytes, InstructionAccountRef,
};
use crate::models::token::{
    AccountMetaInfo, CreateTokenData, CreateTokenRequest, CreateTokenResponse, MintTokenData,
    MintTokenRequest, MintTokenResponse,
};

verus! {

/// Renders instruction account references into their response form, base58
/// addresses with both access flags, keeping order.
fn account_meta_list(accounts: &Vec<InstructionAccountRef>) -> (r: Vec<AccountMetaInfo>)
    ensures
        r@.len() == accounts@.len(),
        forall|i: int|
            0 <= i < r@.len() ==> {
                &&& (#[trigger] r@[i]).pubkey@ == base58_of(accounts@[i].addr@)
                &&& base58_decode_of(r@[i].pubkey@) == Some(accounts@[i].addr@)
                &&& r@[i].is_signer == accounts@[i].is_signer
                &&& r@[i].is_writable == accounts@[i].is_writable
            },
{
    let mut out: Vec<AccountMetaInfo> = Vec::new();
    let mut i: usize = 0;
    while i < accounts.len()
        invariant
            i <= accounts.len(),
            out@.len() == i,
            forall|j: int|
                0 <= j < i ==> {
                    &&& (#[trigger] out@[j]).pubkey@ == base58_of(accounts@[j].addr@)
                    &&& base58_decode_of(out@[j].pubkey@) == Some(accounts@[j].addr@)
                    &&& out@[j].is_signer == accounts@[j].is_signer
                    &&& out@[j].is_writable == accounts@[j].is_writable
                },
        decreases accounts.len() - i,
    {
        let a = &accounts[i];
        let pubkey = encode_base58(&a.addr);
        out.push(AccountMetaInfo { pubkey, is_signer: a.is_signer, is_writable: a.is_writable });
        i = i + 1;
    }
    out
}

/// Builds the mint-initialization instruction for a new token mint.  Both
/// addresses must be valid base58 forms of 32 bytes, else the request is an
/// encoding error.  The instruction initializes the mint with the given
/// authority, the given decimals, and no freeze authority.
pub fn create(req: CreateTokenRequest) -> (r: Result<CreateTokenResponse, ApiError>)
    ensures
        r is Ok <==> (pubkey_from_b58(req.mint@) is Some && pubkey_from_b58(req.mint_authority@)
            is Some),
        r matches Err(e) ==> e.kind == ErrorKind::InvalidEncoding,
        r matches Ok(resp) ==> (pubkey_from_b58(req.mint@) matches Some(mint) && pubkey_from_b58(
            req.mint_authority@,
        ) matches Some(auth) && {
            &&& resp.success
            &&& resp.data.program_id@ == base58_of(token_program_id_bytes())
            &&& base58_decode_of(resp.data.program_id@) == Some(token_program_id_bytes())
            &&& resp.data.accounts@.len() == 2
            &&& resp.data.accounts@[0].pubkey@ == base58_of(mint)
            &&& base58_decode_of(resp.data.accounts@[0].pubkey@) == Some(mint)
            &&& !resp.data.accounts@[0].is_signer
            &&& resp.data.accounts@[0].is_writable
            &&& resp.data.accounts@[1].pubkey@ == base58_of(rent_sysvar_id_bytes())
            &&& base58_decode_of(resp.data.accounts@[1].pubkey@) == Some(rent_sysvar_id_bytes())
            &&& !resp.data.accounts@[1].is_signer
            &&& !resp.data.accounts@[1].is_writable
            &&& resp.data.instruction_data@ == base64_of(initialize_mint_data(auth, req.decimals))
            &&& base64_decode_of(resp.data.instruction_data@) == Some(
                initialize_mint_data(auth, req.decimals),
            )
        }),
{
    let mint = match parse_pubkey(req.mint.as_str()) {
        Ok(v) => v,
        Err(e) => { return Err(e); },
    };
    let authority = match parse_pubkey(req.mint_authority.as_str()) {
        Ok(v) => v,
        Err(e) => { return Err(e); },
    };
    let payload = build_initialize_mint(&mint, &authority, req.decimals);
    let accounts = account_meta_list(&payload.accounts);
    let data = CreateTokenData {
        program_id: encode_base58(&payload.program_id),
        accounts,
        instruction_data: encode_base64(&payload.data),
    };
    Ok(CreateTokenResponse { success: true, data })
}

/// Builds the mint-to instruction putting new tokens into an account.  All
/// three addresses must be valid base58 forms of 32 bytes, else the request
/// is an encoding error.
pub fn mint(req: MintTokenRequest) -> (r: Result<MintTokenResponse, ApiError>)
    ensures
        r is Ok <==> (pubkey_from_b58(req.mint@) is Some && pubkey_from_b58(req.destination@)
            is Some && pubkey_from_b58(req.authority@) is Some),
        r matches Err(e) ==> e.kind == ErrorKind::InvalidEncoding,
        r matches Ok(resp) ==> (pubkey_from_b58(req.mint@) matches Some(mint) && pubkey_from_b58(
            req.destination@,
        ) matches Some(dest) && pubkey_from_b58(req.authority@) matches Some(auth) && {
            &&& resp.success
            &&& resp.data.program_id@ == base58_of(token_program_id_bytes())
            &&& base58_decode_of(resp.data.program_id@) == Some(token_program_id_bytes())
            &&& resp.data.accounts@.len() == 3
            &&& resp.data.accounts@[0].pubkey@ == base58_of(mint)
            &&& base58_decode_of(resp.data.accounts@[0].pubkey@) == Some(mint)
            &&& !resp.data.accounts@[0].is_signer
            &&& resp.data.accounts@[0].is_writable
            &&& resp.data.accounts@[1].pubkey@ == base58_of(dest)
            &&& base58_decode_of(resp.data.accounts@[1].pubkey@) == Some(dest)
            &&& !resp.data.accounts@[1].is_signer
            &&& resp.data.accounts@[1].is_writable
            &&& resp.data.accounts@[2].pubkey@ == base58_of(auth)
            &&& base58_decode_of(resp.data.accounts@[2].pubkey@) == Some(auth)
            &&& resp.data.accounts@[2].is_signer
            &&& !resp.data.accounts@[2].is_writable
            &&& resp.data.instruction_data@ == base64_of(mint_to_data(req.amount))
            &&& base64_decode_of(resp.data.instruction_data@) == Some(mint_to_data(req.amount))
        }),
{
    let mint_addr = match parse_pubkey(req.mint.as_str()) {
        Ok(v) => v,
        Err(e) => { return Err(e); },
    };
    let dest_addr = match parse_pubkey(req.destination.as_str()) {
        Ok(v) => v,
        Err(e) => { return Err(e); },
    };
    let auth_addr = match parse_pubkey(req.authority.as_str()) {
        Ok(v) => v,
        Err(e) => { return Err(e); },
    };
    let payload = build_mint_to(&mint_addr, &dest_addr, &auth_addr, req.amount);
    let accounts = account_meta_list(&payload.accounts);
    let data = MintTokenData {
        program_id: encode_base58(&payload.program_id),
        accounts,
        instruction_data: encode_base64(&payload.data),
    };
    Ok(MintTokenResponse { success: true, data })
}

} // verus!
