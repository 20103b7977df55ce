use vstd::prelude::*;
use vstd::string::StringExecFns;
use crate::address::{
    associated_token_address_of, ata_derivation_defined, derive_associated_token_address,
};
use crate::codec::{
    base58_decode_of, base58_of, base64_decode_of, base64_of, encode_base58, encode_base64,
    parse_pubkey, pubkey_from_b58,
};
use crate::errors::{ApiError, ErrorKind};
use crate::instruction::{
    build_system_transfer, build_token_transfer, system_program_id, system_transfer_data,
    token_program_id_bytes, token_transfer_data,
};
use crate::models::transfer::{
    AccountSignerInfo, SendSolData, SendSolRequest, SendSolResponse, SendTokenData,
    SendTokenRequest, SendTokenResponse,
};

verus! {

/// Builds a native-currency transfer through the system program.  Empty
/// address fields are a missing-field error, a zero amount is a zero-amount
/// error, and an address that is not the base58 form of 32 bytes is an
/// encoding error.  Otherwise the instruction funds `to` from `from`, with
/// the sender as the only signer.
pub fn send_sol(req: SendSolRequest) -> (r: Result<SendSolResponse, ApiError>)
    ensures
        req.from@.len() == 0 || req.to@.len() == 0 ==> (r matches Err(e) && e.kind
            == ErrorKind::MissingField),
        req.from@.len() > 0 && req.to@.len() > 0 && req.lamports == 0 ==> (r matches Err(e)
            && e.kind == ErrorKind::ZeroAmount),
        req.from@.len() > 0 && req.to@.len() > 0 && req.lamports > 0 && (pubkey_from_b58(req.from@)
            is None || pubkey_from_b58(req.to@) is None) ==> (r matches Err(e) && e.kind
            == ErrorKind::InvalidEncoding),
        r is Ok <==> (req.from@.len() > 0 && req.to@.len() > 0 && req.lamports > 0
            && pubkey_from_b58(req.from@) is Some && pubkey_from_b58(req.to@) is Some),
        r matches Ok(resp) ==> (pubkey_from_b58(req.from@) matches Some(from) && pubkey_from_b58(
            req.to@,
        ) matches Some(to) && {
            &&& resp.success
            &&& resp.data.program_id@ == base58_of(system_program_id())
            &&& base58_decode_of(resp.data.program_id@) == Some(system_program_id())
            &&& resp.data.accounts@.len() == 2
            &&& (resp.data.accounts@[0])@ == base58_of(from)
            &&& base58_decode_of((resp.data.accounts@[0])@) == Some(from)
            &&& (resp.data.accounts@[1])@ == base58_of(to)
            &&& base58_decode_of((resp.data.accounts@[1])@) == Some(to)
            &&& resp.data.instruction_data@ == base64_of(system_transfer_data(req.lamports))
            &&& base64_decode_of(resp.data.instruction_data@) == Some(
                system_transfer_data(req.lamports),
            )
        }),
{
    if req.from.as_str().is_empty() || req.to.as_str().is_empty() {
        return Err(ApiError::new(
            ErrorKind::MissingField,
            String::from_str("Missing required fields: from, to"),
        ));
    }
    if req.lamports == 0 {
        return Err(ApiError::new(
            ErrorKind::ZeroAmount,
            String::from_str("Amount must be greater than 0"),
        ));
    }
    let from = match parse_pubkey(req.from.as_str()) {
        Ok(v) => v,
        Err(e) => { return Err(e); },
    };
    let to = match parse_pubkey(req.to.as_str()) {
        Ok(v) => v,
        Err(e) => { return Err(e); },
    };
    let payload = build_system_transfer(&from, &to, req.lamports);
    let mut accounts: Vec<String> = Vec::new();
    accounts.push(encode_base58(&from));
    accounts.push(encode_base58(&to));
    let data = SendSolData {
        program_id: encode_base58(&payload.program_id),
        accounts,
        instruction_data: encode_base64(&payload.data),
    };
    Ok(SendSolResponse { success: true, data })
}

/// Builds a token transfer moving `amount` from the owner's associated token
/// account to the destination owner's, both derived from the mint.  Any
/// address that is not the base58 form of 32 bytes is an encoding error; a
/// failed address derivation (no viable bump seed, never observed) is a
/// construction error.  The source-account owner is the only signer.
pub fn send_token(req: SendTokenRequest) -> (r: Result<SendTokenResponse, ApiError>)
    ensures
        r is Ok <==> (pubkey_from_b58(req.mint@) matches Some(mint) && pubkey_from_b58(req.owner@)
            matches Some(owner) && pubkey_from_b58(req.destination@) matches Some(dest)
            && ata_derivation_defined(owner, mint) && ata_derivation_defined(dest, mint)),
        (pubkey_from_b58(req.mint@) is None || pubkey_from_b58(req.owner@) is None
            || pubkey_from_b58(req.destination@) is None) ==> (r matches Err(e) && e.kind
            == ErrorKind::InvalidEncoding),
        pubkey_from_b58(req.mint@) is Some && pubkey_from_b58(req.owner@) is Some
            && pubkey_from_b58(req.destination@) is Some ==> (r matches Err(e) ==> e.kind
            == ErrorKind::InstructionConstructionFailure),
        r matches Ok(resp) ==> (pubkey_from_b58(req.mint@) matches Some(mint) && pubkey_from_b58(
            req.owner@,
        ) matches Some(owner) && pubkey_from_b58(req.destination@) matches Some(dest) && {
            let src_ata = associated_token_address_of(owner, mint);
            let dst_ata = associated_token_address_of(dest, mint);
            &&& resp.success
            &&& resp.data.program_id@ == base58_of(token_program_id_bytes())
            &&& base58_decode_of(resp.data.program_id@) == Some(token_program_id_bytes())
            &&& resp.data.accounts@.len() == 3
            &&& resp.data.accounts@[0].pubkey@ == base58_of(src_ata)
            &&& base58_decode_of(resp.data.accounts@[0].pubkey@) == Some(src_ata)
            &&& !resp.data.accounts@[0].is_signer
            &&& resp.data.accounts@[1].pubkey@ == base58_of(dst_ata)
            &&& base58_decode_of(resp.data.accounts@[1].pubkey@) == Some(dst_ata)
            &&& !resp.data.accounts@[1].is_signer
            &&& resp.data.accounts@[2].pubkey@ == base58_of(owner)
            &&& base58_decode_of(resp.data.accounts@[2].pubkey@) == Some(owner)
            &&& resp.data.accounts@[2].is_signer
            &&& resp.data.instruction_data@ == base64_of(token_transfer_data(req.amount))
            &&& base64_decode_of(resp.data.instruction_data@) == Some(
                token_transfer_data(req.amount),
            )
        }),
{
    let mint = match parse_pubkey(req.mint.as_str()) {
        Ok(v) => v,
        Err(e) => { return Err(e); },
    };
    let owner = match parse_pubkey(req.owner.as_str()) {
        Ok(v) => v,
        Err(e) => { return Err(e); },
    };
    let dest_owner = match parse_pubkey(req.destination.as_str()) {
        Ok(v) => v,
        Err(e) => { return Err(e); },
    };
    let source_ata = match derive_associated_token_address(&owner, &mint) {
        Ok(v) => v,
        Err(e) => { return Err(e); },
    };
    let dest_ata = match derive_associated_token_address(&dest_owner, &mint) {
        Ok(v) => v,
        Err(e) => { return Err(e); },
    };
    let payload = build_token_transfer(&source_ata, &dest_ata, &owner, req.amount);
    let mut accounts: Vec<AccountSignerInfo> = Vec::new();
    accounts.push(AccountSignerInfo { pubkey: encode_base58(&source_ata), is_signer: false });
    accounts.push(AccountSignerInfo { pubkey: encode_base58(&dest_ata), is_signer: false });
    accounts.push(AccountSignerInfo { pubkey: encode_base58(&owner), is_signer: true });
    let data = SendTokenData {
        program_id: encode_base58(&payload.program_id),
        accounts,
        instruction_data: encode_base64(&payload.data),
    };
    Ok(SendTokenResponse { success: true, data })
}

} // verus!
