use vstd::prelude::*;

verus! {

/// One account reference inside an instruction: its 32-byte address and the
/// access flags the ledger runtime reads.  Order within an instruction is
/// part of the wire contract.
pub struct InstructionAccountRef {
    pub addr: Vec<u8>,
    pub is_signer: bool,
    pub is_writable: bool,
}

/// A complete instruction: the program to run, the ordered account list, and
/// the opaque data bytes.
pub struct InstructionPayload {
    pub program_id: Vec<u8>,
    pub accounts: Vec<InstructionAccountRef>,
    pub data: Vec<u8>,
}

/// Little-endian bytes of a 64-bit amount, as the instruction bodies carry
/// it.
pub open spec fn u64_le_bytes(v: u64) -> Seq<u8> {
    seq![
        (v & 0xff) as u8,
        ((v >> 8) & 0xff) as u8,
        ((v >> 16) & 0xff) as u8,
        ((v >> 24) & 0xff) as u8,
        ((v >> 32) & 0xff) as u8,
        ((v >> 40) & 0xff) as u8,
        ((v >> 48) & 0xff) as u8,
        ((v >> 56) & 0xff) as u8,
    ]
}

/// The system program's address: 32 zero bytes (base58 `111...1`).
pub open spec fn system_program_id() -> Seq<u8> {
    Seq::new(32, |i: int| 0u8)
}

/// The token program's address (base58
/// `TokenkegQfeZyiNwAJbNbGKPFXCWuBvf9Ss623VQ5DA`).
pub open spec fn token_program_id_bytes() -> Seq<u8> {
    seq![
        6u8, 221u8, 246u8, 225u8, 215u8, 101u8, 161u8, 147u8, 217u8, 203u8, 225u8, 70u8, 206u8,
        235u8, 121u8, 172u8, 28u8, 180u8, 133u8, 237u8, 95u8, 91u8, 55u8, 145u8, 58u8, 140u8,
        245u8, 133u8, 126u8, 255u8, 0u8, 169u8,
    ]
}

/// The rent sysvar's address (base58
/// `SysvarRent111111111111111111111111111111111`).
pub open spec fn rent_sysvar_id_bytes() -> Seq<u8> {
    seq![
        6u8, 167u8, 213u8, 23u8, 25u8, 44u8, 92u8, 81u8, 33u8, 140u8, 201u8, 76u8, 61u8, 74u8,
        241u8, 127u8, 88u8, 218u8, 238u8, 8u8, 155u8, 161u8, 253u8, 68u8, 227u8, 219u8, 217u8,
        138u8, 0u8, 0u8, 0u8, 0u8,
    ]
}

/// Data bytes of a system-program transfer: the transfer tag (2 as a
/// little-endian u32) followed by the lamport amount.
pub open spec fn system_transfer_data(lamports: u64) -> Seq<u8> {
    seq![2u8, 0u8, 0u8, 0u8] + u64_le_bytes(lamports)
}

/// Data bytes of a token-program mint initialization with no freeze
/// authority: tag 0, the decimals byte, the 32-byte mint authority, and a
/// zero byte marking the freeze authority absent.
pub open spec fn initialize_mint_data(mint_authority: Seq<u8>, decimals: u8) -> Seq<u8> {
    seq![0u8, decimals] + mint_authority + seq![0u8]
}

/// Data bytes of a token-program transfer: tag 3 followed by the amount.
pub open spec fn token_transfer_data(amount: u64) -> Seq<u8> {
    seq![3u8] + u64_le_bytes(amount)
}

/// Data bytes of a token-program mint-to: tag 7 followed by the amount.
pub open spec fn mint_to_data(amount: u64) -> Seq<u8> {
    seq![7u8] + u64_le_bytes(amount)
}

/// Relies on solana_program::system_instruction::transfer: a system-program
/// instruction moving lamports, with the funding account first (signer,
/// writable) and the recipient second (writable), and the data bytes encoded
/// by bincode as the tag 2 and the amount, both little-endian.
#[verifier::external_body]
fn system_transfer_trusted(from: &Vec<u8>, to: &Vec<u8>, lamports: u64) -> (r: InstructionPayload)
    requires
        from@.len() == 32,
        to@.len() == 32,
    ensures
        r.program_id@ == system_program_id(),
        r.accounts@.len() == 2,
        r.accounts@[0].addr@ == from@ && r.accounts@[0].is_signer && r.accounts@[0].is_writable,
        r.accounts@[1].addr@ == to@ && !r.accounts@[1].is_signer && r.accounts@[1].is_writable,
        r.data@ == system_transfer_data(lamports),
{
    let from_pk = solana_program::pubkey::Pubkey::try_from(from.as_slice()).unwrap();
    let to_pk = solana_program::pubkey::Pubkey::try_from(to.as_slice()).unwrap();
    let ix = solana_program::system_instruction::transfer(&from_pk, &to_pk, lamports);
    let accounts = ix.accounts.iter().map(|m| InstructionAccountRef {
        addr: m.pubkey.to_bytes().to_vec(), is_signer: m.is_signer, is_writable: m.is_writable,
    }).collect();
    InstructionPayload { program_id: ix.program_id.to_bytes().to_vec(), accounts, data: ix.data }
}

/// Relies on spl_token::instruction::initialize_mint, called with the token
/// program's own id and no freeze authority.  It fails only on a foreign
/// program id, so here it always returns: the mint account (writable), the
/// rent sysvar (read-only), and the packed InitializeMint data.
#[verifier::external_body]
fn initialize_mint_trusted(mint: &Vec<u8>, mint_authority: &Vec<u8>, decimals: u8) -> (r:
    InstructionPayload)
    requires
        mint@.len() == 32,
        mint_authority@.len() == 32,
    ensures
        r.program_id@ == token_program_id_bytes(),
        r.accounts@.len() == 2,
        r.accounts@[0].addr@ == mint@ && !r.accounts@[0].is_signer && r.accounts@[0].is_writable,
        r.accounts@[1].addr@ == rent_sysvar_id_bytes() && !r.accounts@[1].is_signer
            && !r.accounts@[1].is_writable,
        r.data@ == initialize_mint_data(mint_authority@, decimals),
{
    let mint_pk = solana_program::pubkey::Pubkey::try_from(mint.as_slice()).unwrap();
    let auth_pk = solana_program::pubkey::Pubkey::try_from(mint_authority.as_slice()).unwrap();
    let ix = spl_token::instruction::initialize_mint(&spl_token::ID, &mint_pk, &auth_pk, None, decimals).unwrap();
    let accounts = ix.accounts.iter().map(|m| InstructionAccountRef {
        addr: m.pubkey.to_bytes().to_vec(), is_signer: m.is_signer, is_writable: m.is_writable,
    }).collect();
    InstructionPayload { program_id: ix.program_id.to_bytes().to_vec(), accounts, data: ix.data }
}

/// Relies on spl_token::instruction::mint_to, called with the token
/// program's own id and no extra signers.  It fails only on a foreign
/// program id, so here it always returns: the mint and the destination
/// account (both writable) and the owning authority (read-only signer), with
/// the packed MintTo data.
#[verifier::external_body]
fn mint_to_trusted(mint: &Vec<u8>, destination: &Vec<u8>, authority: &Vec<u8>, amount: u64) -> (r:
    InstructionPayload)
    requires
        mint@.len() == 32,
        destination@.len() == 32,
        authority@.len() == 32,
    ensures
        r.program_id@ == token_program_id_bytes(),
        r.accounts@.len() == 3,
        r.accounts@[0].addr@ == mint@ && !r.accounts@[0].is_signer && r.accounts@[0].is_writable,
        r.accounts@[1].addr@ == destination@ && !r.accounts@[1].is_signer
            && r.accounts@[1].is_writable,
        r.accounts@[2].addr@ == authority@ && r.accounts@[2].is_signer
            && !r.accounts@[2].is_writable,
        r.data@ == mint_to_data(amount),
{
    let mint_pk = solana_program::pubkey::Pubkey::try_from(mint.as_slice()).unwrap();
    let dest_pk = solana_program::pubkey::Pubkey::try_from(destination.as_slice()).unwrap();
    let auth_pk = solana_program::pubkey::Pubkey::try_from(authority.as_slice()).unwrap();
    let ix = spl_token::instruction::mint_to(&spl_token::ID, &mint_pk, &dest_pk, &auth_pk, &[], amount).unwrap();
    let accounts = ix.accounts.iter().map(|m| InstructionAccountRef {
        addr: m.pubkey.to_bytes().to_vec(), is_signer: m.is_signer, is_writable: m.is_writable,
    }).collect();
    InstructionPayload { program_id: ix.program_id.to_bytes().to_vec(), accounts, data: ix.data }
}

/// Relies on spl_token::instruction::transfer, called with the token
/// program's own id and no extra signers.  It fails only on a foreign
/// program id, so here it always returns: the source and destination token
/// accounts (both writable) and the owning authority (read-only signer),
/// with the packed Transfer data.
#[verifier::external_body]
fn token_transfer_trusted(source: &Vec<u8>, destination: &Vec<u8>, owner: &Vec<u8>, amount: u64) -> (r:
    InstructionPayload)
    requires
        source@.len() == 32,
        destination@.len() == 32,
        owner@.len() == 32,
    ensures
        r.program_id@ == token_program_id_bytes(),
        r.accounts@.len() == 3,
        r.accounts@[0].addr@ == source@ && !r.accounts@[0].is_signer && r.accounts@[0].is_writable,
        r.accounts@[1].addr@ == destination@ && !r.accounts@[1].is_signer
            && r.accounts@[1].is_writable,
        r.accounts@[2].addr@ == owner@ && r.accounts@[2].is_signer && !r.accounts@[2].is_writable,
        r.data@ == token_transfer_data(amount),
{
    let src_pk = solana_program::pubkey::Pubkey::try_from(source.as_slice()).unwrap();
    let dest_pk = solana_program::pubkey::Pubkey::try_from(destination.as_slice()).unwrap();
    let owner_pk = solana_program::pubkey::Pubkey::try_from(owner.as_slice()).unwrap();
    let ix = spl_token::instruction::transfer(&spl_token::ID, &src_pk, &dest_pk, &owner_pk, &[], amount).unwrap();
    let accounts = ix.accounts.iter().map(|m| InstructionAccountRef {
        addr: m.pubkey.to_bytes().to_vec(), is_signer: m.is_signer, is_writable: m.is_writable,
    }).collect();
    InstructionPayload { program_id: ix.program_id.to_bytes().to_vec(), accounts, data: ix.data }
}

/// Builds the system-program transfer instruction.
pub fn build_system_transfer(from: &Vec<u8>, to: &Vec<u8>, lamports: u64) -> (r: InstructionPayload)
    requires
        from@.len() == 32,
        to@.len() == 32,
    ensures
        r.program_id@ == system_program_id(),
        r.accounts@.len() == 2,
        r.accounts@[0].addr@ == from@ && r.accounts@[0].is_signer && r.accounts@[0].is_writable,
        r.accounts@[1].addr@ == to@ && !r.accounts@[1].is_signer && r.accounts@[1].is_writable,
        r.data@ == system_transfer_data(lamports),
{
    system_transfer_trusted(from, to, lamports)
}

/// Builds the token-program InitializeMint instruction, with no freeze
/// authority.
pub fn build_initialize_mint(mint: &Vec<u8>, mint_authority: &Vec<u8>, decimals: u8) -> (r:
    InstructionPayload)
    requires
        mint@.len() == 32,
        mint_authority@.len() == 32,
    ensures
        r.program_id@ == token_program_id_bytes(),
        r.accounts@.len() == 2,
        r.accounts@[0].addr@ == mint@ && !r.accounts@[0].is_signer && r.accounts@[0].is_writable,
        r.accounts@[1].addr@ == rent_sysvar_id_bytes() && !r.accounts@[1].is_signer
            && !r.accounts@[1].is_writable,
        r.data@ == initialize_mint_data(mint_authority@, decimals),
{
    initialize_mint_trusted(mint, mint_authority, decimals)
}

/// Builds the token-program MintTo instruction.
pub fn build_mint_to(mint: &Vec<u8>, destination: &Vec<u8>, authority: &Vec<u8>, amount: u64) -> (r:
    InstructionPayload)
    requires
        mint@.len() == 32,
        destination@.len() == 32,
        authority@.len() == 32,
    ensures
        r.program_id@ == token_program_id_bytes(),
        r.accounts@.len() == 3,
        r.accounts@[0].addr@ == mint@ && !r.accounts@[0].is_signer && r.accounts@[0].is_writable,
        r.accounts@[1].addr@ == destination@ && !r.accounts@[1].is_signer
            && r.accounts@[1].is_writable,
        r.accounts@[2].addr@ == authority@ && r.accounts@[2].is_signer
            && !r.accounts@[2].is_writable,
        r.data@ == mint_to_data(amount),
{
    mint_to_trusted(mint, destination, authority, amount)
}

/// Builds the token-program Transfer instruction between two token accounts.
pub fn build_token_transfer(source: &Vec<u8>, destination: &Vec<u8>, owner: &Vec<u8>, amount: u64) -> (r:
    InstructionPayload)
    requires
        source@.len() == 32,
        destination@.len() == 32,
        owner@.len() == 32,
    ensures
        r.program_id@ == token_program_id_bytes(),
        r.accounts@.len() == 3,
        r.accounts@[0].addr@ == source@ && !r.accounts@[0].is_signer && r.accounts@[0].is_writable,
        r.accounts@[1].addr@ == destination@ && !r.accounts@[1].is_signer
            && r.accounts@[1].is_writable,
        r.accounts@[2].addr@ == owner@ && r.accounts@[2].is_signer && !r.accounts@[2].is_writable,
        r.data@ == token_transfer_data(amount),
{
    token_transfer_trusted(source, destination, owner, amount)
}

} // verus!
