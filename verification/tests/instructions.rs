use sol_core::address::derive_associated_token_address;
use sol_core::codec::{decode_base64, encode_base58};
use sol_core::errors::ErrorKind;
use sol_core::handlers::token::{create, mint};
use sol_core::handlers::transfer::{send_sol, send_token};
use sol_core::models::token::{CreateTokenRequest, MintTokenRequest};
use sol_core::models::transfer::{SendSolRequest, SendTokenRequest};

const SYSTEM_PROGRAM: &str = "11111111111111111111111111111111";
const TOKEN_PROGRAM: &str = "TokenkegQfeZyiNwAJbNbGKPFXCWuBvf9Ss623VQ5DA";
const RENT_SYSVAR: &str = "SysvarRent111111111111111111111111111111111";

fn addr(fill: u8) -> String {
    encode_base58(&vec![fill; 32])
}

#[test]
fn send_sol_rejects_zero_amount() {
    let err = send_sol(SendSolRequest { from: addr(1), to: addr(2), lamports: 0 })
        .expect_err("zero lamports");
    assert!(matches!(err.kind, ErrorKind::ZeroAmount));
}

#[test]
fn send_sol_rejects_missing_fields() {
    let err = send_sol(SendSolRequest { from: "".to_string(), to: addr(2), lamports: 5 })
        .expect_err("empty from");
    assert!(matches!(err.kind, ErrorKind::MissingField));
    let err = send_sol(SendSolRequest { from: addr(1), to: "".to_string(), lamports: 5 })
        .expect_err("empty to");
    assert!(matches!(err.kind, ErrorKind::MissingField));
    // the missing field wins over the zero amount, as the checks are ordered
    let err = send_sol(SendSolRequest { from: "".to_string(), to: addr(2), lamports: 0 })
        .expect_err("empty from and zero lamports");
    assert!(matches!(err.kind, ErrorKind::MissingField));
}

#[test]
fn send_sol_rejects_malformed_addresses() {
    let err = send_sol(SendSolRequest { from: "x0x".to_string(), to: addr(2), lamports: 5 })
        .expect_err("0 is not base58");
    assert!(matches!(err.kind, ErrorKind::InvalidEncoding));
    let err = send_sol(SendSolRequest { from: addr(1), to: encode_base58(&vec![2u8; 16]), lamports: 5 })
        .expect_err("16 bytes are not an address");
    assert!(matches!(err.kind, ErrorKind::InvalidEncoding));
}

#[test]
fn send_sol_builds_the_system_transfer() {
    let resp = send_sol(SendSolRequest { from: addr(1), to: addr(2), lamports: 1 }).unwrap();
    assert!(resp.success);
    assert_eq!(resp.data.program_id, SYSTEM_PROGRAM);
    assert_eq!(resp.data.accounts, vec![addr(1), addr(2)]);
    assert_eq!(resp.data.instruction_data, "AgAAAAEAAAAAAAAA");
    let data = decode_base64(&resp.data.instruction_data).unwrap();
    assert_eq!(data.len(), 12);
    assert_eq!(&data[0..4], &[2, 0, 0, 0]);
    assert_eq!(&data[4..12], &[1, 0, 0, 0, 0, 0, 0, 0]);

    let big = send_sol(SendSolRequest { from: addr(1), to: addr(2), lamports: 0x0102030405060708 })
        .unwrap();
    let data = decode_base64(&big.data.instruction_data).unwrap();
    assert_eq!(&data[4..12], &[8, 7, 6, 5, 4, 3, 2, 1]);
}

#[test]
fn create_builds_the_mint_initialization() {
    let resp = create(CreateTokenRequest { mint_authority: addr(7), mint: addr(5), decimals: 9 })
        .unwrap();
    assert!(resp.success);
    assert_eq!(resp.data.program_id, TOKEN_PROGRAM);
    assert_eq!(resp.data.accounts.len(), 2);
    assert_eq!(resp.data.accounts[0].pubkey, addr(5));
    assert!(!resp.data.accounts[0].is_signer);
    assert!(resp.data.accounts[0].is_writable);
    assert_eq!(resp.data.accounts[1].pubkey, RENT_SYSVAR);
    assert!(!resp.data.accounts[1].is_signer);
    assert!(!resp.data.accounts[1].is_writable);

    let data = decode_base64(&resp.data.instruction_data).unwrap();
    assert_eq!(data.len(), 35);
    assert_eq!(data[0], 0);
    assert_eq!(data[1], 9);
    assert_eq!(&data[2..34], &[7u8; 32][..]);
    // the trailing byte marks the freeze authority absent
    assert_eq!(data[34], 0);

    // the result is the same on a repeated call
    let again = create(CreateTokenRequest { mint_authority: addr(7), mint: addr(5), decimals: 9 })
        .unwrap();
    assert_eq!(again.data.instruction_data, resp.data.instruction_data);
}

#[test]
fn create_rejects_malformed_addresses() {
    let err = create(CreateTokenRequest {
        mint_authority: addr(7),
        mint: "not-base58-0".to_string(),
        decimals: 9,
    })
    .expect_err("malformed mint");
    assert!(matches!(err.kind, ErrorKind::InvalidEncoding));
    let err = create(CreateTokenRequest {
        mint_authority: "IlO0".to_string(),
        mint: addr(5),
        decimals: 9,
    })
    .expect_err("malformed authority");
    assert!(matches!(err.kind, ErrorKind::InvalidEncoding));
}

#[test]
fn mint_builds_the_mint_to() {
    let resp = mint(MintTokenRequest {
        mint: addr(5),
        destination: addr(6),
        authority: addr(7),
        amount: 1,
    })
    .unwrap();
    assert!(resp.success);
    assert_eq!(resp.data.program_id, TOKEN_PROGRAM);
    assert_eq!(resp.data.accounts.len(), 3);
    assert_eq!(resp.data.accounts[0].pubkey, addr(5));
    assert!(!resp.data.accounts[0].is_signer);
    assert!(resp.data.accounts[0].is_writable);
    assert_eq!(resp.data.accounts[1].pubkey, addr(6));
    assert!(!resp.data.accounts[1].is_signer);
    assert!(resp.data.accounts[1].is_writable);
    assert_eq!(resp.data.accounts[2].pubkey, addr(7));
    assert!(resp.data.accounts[2].is_signer);
    assert!(!resp.data.accounts[2].is_writable);

    assert_eq!(resp.data.instruction_data, "BwEAAAAAAAAA");
    let data = decode_base64(&resp.data.instruction_data).unwrap();
    assert_eq!(data, vec![7, 1, 0, 0, 0, 0, 0, 0, 0]);
}

#[test]
fn mint_rejects_malformed_addresses() {
    let err = mint(MintTokenRequest {
        mint: addr(5),
        destination: "0".to_string(),
        authority: addr(7),
        amount: 1,
    })
    .expect_err("malformed destination");
    assert!(matches!(err.kind, ErrorKind::InvalidEncoding));
}

#[test]
fn associated_address_derivation_is_deterministic() {
    let owner = vec![3u8; 32];
    let mint_addr = vec![4u8; 32];
    let a = derive_associated_token_address(&owner, &mint_addr).unwrap();
    let b = derive_associated_token_address(&owner, &mint_addr).unwrap();
    assert_eq!(a, b);
    assert_eq!(a.len(), 32);
    // the derived address is its own account, not one of the inputs
    assert_ne!(a, owner);
    assert_ne!(a, mint_addr);
    // and it depends on both inputs
    assert_ne!(a, derive_associated_token_address(&vec![5u8; 32], &mint_addr).unwrap());
    assert_ne!(a, derive_associated_token_address(&owner, &vec![5u8; 32]).unwrap());
}

#[test]
fn send_token_builds_the_token_transfer() {
    let resp = send_token(SendTokenRequest {
        mint: addr(4),
        destination: addr(9),
        owner: addr(3),
        amount: 1,
    })
    .unwrap();
    assert!(resp.success);
    assert_eq!(resp.data.program_id, TOKEN_PROGRAM);
    assert_eq!(resp.data.accounts.len(), 3);

    let source_ata = encode_base58(&derive_associated_token_address(&vec![3u8; 32], &vec![4u8; 32]).unwrap());
    let dest_ata = encode_base58(&derive_associated_token_address(&vec![9u8; 32], &vec![4u8; 32]).unwrap());
    assert_eq!(resp.data.accounts[0].pubkey, source_ata);
    assert!(!resp.data.accounts[0].is_signer);
    assert_eq!(resp.data.accounts[1].pubkey, dest_ata);
    assert!(!resp.data.accounts[1].is_signer);
    assert_eq!(resp.data.accounts[2].pubkey, addr(3));
    assert!(resp.data.accounts[2].is_signer);

    let data = decode_base64(&resp.data.instruction_data).unwrap();
    assert_eq!(data, vec![3, 1, 0, 0, 0, 0, 0, 0, 0]);
}

#[test]
fn send_token_rejects_malformed_addresses() {
    let err = send_token(SendTokenRequest {
        mint: "m0m".to_string(),
        destination: addr(9),
        owner: addr(3),
        amount: 1,
    })
    .expect_err("malformed mint");
    assert!(matches!(err.kind, ErrorKind::InvalidEncoding));
    let err = send_token(SendTokenRequest {
        mint: addr(4),
        destination: addr(9),
        owner: encode_base58(&vec![3u8; 30]),
        amount: 1,
    })
    .expect_err("30 bytes are not an address");
    assert!(matches!(err.kind, ErrorKind::InvalidEncoding));
}
