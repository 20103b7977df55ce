use vstd::prelude::*;
use vstd::string::StringExecFns;
use solana_sdk::signer::Signer;
use crate::errors::{ApiError, ErrorKind};

verus! {

/// Whether 64 bytes are well-formed ed25519 keypair material: a 32-byte seed
/// followed by the public key that the seed derives.
pub uninterp spec fn ed25519_keypair_valid(secret: Seq<u8>) -> bool;

/// The ed25519 signature that the given keypair material puts on a message.
/// The scheme derives its nonce deterministically, so the signature is a
/// function of key and message alone.
pub uninterp spec fn ed25519_signature_of(secret: Seq<u8>, message: Seq<char>) -> Seq<u8>;

/// Whether an ed25519 signature verifies for a public key and a message.
pub uninterp spec fn ed25519_verifies(signature: Seq<u8>, pubkey: Seq<u8>, message: Seq<char>) -> bool;

/// Relies on solana_sdk's Keypair::new, Signer::pubkey and Keypair::to_bytes:
/// a fresh random keypair, returned as (public key, seed-and-public-key
/// bytes).  Nothing is promised of which keypair comes back, only what holds
/// of every one: the lengths, that the public key is the second half of the
/// secret, and that Keypair::from_bytes accepts the secret again.
#[verifier::external_body]
fn generate_keypair_trusted() -> (r: (Vec<u8>, Vec<u8>))
    ensures
        r.0@.len() == 32,
        r.1@.len() == 64,
        r.0@ == r.1@.subrange(32, 64),
        ed25519_keypair_valid(r.1@),
{
    let kp = solana_sdk::signer::keypair::Keypair::new();
    (kp.pubkey().to_bytes().to_vec(), kp.to_bytes().to_vec())
}

/// Relies on solana_sdk's Keypair::from_bytes, Signer::sign_message and
/// Signer::pubkey.  from_bytes accepts exactly well-formed keypair material
/// (64 bytes whose second half is the public key derived from the first), so
/// on success the returned public key is the second half of the secret and
/// the 64-byte signature verifies under it.
#[verifier::external_body]
fn sign_trusted(secret: &Vec<u8>, message: &str) -> (r: Option<(Vec<u8>, Vec<u8>)>)
    ensures
        r is Some <==> ed25519_keypair_valid(secret@),
        r matches Some(sp) ==> {
            &&& secret@.len() == 64
            &&& sp.0@ == ed25519_signature_of(secret@, message@)
            &&& sp.0@.len() == 64
            &&& sp.1@ == secret@.subrange(32, 64)
            &&& ed25519_verifies(sp.0@, sp.1@, message@)
        },
{
    let kp = solana_sdk::signer::keypair::Keypair::from_bytes(secret.as_slice()).ok()?;
    let sig = kp.sign_message(message.as_bytes());
    Some((sig.as_ref().to_vec(), kp.pubkey().to_bytes().to_vec()))
}

/// Relies on solana_sdk's Signature::verify: a pure check of (signature,
/// public key, message) that is true or false and never fails, false whenever
/// the public key is not a valid curve point.
#[verifier::external_body]
fn verify_trusted(signature: &Vec<u8>, pubkey: &Vec<u8>, message: &str) -> (r: bool)
    requires
        signature@.len() == 64,
    ensures
        r == ed25519_verifies(signature@, pubkey@, message@),
{
    let mut arr = [0u8; 64];
    arr.copy_from_slice(signature.as_slice());
    let sig = solana_sdk::signature::Signature::from(arr);
    sig.verify(pubkey.as_slice(), message.as_bytes())
}

/// Generates a fresh keypair: the 32-byte public key and the 64-byte secret
/// (seed followed by public key).
pub fn generate_keypair() -> (r: (Vec<u8>, Vec<u8>))
    ensures
        r.0@.len() == 32,
        r.1@.len() == 64,
        r.0@ == r.1@.subrange(32, 64),
        ed25519_keypair_valid(r.1@),
{
    generate_keypair_trusted()
}

/// Signs a message with 64-byte keypair material; material that the curve
/// rejects is an error.  On success the signature and the public key come
/// back, and the signature verifies under that key.
pub fn sign_message(secret: &Vec<u8>, message: &str) -> (r: Result<(Vec<u8>, Vec<u8>), ApiError>)
    ensures
        r is Ok <==> ed25519_keypair_valid(secret@),
        r matches Ok(sp) ==> {
            &&& secret@.len() == 64
            &&& sp.0@ == ed25519_signature_of(secret@, message@)
            &&& sp.0@.len() == 64
            &&& sp.1@ == secret@.subrange(32, 64)
            &&& ed25519_verifies(sp.0@, sp.1@, message@)
        },
        r matches Err(e) ==> e.kind == ErrorKind::InvalidKeyMaterial,
{
    match sign_trusted(secret, message) {
        Some(sp) => Ok(sp),
        None => Err(ApiError::new(
            ErrorKind::InvalidKeyMaterial,
            String::from_str("secret is not valid keypair material"),
        )),
    }
}

/// Verifies a signature against a public key and a message.  A signature
/// that is not 64 bytes is a length error; a well-formed signature that does
/// not match is the answer `false`, not an error.
pub fn verify_signature(signature: &Vec<u8>, pubkey: &Vec<u8>, message: &str) -> (r: Result<
    bool,
    ApiError,
>)
    ensures
        r is Ok <==> signature@.len() == 64,
        r matches Ok(v) ==> v == ed25519_verifies(signature@, pubkey@, message@),
        r matches Err(e) ==> e.kind == ErrorKind::InvalidSignatureLength,
{
    if signature.len() == 64 {
        Ok(verify_trusted(signature, pubkey, message))
    } else {
        Err(ApiError::new(
            ErrorKind::InvalidSignatureLength,
            String::from_str("signature must be exactly 64 bytes"),
        ))
    }
}

} // verus!
