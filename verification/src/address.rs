use vstd::prelude::*;
use vstd::string::StringExecFns;
use crate::errors::{ApiError, ErrorKind};

verus! {

/// The associated-token-account address an owner has for a mint under the
/// fixed token program: a 32-byte program-derived address, a pure function
/// of owner and mint, defined whenever some bump byte yields an off-curve
/// hash.
pub uninterp spec fn associated_token_address_of(owner: Seq<u8>, mint: Seq<u8>) -> Seq<u8>;

/// Whether the associated-token-account derivation is defined for an owner
/// and a mint: some bump byte yields an off-curve hash.  The search is a
/// pure function of its seeds, so definedness depends on owner and mint
/// alone.
pub uninterp spec fn ata_derivation_defined(owner: Seq<u8>, mint: Seq<u8>) -> bool;

/// Relies on solana_program's Pubkey::try_find_program_address, over the
/// seed layout the associated-token-account program derives with (owner,
/// token program id, mint): it hashes with a bump byte from 255 down to 1
/// until the result leaves the curve, and returns None if no bump works — a
/// case with no known instance.  The derivation is deterministic in owner
/// and mint.
#[verifier::external_body]
fn derive_ata_trusted(owner: &Vec<u8>, mint: &Vec<u8>) -> (r: Option<Vec<u8>>)
    requires
        owner@.len() == 32,
        mint@.len() == 32,
    ensures
        r is Some <==> ata_derivation_defined(owner@, mint@),
        r matches Some(v) ==> v@ == associated_token_address_of(owner@, mint@) && v@.len() == 32,
{
    let token_id = spl_token::ID.to_bytes();
    let found = solana_program::pubkey::Pubkey::try_find_program_address(
        &[owner.as_slice(), &token_id, mint.as_slice()],
        &spl_associated_token_account::ID,
    );
    found.map(|(address, _bump)| address.to_bytes().to_vec())
}

/// Derives the associated token account address of an owner for a mint.
/// Where no bump byte yields a viable address — which has never been
/// observed — the derivation fails as a construction error.
pub fn derive_associated_token_address(owner: &Vec<u8>, mint: &Vec<u8>) -> (r: Result<
    Vec<u8>,
    ApiError,
>)
    requires
        owner@.len() == 32,
        mint@.len() == 32,
    ensures
        r is Ok <==> ata_derivation_defined(owner@, mint@),
        r matches Ok(v) ==> v@ == associated_token_address_of(owner@, mint@) && v@.len() == 32,
        r matches Err(e) ==> e.kind == ErrorKind::InstructionConstructionFailure,
{
    match derive_ata_trusted(owner, mint) {
        Some(v) => Ok(v),
        None => Err(ApiError::new(
            ErrorKind::InstructionConstructionFailure,
            String::from_str("no viable bump seed for address derivation"),
        )),
    }
}

/// Associated-address derivation is deterministic: any two derivations from
/// the same owner and mint agree.
pub proof fn lemma_associated_address_deterministic(
    owner: Seq<u8>,
    mint: Seq<u8>,
    a1: Seq<u8>,
    a2: Seq<u8>,
)
    requires
        a1 == associated_token_address_of(owner, mint),
        a2 == associated_token_address_of(owner, mint),
    ensures
        a1 == a2,
{
}

} // verus!
