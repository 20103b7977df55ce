use vstd::prelude::*;
use crate::codec::{base58_decode_of, base58_of, encode_base58, is_base58_seq};
use crate::keys::{ed25519_keypair_valid, generate_keypair};
use crate::models::keypair::{KeypairData, KeypairResponse};

verus! {

/// Generates a new keypair and returns its base58-encoded public key and
/// 64-byte secret.  The response always encodes some well-formed keypair
/// whose public key is the second half of its secret; both texts are
/// nonempty base58 and decode back to those bytes.
pub fn generate() -> (r: KeypairResponse)
    ensures
        r.success,
        r.data.secret@.len() > 0,
        r.data.pubkey@.len() > 0,
        is_base58_seq(r.data.secret@),
        is_base58_seq(r.data.pubkey@),
        exists|sk: Seq<u8>|
            {
                &&& #[trigger] ed25519_keypair_valid(sk)
                &&& sk.len() == 64
                &&& r.data.secret@ == base58_of(sk)
                &&& r.data.pubkey@ == base58_of(sk.subrange(32, 64))
                &&& base58_decode_of(r.data.secret@) == Some(sk)
                &&& base58_decode_of(r.data.pubkey@) == Some(sk.subrange(32, 64))
            },
{
    let (pubkey, secret) = generate_keypair();
    let pubkey_b58 = encode_base58(&pubkey);
    let secret_b58 = encode_base58(&secret);
    let resp = KeypairResponse {
        success: true,
        data: KeypairData { pubkey: pubkey_b58, secret: secret_b58 },
    };
    proof {
        assert(ed25519_keypair_valid(secret@));
    }
    resp
}

} // verus!
