use vstd::prelude::*;
use vstd::string::StringExecFns;
use crate::codec::{
    base58_decode_of, base58_of, base64_decode_of, base64_of, decode_base58, decode_base64,
    encode_base58, encode_base64, is_base58_seq, parse_pubkey, pubkey_from_b58,
};
use crate::errors::{ApiError, ErrorKind};
use crate::keys::{
    ed25519_keypair_valid, ed25519_signature_of, ed25519_verifies, sign_message, verify_signature,
};
use crate::models::message::{
    SignMessageData, SignMessageRequest, SignMessageResponse, VerifyMessageData,
    VerifyMessageRequest, VerifyMessageResponse,
};

verus! {

/// Signs a message with a base58-encoded secret key.  An empty message or
/// secret is a missing field; a secret that is not base58 is an encoding
/// error; decoded bytes that are not well-formed keypair material are a key
/// error.  Otherwise the response carries the base64 signature and the
/// base58 public key, and that signature verifies under that key.
pub fn sign(req: SignMessageRequest) -> (r: Result<SignMessageResponse, ApiError>)
    ensures
        req.message@.len() == 0 || req.secret@.len() == 0 ==> (r matches Err(e) && e.kind
            == ErrorKind::MissingField),
        req.message@.len() > 0 && req.secret@.len() > 0 && !is_base58_seq(req.secret@) ==> (
        r matches Err(e) && e.kind == ErrorKind::InvalidEncoding),
        req.message@.len() > 0 && req.secret@.len() > 0 && is_base58_seq(req.secret@) ==> (
        base58_decode_of(req.secret@) matches Some(sk) && {
            &&& !ed25519_keypair_valid(sk) ==> (r matches Err(e) && e.kind
                == ErrorKind::InvalidKeyMaterial)
            &&& ed25519_keypair_valid(sk) ==> (r matches Ok(resp) && {
                &&& resp.success
                &&& resp.data.message@ == req.message@
                &&& resp.data.signature@ == base64_of(ed25519_signature_of(sk, req.message@))
                &&& base64_decode_of(resp.data.signature@) == Some(
                    ed25519_signature_of(sk, req.message@),
                )
                &&& ed25519_signature_of(sk, req.message@).len() == 64
                &&& resp.data.public_key@ == base58_of(sk.subrange(32, 64))
                &&& base58_decode_of(resp.data.public_key@) == Some(sk.subrange(32, 64))
                &&& ed25519_verifies(
                    ed25519_signature_of(sk, req.message@),
                    sk.subrange(32, 64),
                    req.message@,
                )
            })
        }),
{
    if req.message.as_str().is_empty() || req.secret.as_str().is_empty() {
        return Err(ApiError::new(
            ErrorKind::MissingField,
            String::from_str("Missing required fields"),
        ));
    }
    let secret_bytes = match decode_base58(req.secret.as_str()) {
        Ok(v) => v,
        Err(e) => { return Err(e); },
    };
    let signed = match sign_message(&secret_bytes, req.message.as_str()) {
        Ok(sp) => sp,
        Err(e) => { return Err(e); },
    };
    let (signature, pubkey) = signed;
    let data = SignMessageData {
        signature: encode_base64(&signature),
        public_key: encode_base58(&pubkey),
        message: req.message,
    };
    Ok(SignMessageResponse { success: true, data })
}

/// Verifies a signature against a message and a base58 public key.  A public
/// key that does not decode to 32 bytes or a signature that is not base64 is
/// an encoding error; a decoded signature that is not 64 bytes is a length
/// error.  A well-formed signature that does not match is the normal answer
/// `valid: false`, never an error.
pub fn verify(req: VerifyMessageRequest) -> (r: Result<VerifyMessageResponse, ApiError>)
    ensures
        pubkey_from_b58(req.pubkey@) is None ==> (r matches Err(e) && e.kind
            == ErrorKind::InvalidEncoding),
        pubkey_from_b58(req.pubkey@) is Some && base64_decode_of(req.signature@) is None ==> (
        r matches Err(e) && e.kind == ErrorKind::InvalidEncoding),
        pubkey_from_b58(req.pubkey@) matches Some(pk) ==> base64_decode_of(req.signature@) matches
            Some(sig) ==> {
            &&& sig.len() != 64 ==> (r matches Err(e) && e.kind
                == ErrorKind::InvalidSignatureLength)
            &&& sig.len() == 64 ==> (r matches Ok(resp) && {
                &&& resp.success
                &&& resp.data.valid == ed25519_verifies(sig, pk, req.message@)
                &&& resp.data.message@ == req.message@
                &&& resp.data.pubkey@ == req.pubkey@
            })
        },
{
    let pubkey = match parse_pubkey(req.pubkey.as_str()) {
        Ok(v) => v,
        Err(e) => { return Err(e); },
    };
    let sig_bytes = match decode_base64(req.signature.as_str()) {
        Ok(v) => v,
        Err(e) => { return Err(e); },
    };
    let valid = match verify_signature(&sig_bytes, &pubkey, req.message.as_str()) {
        Ok(v) => v,
        Err(e) => { return Err(e); },
    };
    let data = VerifyMessageData { valid, message: req.message, pubkey: req.pubkey };
    Ok(VerifyMessageResponse { success: true, data })
}

} // verus!
