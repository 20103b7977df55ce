use vstd::prelude::*;
use vstd::string::StringExecFns;
use crate::errors::{ApiError, ErrorKind};

verus! {

/// The text that base58 encoding gives a byte sequence.
pub uninterp spec fn base58_of(b: Seq<u8>) -> Seq<char>;

/// What base58 decoding yields on a text: the bytes, or nothing where the
/// text is rejected.
pub uninterp spec fn base58_decode_of(s: Seq<char>) -> Option<Seq<u8>>;

/// The text that standard (padded) base64 encoding gives a byte sequence.
pub uninterp spec fn base64_of(b: Seq<u8>) -> Seq<char>;

/// What standard base64 decoding yields on a text: the bytes, or nothing
/// where the text is rejected.
pub uninterp spec fn base64_decode_of(s: Seq<char>) -> Option<Seq<u8>>;

/// The base58 alphabet: digits and letters, without `0`, `O`, `I` and `l`.
pub open spec fn is_base58_char(c: char) -> bool {
    ||| '1' <= c && c <= '9'
    ||| 'A' <= c && c <= 'Z' && c != 'I' && c != 'O'
    ||| 'a' <= c && c <= 'z' && c != 'l'
}

/// Text made of base58 alphabet characters only.
pub open spec fn is_base58_seq(s: Seq<char>) -> bool {
    forall|i: int| 0 <= i < s.len() ==> is_base58_char(#[trigger] s[i])
}

/// Relies on bs58::encode with the Bitcoin alphabet: it writes the canonical
/// base58 text of the bytes, made of alphabet characters only (at least one
/// character per nonempty input), and bs58::decode maps that text back to
/// the same bytes.
#[verifier::external_body]
fn base58_encode_trusted(b: &Vec<u8>) -> (r: String)
    ensures
        r@ == base58_of(b@),
        base58_decode_of(r@) == Some(b@),
        is_base58_seq(r@),
        b@.len() > 0 ==> r@.len() > 0,
{
    bs58::encode(b.as_slice()).into_string()
}

/// Relies on bs58::decode with the Bitcoin alphabet: it fails exactly when a
/// character outside the alphabet occurs, and otherwise yields the decoded
/// bytes; empty text decodes to the empty byte sequence.
#[verifier::external_body]
fn base58_decode_trusted(s: &str) -> (r: Option<Vec<u8>>)
    ensures
        r matches Some(v) ==> base58_decode_of(s@) == Some(v@),
        r is Some <==> is_base58_seq(s@),
        r matches Some(v) ==> (s@.len() == 0 ==> v@.len() == 0),
{
    bs58::decode(s).into_vec().ok()
}

/// Relies on base64's STANDARD engine: it writes the padded base64 text of
/// the bytes, and decoding that text gives the same bytes back.
#[verifier::external_body]
fn base64_encode_trusted(b: &Vec<u8>) -> (r: String)
    ensures
        r@ == base64_of(b@),
        base64_decode_of(r@) == Some(b@),
{
    base64::Engine::encode(&base64::engine::general_purpose::STANDARD, b.as_slice())
}

/// Relies on base64's STANDARD engine: decoding fails exactly on text that is
/// not a padded standard base64 encoding.
#[verifier::external_body]
fn base64_decode_trusted(s: &str) -> (r: Option<Vec<u8>>)
    ensures
        (r matches Some(v) ==> base64_decode_of(s@) == Some(v@)),
        (r is None ==> base64_decode_of(s@) is None),
{
    base64::Engine::decode(&base64::engine::general_purpose::STANDARD, s).ok()
}

/// Encodes bytes as base58 text.  Decoding the result gives the bytes back,
/// and nonempty bytes give nonempty text.
pub fn encode_base58(b: &Vec<u8>) -> (r: String)
    ensures
        r@ == base58_of(b@),
        base58_decode_of(r@) == Some(b@),
        is_base58_seq(r@),
        b@.len() > 0 ==> r@.len() > 0,
{
    base58_encode_trusted(b)
}

/// Decodes base58 text; any character outside the alphabet is an encoding
/// error.
pub fn decode_base58(s: &str) -> (r: Result<Vec<u8>, ApiError>)
    ensures
        r matches Ok(v) ==> base58_decode_of(s@) == Some(v@),
        r is Ok <==> is_base58_seq(s@),
        r matches Err(e) ==> e.kind == ErrorKind::InvalidEncoding,
        s@.len() == 0 ==> (r matches Ok(v) && v@.len() == 0),
{
    match base58_decode_trusted(s) {
        Some(v) => Ok(v),
        None => Err(ApiError::new(
            ErrorKind::InvalidEncoding,
            String::from_str("invalid base58 text"),
        )),
    }
}

/// Encodes bytes as standard base64 text.  Decoding the result gives the
/// bytes back.
pub fn encode_base64(b: &Vec<u8>) -> (r: String)
    ensures
        r@ == base64_of(b@),
        base64_decode_of(r@) == Some(b@),
{
    base64_encode_trusted(b)
}

/// Decodes standard base64 text; malformed text is an encoding error.
pub fn decode_base64(s: &str) -> (r: Result<Vec<u8>, ApiError>)
    ensures
        r matches Ok(v) ==> base64_decode_of(s@) == Some(v@),
        r is Ok <==> base64_decode_of(s@) is Some,
        r matches Err(e) ==> e.kind == ErrorKind::InvalidEncoding,
{
    match base64_decode_trusted(s) {
        Some(v) => Ok(v),
        None => Err(ApiError::new(
            ErrorKind::InvalidEncoding,
            String::from_str("invalid base64 text"),
        )),
    }
}

/// The 32 public-key bytes a base58 address stands for, where the text is
/// valid base58 and decodes to exactly 32 bytes.
pub open spec fn pubkey_from_b58(s: Seq<char>) -> Option<Seq<u8>> {
    if is_base58_seq(s) {
        match base58_decode_of(s) {
            Some(b) => if b.len() == 32 { Some(b) } else { None },
            None => None,
        }
    } else {
        None
    }
}

/// Parses a base58 address into its 32 bytes; anything else is an encoding
/// error.
pub fn parse_pubkey(s: &str) -> (r: Result<Vec<u8>, ApiError>)
    ensures
        r matches Ok(v) ==> pubkey_from_b58(s@) == Some(v@) && v@.len() == 32,
        r is Ok <==> pubkey_from_b58(s@) is Some,
        r matches Err(e) ==> e.kind == ErrorKind::InvalidEncoding,
{
    match decode_base58(s) {
        Ok(v) => {
            if v.len() == 32 {
                Ok(v)
            } else {
                Err(ApiError::new(
                    ErrorKind::InvalidEncoding,
                    String::from_str("address must decode to exactly 32 bytes"),
                ))
            }
        },
        Err(e) => Err(e),
    }
}

} // verus!
