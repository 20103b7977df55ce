use sol_core::codec::{decode_base58, decode_base64, encode_base58};
use sol_core::errors::ErrorKind;
use sol_core::handlers::keypair::generate;
use sol_core::handlers::message::{sign, verify};
use sol_core::keys::{generate_keypair, sign_message, verify_signature};
use sol_core::models::message::{SignMessageRequest, VerifyMessageRequest};

#[test]
fn generated_keypair_shape() {
    let (pubkey, secret) = generate_keypair();
    assert_eq!(pubkey.len(), 32);
    assert_eq!(secret.len(), 64);
    assert_eq!(&secret[32..], &pubkey[..]);
}

#[test]
fn generated_keypairs_are_fresh() {
    let (_, a) = generate_keypair();
    let (_, b) = generate_keypair();
    assert_ne!(a, b);
}

#[test]
fn sign_then_verify_succeeds() {
    let (pubkey, secret) = generate_keypair();
    for msg in ["", "x", "Hello, Solana!", "\u{1f600} unicode"] {
        let (sig, pk) = sign_message(&secret, msg).expect("valid keypair must sign");
        assert_eq!(sig.len(), 64);
        assert_eq!(pk, pubkey);
        assert!(verify_signature(&sig, &pk, msg).unwrap());
    }
}

#[test]
fn signature_is_not_the_message() {
    let (_, secret) = generate_keypair();
    let (sig, _) = sign_message(&secret, "abc").unwrap();
    assert_ne!(sig, b"abc".to_vec());
    let (sig2, _) = sign_message(&secret, "abc").unwrap();
    assert_eq!(sig, sig2);
}

#[test]
fn bit_flips_break_verification() {
    let (pubkey, secret) = generate_keypair();
    let msg = "an important message";
    let (sig, _) = sign_message(&secret, msg).unwrap();

    // flip one bit of the signature, in every byte
    for i in 0..sig.len() {
        let mut bad = sig.clone();
        bad[i] ^= 1;
        assert!(!verify_signature(&bad, &pubkey, msg).unwrap());
    }
    // flip one bit of the message
    assert!(!verify_signature(&sig, &pubkey, "an important messagf").unwrap());
    // flip one bit of the public key
    for i in 0..pubkey.len() {
        let mut bad = pubkey.clone();
        bad[i] ^= 1;
        assert!(!verify_signature(&sig, &bad, msg).unwrap());
    }
}

#[test]
fn sign_rejects_bad_key_material() {
    let err = sign_message(&vec![1u8; 63], "m").expect_err("63 bytes");
    assert!(matches!(err.kind, ErrorKind::InvalidKeyMaterial));
    let err = sign_message(&vec![1u8; 65], "m").expect_err("65 bytes");
    assert!(matches!(err.kind, ErrorKind::InvalidKeyMaterial));
    // 64 bytes whose second half is not the derived public key
    let (_, mut secret) = generate_keypair();
    secret[40] ^= 0xff;
    let err = sign_message(&secret, "m").expect_err("mismatched halves");
    assert!(matches!(err.kind, ErrorKind::InvalidKeyMaterial));
}

#[test]
fn verify_rejects_wrong_signature_length() {
    let (pubkey, _) = generate_keypair();
    let err = verify_signature(&vec![0u8; 63], &pubkey, "m").expect_err("63 bytes");
    assert!(matches!(err.kind, ErrorKind::InvalidSignatureLength));
}

#[test]
fn generate_handler_encodes_the_keypair() {
    let resp = generate();
    assert!(resp.success);
    let secret = decode_base58(&resp.data.secret).unwrap();
    let pubkey = decode_base58(&resp.data.pubkey).unwrap();
    assert_eq!(secret.len(), 64);
    assert_eq!(pubkey.len(), 32);
    assert_eq!(&secret[32..], &pubkey[..]);
}

#[test]
fn sign_handler_round_trips_through_verify_handler() {
    let resp = generate();
    let signed = sign(SignMessageRequest {
        message: "hello".to_string(),
        secret: resp.data.secret.clone(),
    })
    .expect("signing must succeed");
    assert!(signed.success);
    assert_eq!(signed.data.message, "hello");
    assert_eq!(signed.data.public_key, resp.data.pubkey);
    assert_eq!(decode_base64(&signed.data.signature).unwrap().len(), 64);

    let verified = verify(VerifyMessageRequest {
        message: "hello".to_string(),
        signature: signed.data.signature.clone(),
        pubkey: signed.data.public_key.clone(),
    })
    .expect("verification must run");
    assert!(verified.success);
    assert!(verified.data.valid);
    assert_eq!(verified.data.message, "hello");
    assert_eq!(verified.data.pubkey, resp.data.pubkey);

    let tampered = verify(VerifyMessageRequest {
        message: "hellp".to_string(),
        signature: signed.data.signature,
        pubkey: signed.data.public_key,
    })
    .unwrap();
    assert!(!tampered.data.valid);
}

#[test]
fn sign_handler_rejects_missing_fields() {
    let err = sign(SignMessageRequest { message: "".to_string(), secret: "abc".to_string() })
        .expect_err("empty message");
    assert!(matches!(err.kind, ErrorKind::MissingField));
    let err = sign(SignMessageRequest { message: "m".to_string(), secret: "".to_string() })
        .expect_err("empty secret");
    assert!(matches!(err.kind, ErrorKind::MissingField));
}

#[test]
fn sign_handler_rejects_malformed_secret() {
    let err = sign(SignMessageRequest { message: "m".to_string(), secret: "0line".to_string() })
        .expect_err("0 is not base58");
    assert!(matches!(err.kind, ErrorKind::InvalidEncoding));

    let short = encode_base58(&vec![1u8; 32]);
    let err = sign(SignMessageRequest { message: "m".to_string(), secret: short })
        .expect_err("32 bytes are not keypair material");
    assert!(matches!(err.kind, ErrorKind::InvalidKeyMaterial));
}

#[test]
fn verify_handler_rejects_malformed_input() {
    let addr = encode_base58(&vec![1u8; 32]);

    let err = verify(VerifyMessageRequest {
        message: "m".to_string(),
        signature: "AAAA".to_string(),
        pubkey: "0bad".to_string(),
    })
    .expect_err("0 is not base58");
    assert!(matches!(err.kind, ErrorKind::InvalidEncoding));

    let err = verify(VerifyMessageRequest {
        message: "m".to_string(),
        signature: "!!not base64!!".to_string(),
        pubkey: addr.clone(),
    })
    .expect_err("not base64");
    assert!(matches!(err.kind, ErrorKind::InvalidEncoding));

    let err = verify(VerifyMessageRequest {
        message: "m".to_string(),
        signature: "AAAA".to_string(),
        pubkey: addr.clone(),
    })
    .expect_err("3 bytes are not a signature");
    assert!(matches!(err.kind, ErrorKind::InvalidSignatureLength));

    // a well-formed 64-byte signature that simply does not match: no error
    let sig64 = sol_core::codec::encode_base64(&vec![0u8; 64]);
    let resp = verify(VerifyMessageRequest {
        message: "m".to_string(),
        signature: sig64,
        pubkey: addr,
    })
    .unwrap();
    assert!(!resp.data.valid);
}
