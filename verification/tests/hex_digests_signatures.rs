use winter_math::fields::f64::BaseElement;
use winter_math::StarkField;
use zkp_utils::digests::{
    bytes_equal, digest_hex, sha256_journal_matches, sha3_hex, sha3_hex_rounds,
    sha3_journal_matches, SHA3_CHAIN_ROUNDS,
};
use zkp_utils::field::MODULUS;
use zkp_utils::hasher::DefaultSha2;
use zkp_utils::hex_codec::HexError;
use zkp_utils::signature::{check_signature_hex, signature_request, SignatureCheckError};
use zkp_utils::stack::{product_matches, stack_inputs_to_felts, stack_outputs_to_felts};

fn hex_of(data: &[u8]) -> Vec<u8> {
    signature_request(&secret(), data).unwrap().message_hex
}

fn decode_error(text: &[u8]) -> SignatureCheckError {
    let request = signature_request(&secret(), b"m").unwrap();
    check_signature_hex(&request.verifying_key_hex, text, &request.message_hex).unwrap_err()
}

#[test]
fn hex_encode_lower_case() {
    assert_eq!(hex_of(b"Hello world!"), b"48656c6c6f20776f726c6421".to_vec());
    assert_eq!(hex_of(&[1, 2, 3, 15, 16]), b"0102030f10".to_vec());
    assert_eq!(hex_of(&[]), Vec::<u8>::new());
    assert_eq!(hex_of(&[0xff, 0x00]), b"ff00".to_vec());
}

#[test]
fn hex_decode_errors() {
    assert_eq!(decode_error(b"abc"), SignatureCheckError::SignatureHex(HexError::OddLength));
    assert_eq!(
        decode_error(b"zz"),
        SignatureCheckError::SignatureHex(HexError::InvalidHexCharacter { c: 'z', index: 0 })
    );
    assert_eq!(
        decode_error(b"0g12"),
        SignatureCheckError::SignatureHex(HexError::InvalidHexCharacter { c: 'g', index: 1 })
    );
    assert_eq!(
        decode_error(b"12x4y6"),
        SignatureCheckError::SignatureHex(HexError::InvalidHexCharacter { c: 'x', index: 2 })
    );
    assert_eq!(decode_error(b"FfaB"), SignatureCheckError::SignatureDer);
}

#[test]
fn hex_roundtrip() {
    let data: Vec<u8> = (0..=255u8).collect();
    let request = signature_request(&secret(), &data).unwrap();
    assert_eq!(hex::decode(&request.message_hex).unwrap(), data);
    assert_eq!(
        check_signature_hex(&request.verifying_key_hex, &request.signature_hex, &request.message_hex),
        Ok(())
    );
}

#[test]
fn sha3_hex_of_abc() {
    assert_eq!(
        sha3_hex(b"abc"),
        b"3a985da74fe225b2045c172d6bd390bd855f086e3e9d525b46bfe24511431532".to_vec()
    );
}

#[test]
fn sha3_rounds_iterate() {
    let input = b"my name is cpunkzzz";
    assert_eq!(sha3_hex_rounds(input, 0), input.to_vec());
    assert_eq!(sha3_hex_rounds(input, 1), sha3_hex(input));
    assert_eq!(sha3_hex_rounds(input, 2), sha3_hex(&sha3_hex(input)));
    let mut expected = input.to_vec();
    for _ in 0..SHA3_CHAIN_ROUNDS {
        expected = sha3_hex(&expected);
    }
    assert_eq!(sha3_hex_rounds(input, SHA3_CHAIN_ROUNDS), expected);
    assert_eq!(expected.len(), 64);
}

#[test]
fn journal_checks() {
    let input = b"my name is cpunkzzz asdfhjklasdf a lot of bytes";
    let sha2_journal = digest_hex::<DefaultSha2>(input);
    assert!(sha256_journal_matches(input, &sha2_journal));
    assert!(!sha256_journal_matches(b"other input", &sha2_journal));
    let sha3_journal = sha3_hex(input);
    assert!(sha3_journal_matches(input, &sha3_journal));
    assert!(!sha3_journal_matches(input, &sha2_journal));
    assert_eq!(
        digest_hex::<DefaultSha2>(b"abc"),
        b"ba7816bf8f01cfea414140de5dae2223b00361a396177a9cb410ff61f20015ad".to_vec()
    );
}

#[test]
fn bytes_equal_compares() {
    assert!(bytes_equal(b"abc", b"abc"));
    assert!(!bytes_equal(b"abc", b"abd"));
    assert!(!bytes_equal(b"abc", b"ab"));
    assert!(bytes_equal(b"", b""));
}

#[test]
fn stack_inputs_are_reversed_felts() {
    assert_eq!(stack_inputs_to_felts(&vec![1, 2, MODULUS + 3]), vec![3, 2, 1]);
    assert_eq!(stack_inputs_to_felts(&vec![]), Vec::<u64>::new());
    assert_eq!(stack_outputs_to_felts(&vec![1, MODULUS, u64::MAX]), vec![1, 0, 0xFFFF_FFFE]);
}

#[test]
fn goldilocks_product_check() {
    let a = 0xFFFF_FFFF_0000_0000u64;
    let b = 2u64;
    let product = (BaseElement::new(a) * BaseElement::new(b)).as_int();
    assert!(product_matches(a, b, product));
    assert!(product_matches(3, 5, 15 + MODULUS));
    assert!(!product_matches(a, b, product + 1));
    assert!(product_matches(MODULUS, 5, 0));
}

fn secret() -> Vec<u8> {
    let mut s = vec![0u8; 32];
    s[31] = 7;
    s[0] = 1;
    s
}

#[test]
fn signature_request_passes_check() {
    let message = b"I own BAYC and a few CryptoPunks!!!";
    let request = signature_request(&secret(), message).unwrap();
    assert_eq!(request.message_hex, hex::encode(message).into_bytes());
    assert_eq!(request.verifying_key_hex.len(), 66);
    assert_eq!(
        check_signature_hex(&request.verifying_key_hex, &request.signature_hex, &request.message_hex),
        Ok(())
    );
}

#[test]
fn signature_request_refuses_invalid_secret() {
    assert!(signature_request(&[0u8; 32], b"msg").is_none());
    assert!(signature_request(&[1u8; 5], b"msg").is_none());
}

#[test]
fn signature_check_errors() {
    let message = b"hello";
    let request = signature_request(&secret(), message).unwrap();
    let vk = request.verifying_key_hex.clone();
    let sig = request.signature_hex.clone();
    let msg = request.message_hex.clone();
    assert_eq!(
        check_signature_hex(&vk, b"abc", &msg),
        Err(SignatureCheckError::SignatureHex(HexError::OddLength))
    );
    assert_eq!(check_signature_hex(&vk, b"0102", &msg), Err(SignatureCheckError::SignatureDer));
    assert_eq!(
        check_signature_hex(&vk, &sig, b"zz"),
        Err(SignatureCheckError::MessageHex(HexError::InvalidHexCharacter { c: 'z', index: 0 }))
    );
    assert_eq!(
        check_signature_hex(b"1", &sig, &msg),
        Err(SignatureCheckError::VerifyingKeyHex(HexError::OddLength))
    );
    assert_eq!(check_signature_hex(b"0102", &sig, &msg), Err(SignatureCheckError::VerifyingKeySec1));
    let other = hex_of(b"hellp");
    assert_eq!(check_signature_hex(&vk, &sig, &other), Err(SignatureCheckError::Rejected));
}
