//! Checking an ECDSA/secp256k1 signature whose verifying key, signature and message arrive as
//! hex strings (the signature-verification guest).

use vstd::prelude::*;
use k256::ecdsa::signature::{Signer, Verifier};
use crate::hex_codec::{
    HexError, ascii_uppercase, hex_decode, hex_decode_spec, hex_encode, hex_encode_spec,
    lemma_hex_decode_ignores_case, lemma_hex_roundtrip,
};

verus! {

/// The bytes are a SEC1 encoding of a secp256k1 public key that `k256` accepts.
pub uninterp spec fn sec1_key_valid(bytes: Seq<u8>) -> bool;

/// The bytes are an ASN.1 DER encoding of an ECDSA/secp256k1 signature that `k256` accepts.
pub uninterp spec fn der_signature_valid(bytes: Seq<u8>) -> bool;

/// ECDSA/secp256k1 with SHA-256 accepts the signature (DER) of the message under the key
/// (SEC1).
pub uninterp spec fn ecdsa_accepts(key_sec1: Seq<u8>, message: Seq<u8>, signature_der: Seq<u8>) -> bool;

/// Calls `k256::ecdsa::VerifyingKey::from_sec1_bytes` and reports whether it parsed the key.
/// Parsing depends on the bytes alone; its outcome is named `sec1_key_valid`.
#[verifier::external_body]
fn sec1_key_is_valid(bytes: &[u8]) -> (r: bool)
    ensures
        r == sec1_key_valid(bytes@),
{
    k256::ecdsa::VerifyingKey::from_sec1_bytes(bytes).is_ok()
}

/// Calls `k256::ecdsa::Signature::from_der` and reports whether it parsed the signature.
/// Parsing depends on the bytes alone; its outcome is named `der_signature_valid`.
#[verifier::external_body]
fn der_signature_is_valid(bytes: &[u8]) -> (r: bool)
    ensures
        r == der_signature_valid(bytes@),
{
    k256::ecdsa::Signature::from_der(bytes).is_ok()
}

/// Calls `Verifier::verify` of `k256::ecdsa::VerifyingKey` on the key and signature decoded
/// from their encodings (which the `requires` says decode), and reports whether it accepted.
/// The outcome depends on the three byte strings alone; it is named `ecdsa_accepts`.
#[verifier::external_body]
fn ecdsa_verify(key_sec1: &[u8], message: &[u8], signature_der: &[u8]) -> (r: bool)
    requires
        sec1_key_valid(key_sec1@),
        der_signature_valid(signature_der@),
    ensures
        r == ecdsa_accepts(key_sec1@, message@, signature_der@),
{
    match (
        k256::ecdsa::VerifyingKey::from_sec1_bytes(key_sec1),
        k256::ecdsa::Signature::from_der(signature_der),
    ) {
        (Ok(key), Ok(signature)) => key.verify(message, &signature).is_ok(),
        _ => false,
    }
}

/// Why a hex-encoded signature was not accepted.
#[derive(Clone, Copy, Debug, PartialEq, Eq, Structural)]
pub enum SignatureCheckError {
    /// The signature is not valid hex.
    SignatureHex(HexError),
    /// The signature bytes are not a DER-encoded signature.
    SignatureDer,
    /// The message is not valid hex.
    MessageHex(HexError),
    /// The verifying key is not valid hex.
    VerifyingKeyHex(HexError),
    /// The verifying key bytes are not a SEC1-encoded public key.
    VerifyingKeySec1,
    /// The signature does not verify.
    Rejected,
}

/// The outcome of checking hex-encoded inputs, in the order the guest decodes them: the
/// signature (hex, then DER), the message (hex), the key (hex, then SEC1), and finally the
/// signature check itself.
pub open spec fn check_signature_spec(
    verifying_key_hex: Seq<u8>,
    signature_hex: Seq<u8>,
    message_hex: Seq<u8>,
) -> Result<(), SignatureCheckError> {
    match hex_decode_spec(signature_hex) {
        Err(e) => Err(SignatureCheckError::SignatureHex(e)),
        Ok(signature) => if !der_signature_valid(signature) {
            Err(SignatureCheckError::SignatureDer)
        } else {
            match hex_decode_spec(message_hex) {
                Err(e) => Err(SignatureCheckError::MessageHex(e)),
                Ok(message) => match hex_decode_spec(verifying_key_hex) {
                    Err(e) => Err(SignatureCheckError::VerifyingKeyHex(e)),
                    Ok(key) => if !sec1_key_valid(key) {
                        Err(SignatureCheckError::VerifyingKeySec1)
                    } else if !ecdsa_accepts(key, message, signature) {
                        Err(SignatureCheckError::Rejected)
                    } else {
                        Ok(())
                    },
                },
            }
        },
    }
}

/// When the three hex strings decode (digits of either case) to a key, a message and a
/// signature: a signature that is not DER is refused as such; otherwise a key that is not SEC1
/// is refused as such; otherwise the check succeeds exactly when ECDSA accepts the signature
/// of the message under the key, and fails with `Rejected` exactly when it does not.
pub proof fn lemma_check_signature_decoded(
    verifying_key_hex: Seq<u8>,
    signature_hex: Seq<u8>,
    message_hex: Seq<u8>,
    key: Seq<u8>,
    message: Seq<u8>,
    signature: Seq<u8>,
)
    requires
        hex_decode_spec(verifying_key_hex) == Ok::<Seq<u8>, HexError>(key),
        hex_decode_spec(signature_hex) == Ok::<Seq<u8>, HexError>(signature),
        hex_decode_spec(message_hex) == Ok::<Seq<u8>, HexError>(message),
    ensures
        !der_signature_valid(signature) ==> check_signature_spec(
            verifying_key_hex,
            signature_hex,
            message_hex,
        ) == Err::<(), SignatureCheckError>(SignatureCheckError::SignatureDer),
        der_signature_valid(signature) && !sec1_key_valid(key) ==> check_signature_spec(
            verifying_key_hex,
            signature_hex,
            message_hex,
        ) == Err::<(), SignatureCheckError>(SignatureCheckError::VerifyingKeySec1),
        der_signature_valid(signature) && sec1_key_valid(key) ==> (check_signature_spec(
            verifying_key_hex,
            signature_hex,
            message_hex,
        ) == Ok::<(), SignatureCheckError>(()) <==> ecdsa_accepts(key, message, signature)),
        der_signature_valid(signature) && sec1_key_valid(key) ==> (check_signature_spec(
            verifying_key_hex,
            signature_hex,
            message_hex,
        ) == Err::<(), SignatureCheckError>(SignatureCheckError::Rejected) <==> !ecdsa_accepts(
            key,
            message,
            signature,
        )),
{
}

/// The check succeeds only when all three strings decode, the signature is DER, the key is
/// SEC1, and ECDSA accepts the signature of the message under the key.
pub proof fn lemma_check_signature_ok_only_if_verified(
    verifying_key_hex: Seq<u8>,
    signature_hex: Seq<u8>,
    message_hex: Seq<u8>,
)
    requires
        check_signature_spec(verifying_key_hex, signature_hex, message_hex) == Ok::<
            (),
            SignatureCheckError,
        >(()),
    ensures
        hex_decode_spec(verifying_key_hex) is Ok,
        hex_decode_spec(signature_hex) is Ok,
        hex_decode_spec(message_hex) is Ok,
        der_signature_valid(hex_decode_spec(signature_hex)->Ok_0),
        sec1_key_valid(hex_decode_spec(verifying_key_hex)->Ok_0),
        ecdsa_accepts(
            hex_decode_spec(verifying_key_hex)->Ok_0,
            hex_decode_spec(message_hex)->Ok_0,
            hex_decode_spec(signature_hex)->Ok_0,
        ),
{
}

/// Once the three strings decode, the check does not depend on the case of their hex
/// digits: writing any one of them in upper case gives the same outcome.
pub proof fn lemma_check_signature_ignores_hex_case(
    verifying_key_hex: Seq<u8>,
    signature_hex: Seq<u8>,
    message_hex: Seq<u8>,
)
    requires
        hex_decode_spec(verifying_key_hex) is Ok,
        hex_decode_spec(signature_hex) is Ok,
        hex_decode_spec(message_hex) is Ok,
    ensures
        check_signature_spec(ascii_uppercase(verifying_key_hex), signature_hex, message_hex)
            == check_signature_spec(verifying_key_hex, signature_hex, message_hex),
        check_signature_spec(verifying_key_hex, ascii_uppercase(signature_hex), message_hex)
            == check_signature_spec(verifying_key_hex, signature_hex, message_hex),
        check_signature_spec(verifying_key_hex, signature_hex, ascii_uppercase(message_hex))
            == check_signature_spec(verifying_key_hex, signature_hex, message_hex),
{
    lemma_hex_decode_ignores_case(verifying_key_hex);
    lemma_hex_decode_ignores_case(signature_hex);
    lemma_hex_decode_ignores_case(message_hex);
}

/// Hex strings of a key, a message and a signature that ECDSA accepts pass the check also
/// when they are written in upper case.
pub proof fn lemma_upper_case_request_verifies(key: Seq<u8>, message: Seq<u8>, signature: Seq<u8>)
    requires
        sec1_key_valid(key),
        der_signature_valid(signature),
        ecdsa_accepts(key, message, signature),
    ensures
        check_signature_spec(
            ascii_uppercase(hex_encode_spec(key)),
            ascii_uppercase(hex_encode_spec(signature)),
            ascii_uppercase(hex_encode_spec(message)),
        ) == Ok::<(), SignatureCheckError>(()),
{
    lemma_hex_roundtrip(key);
    lemma_hex_roundtrip(signature);
    lemma_hex_roundtrip(message);
    lemma_hex_decode_ignores_case(hex_encode_spec(key));
    lemma_hex_decode_ignores_case(hex_encode_spec(signature));
    lemma_hex_decode_ignores_case(hex_encode_spec(message));
}

/// Decodes the hex-encoded signature, message and verifying key and checks the signature.
pub fn check_signature_hex(
    verifying_key_hex: &[u8],
    signature_hex: &[u8],
    message_hex: &[u8],
) -> (r: Result<(), SignatureCheckError>)
    ensures
        r == check_signature_spec(verifying_key_hex@, signature_hex@, message_hex@),
{
    let signature = match hex_decode(signature_hex) {
        Ok(bytes) => bytes,
        Err(e) => {
            return Err(SignatureCheckError::SignatureHex(e));
        },
    };
    if !der_signature_is_valid(signature.as_slice()) {
        return Err(SignatureCheckError::SignatureDer);
    }
    let message = match hex_decode(message_hex) {
        Ok(bytes) => bytes,
        Err(e) => {
            return Err(SignatureCheckError::MessageHex(e));
        },
    };
    let key = match hex_decode(verifying_key_hex) {
        Ok(bytes) => bytes,
        Err(e) => {
            return Err(SignatureCheckError::VerifyingKeyHex(e));
        },
    };
    if !sec1_key_is_valid(key.as_slice()) {
        return Err(SignatureCheckError::VerifyingKeySec1);
    }
    if !ecdsa_verify(key.as_slice(), message.as_slice(), signature.as_slice()) {
        return Err(SignatureCheckError::Rejected);
    }
    Ok(())
}

/// The bytes are a secp256k1 secret scalar that `k256` accepts as a signing key.
pub uninterp spec fn secret_key_valid(bytes: Seq<u8>) -> bool;

/// The compressed SEC1 encoding of the verifying key of a signing key.
pub uninterp spec fn verifying_key_of(secret: Seq<u8>) -> Seq<u8>;

/// The DER encoding of the deterministic (RFC 6979) ECDSA/secp256k1 signature of a message.
pub uninterp spec fn ecdsa_signature_of(secret: Seq<u8>, message: Seq<u8>) -> Seq<u8>;

/// Calls `k256::ecdsa::SigningKey::from_bytes` and reports whether it accepted the secret.
/// The outcome depends on the bytes alone; it is named `secret_key_valid`.
#[verifier::external_body]
fn secret_key_is_valid(secret: &[u8]) -> (r: bool)
    ensures
        r == secret_key_valid(secret@),
{
    k256::ecdsa::SigningKey::from_bytes(secret).is_ok()
}

/// Calls `SigningKey::verifying_key` on the signing key decoded from `secret` and returns the
/// compressed SEC1 bytes of `VerifyingKey::to_bytes`. Claims that these bytes are what
/// `verifying_key_of` names, and that `VerifyingKey::from_sec1_bytes` accepts them (they are
/// the SEC1 encoding of a key).
#[verifier::external_body]
fn derive_verifying_key(secret: &[u8]) -> (r: Vec<u8>)
    requires
        secret_key_valid(secret@),
    ensures
        r@ == verifying_key_of(secret@),
        sec1_key_valid(r@),
{
    match k256::ecdsa::SigningKey::from_bytes(secret) {
        Ok(key) => key.verifying_key().to_bytes().to_vec(),
        Err(_) => Vec::new(),
    }
}

/// Calls `Signer::sign` of `k256::ecdsa::SigningKey` (deterministic, RFC 6979, SHA-256) on the
/// signing key decoded from `secret` and returns the DER bytes of `Signature::to_der`. Claims
/// that these bytes are what `ecdsa_signature_of` names, that `Signature::from_der` accepts
/// them, and that ECDSA verification accepts them for the message under the key's verifying
/// key (a signature made with a key verifies under that key).
#[verifier::external_body]
fn ecdsa_sign(secret: &[u8], message: &[u8]) -> (r: Vec<u8>)
    requires
        secret_key_valid(secret@),
    ensures
        r@ == ecdsa_signature_of(secret@, message@),
        der_signature_valid(r@),
        ecdsa_accepts(verifying_key_of(secret@), message@, r@),
{
    match k256::ecdsa::SigningKey::from_bytes(secret) {
        Ok(key) => {
            let signature: k256::ecdsa::Signature = key.sign(message);
            signature.to_der().as_bytes().to_vec()
        },
        Err(_) => Vec::new(),
    }
}

/// The hex-encoded inputs of the signature-verification guest.
pub struct SignatureRequest {
    pub verifying_key_hex: Vec<u8>,
    pub signature_hex: Vec<u8>,
    pub message_hex: Vec<u8>,
}

/// Signs `message` with the signing key `secret` and hex-encodes the verifying key (compressed
/// SEC1), the signature (DER) and the message; `None` when `secret` is not a signing key.
/// A request made here always passes `check_signature_hex`, also with its hex strings written
/// in upper case.
pub fn signature_request(secret: &[u8], message: &[u8]) -> (r: Option<SignatureRequest>)
    ensures
        r is Some <==> secret_key_valid(secret@),
        r matches Some(req) ==> {
            &&& req.verifying_key_hex@ == hex_encode_spec(verifying_key_of(secret@))
            &&& req.signature_hex@ == hex_encode_spec(ecdsa_signature_of(secret@, message@))
            &&& req.message_hex@ == hex_encode_spec(message@)
            &&& check_signature_spec(req.verifying_key_hex@, req.signature_hex@, req.message_hex@)
                == Ok::<(), SignatureCheckError>(())
            &&& check_signature_spec(
                ascii_uppercase(req.verifying_key_hex@),
                ascii_uppercase(req.signature_hex@),
                ascii_uppercase(req.message_hex@),
            ) == Ok::<(), SignatureCheckError>(())
        },
{
    if !secret_key_is_valid(secret) {
        return None;
    }
    let key: Vec<u8> = derive_verifying_key(secret);
    let signature: Vec<u8> = ecdsa_sign(secret, message);
    let verifying_key_hex: Vec<u8> = hex_encode(key.as_slice());
    let signature_hex: Vec<u8> = hex_encode(signature.as_slice());
    let message_hex: Vec<u8> = hex_encode(message);
    proof {
        lemma_hex_roundtrip(key@);
        lemma_hex_roundtrip(signature@);
        lemma_hex_roundtrip(message@);
        lemma_upper_case_request_verifies(key@, message@, signature@);
    }
    Some(SignatureRequest { verifying_key_hex, signature_hex, message_hex })
}

} // verus!
