//! Hex-encoded digests that the zkVM guests commit to their journals, and the checks that the
//! host applies to those journals.

use vstd::prelude::*;
use sha3::Digest;
use crate::hasher::{DefaultSha2, ShaHasherT, sha256_spec};
use crate::hex_codec::{hex_encode, hex_encode_spec};

verus! {

/// SHA3-256 of a byte string, as the `sha3` crate computes it.
pub uninterp spec fn sha3_256_spec(data: Seq<u8>) -> Seq<u8>;

/// Calls `sha3::Sha3_256::digest` and returns the 32 bytes of the digest. SHA3-256 is a
/// function of its input alone; its value is named `sha3_256_spec`.
#[verifier::external_body]
fn sha3_256_digest(data: &[u8]) -> (r: [u8; 32])
    ensures
        r@ == sha3_256_spec(data@),
{
    sha3::Sha3_256::digest(data).into()
}

/// Number of hashing rounds of the SHA3 guest.
pub const SHA3_CHAIN_ROUNDS: usize = 10usize;

/// `rounds` times: replace the string by the lower-case hex encoding of its SHA3-256 digest.
pub open spec fn sha3_hex_chain(input: Seq<u8>, rounds: nat) -> Seq<u8>
    decreases rounds,
{
    if rounds == 0 {
        input
    } else {
        hex_encode_spec(sha3_256_spec(sha3_hex_chain(input, (rounds - 1) as nat)))
    }
}

/// Running the chain for `a` rounds and then for `b` more is running it for `a + b`.
pub proof fn lemma_sha3_hex_chain_compose(input: Seq<u8>, a: nat, b: nat)
    ensures
        sha3_hex_chain(sha3_hex_chain(input, a), b) == sha3_hex_chain(input, a + b),
    decreases b,
{
    if b > 0 {
        lemma_sha3_hex_chain_compose(input, a, (b - 1) as nat);
        assert((a + b - 1) as nat == a + (b - 1) as nat);
    }
}

/// Zero rounds leave the input as it is; one round is the hex encoding of the SHA3-256 digest
/// of the input bytes as given; each further round hashes and hex-encodes the previous
/// round's output; and the first round is applied to the input before any other.
pub proof fn lemma_sha3_hex_chain_step(input: Seq<u8>, n: nat)
    ensures
        sha3_hex_chain(input, 0) == input,
        sha3_hex_chain(input, 1) == hex_encode_spec(sha3_256_spec(input)),
        sha3_hex_chain(input, n + 1) == hex_encode_spec(sha3_256_spec(sha3_hex_chain(input, n))),
        sha3_hex_chain(input, n + 1) == sha3_hex_chain(hex_encode_spec(sha3_256_spec(input)), n),
{
    reveal_with_fuel(sha3_hex_chain, 2);
    lemma_sha3_hex_chain_compose(input, 1, n);
}

/// Tells whether two byte strings are equal.
pub fn bytes_equal(a: &[u8], b: &[u8]) -> (r: bool)
    ensures
        r == (a@ == b@),
{
    if a.len() != b.len() {
        return false;
    }
    let mut i: usize = 0;
    while i < a.len()
        invariant
            a@.len() == b@.len(),
            i <= a@.len(),
            forall|j: int| 0 <= j < i ==> a@[j] == b@[j],
        decreases a@.len() - i,
    {
        if a[i] != b[i] {
            return false;
        }
        i = i + 1;
    }
    assert(a@ =~= b@);
    true
}

/// The lower-case hex encoding of the digest of `input` under the SHA-256 implementation `H`
/// (what the SHA-2 guest commits).
pub fn digest_hex<H: ShaHasherT>(input: &[u8]) -> (r: Vec<u8>)
    ensures
        r@ == hex_encode_spec(H::spec_digest(input@)),
{
    let digest: [u8; 32] = H::digest(input);
    hex_encode(&digest)
}

/// The lower-case hex encoding of the SHA3-256 digest of `input`.
pub fn sha3_hex(input: &[u8]) -> (r: Vec<u8>)
    ensures
        r@ == hex_encode_spec(sha3_256_spec(input@)),
{
    let digest: [u8; 32] = sha3_256_digest(input);
    hex_encode(&digest)
}

/// Hashes `input` with SHA3-256 and hex-encodes the digest, `rounds` times in a row (what
/// the SHA3 guest commits, with `SHA3_CHAIN_ROUNDS` rounds).
pub fn sha3_hex_rounds(input: &[u8], rounds: usize) -> (r: Vec<u8>)
    ensures
        r@ == sha3_hex_chain(input@, rounds as nat),
{
    let mut current: Vec<u8> = Vec::new();
    let mut i: usize = 0;
    while i < input.len()
        invariant
            i <= input@.len(),
            current@ == input@.take(i as int),
        decreases input@.len() - i,
    {
        current.push(input[i]);
        assert(input@.take((i + 1) as int) =~= input@.take(i as int).push(input@[i as int]));
        i = i + 1;
    }
    assert(input@.take(i as int) =~= input@);
    let mut round: usize = 0;
    while round < rounds
        invariant
            round <= rounds,
            current@ == sha3_hex_chain(input@, round as nat),
        decreases rounds - round,
    {
        current = sha3_hex(current.as_slice());
        round = round + 1;
    }
    current
}

/// The host's check of the SHA3 guest's journal: it holds the hex encoding of the SHA3-256
/// digest of the input.
pub fn sha3_journal_matches(input: &[u8], journal: &[u8]) -> (r: bool)
    ensures
        r == (journal@ == hex_encode_spec(sha3_256_spec(input@))),
{
    let expected: Vec<u8> = sha3_hex(input);
    bytes_equal(expected.as_slice(), journal)
}

/// The host's check of the SHA-2 guest's journal: it holds the hex encoding of the SHA-256
/// digest of the input.
pub fn sha256_journal_matches(input: &[u8], journal: &[u8]) -> (r: bool)
    ensures
        r == (journal@ == hex_encode_spec(sha256_spec(input@))),
{
    let expected: Vec<u8> = digest_hex::<DefaultSha2>(input);
    bytes_equal(expected.as_slice(), journal)
}

} // verus!
