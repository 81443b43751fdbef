//! STARK proof parameters: the values that a `ProofOptions` of the STARK prover is built
//! from, the range checks that the prover applies to them, and the parameter sets that the
//! recursion runner uses.

use vstd::prelude::*;
use crate::fib::is_power_of_two;

verus! {

/// Hash function used for the commitments of a STARK proof.
#[derive(Clone, Copy, Debug, PartialEq, Eq, Structural)]
pub enum HashFunction {
    Blake3_192,
    Blake3_256,
    Sha3_256,
    Sha2_256,
}

/// Field in which the composition polynomial is built.
#[derive(Clone, Copy, Debug, PartialEq, Eq, Structural)]
pub enum FieldExtension {
    /// The base field itself.
    BaseField,
    /// The quadratic extension of the base field.
    Quadratic,
    /// The cubic extension of the base field.
    Cubic,
}

/// The parameters of a STARK proof.
#[derive(Clone, Copy, Debug, PartialEq, Eq, Structural)]
pub struct ProofParams {
    pub num_queries: usize,
    pub blowup_factor: usize,
    pub grinding_factor: u32,
    pub hash_fn: HashFunction,
    pub field_extension: FieldExtension,
    pub fri_folding_factor: usize,
    pub fri_max_remainder_size: usize,
}

impl ProofParams {
    /// The ranges that the prover's `ProofOptions::new` accepts; it panics outside them.
    pub open spec fn is_valid(self) -> bool {
        &&& 1 <= self.num_queries <= 128
        &&& is_power_of_two(self.blowup_factor as nat)
        &&& 2 <= self.blowup_factor <= 128
        &&& self.grinding_factor <= 32
        &&& is_power_of_two(self.fri_folding_factor as nat)
        &&& 4 <= self.fri_folding_factor <= 16
        &&& is_power_of_two(self.fri_max_remainder_size as nat)
        &&& 32 <= self.fri_max_remainder_size <= 1024
    }
}

/// Grinding factor used by the recursion runner.
pub const RUNNER_GRINDING_FACTOR: u32 = 20u32;

/// Parameters of the winter proofs that the recursion runner generates: `fri_queries` FRI
/// queries, blowup factor 8, grinding for 20 bits, SHA-2 commitments, the quadratic field
/// extension, FRI folding factor 8 and FRI remainders of at most 256 values.
pub fn get_proof_options(fri_queries: u32) -> (r: ProofParams)
    requires
        1 <= fri_queries <= 128,
    ensures
        r == (ProofParams {
            num_queries: fri_queries as usize,
            blowup_factor: 8,
            grinding_factor: RUNNER_GRINDING_FACTOR,
            hash_fn: HashFunction::Sha2_256,
            field_extension: FieldExtension::Quadratic,
            fri_folding_factor: 8,
            fri_max_remainder_size: 256,
        }),
        r.is_valid(),
{
    proof {
        reveal_pow2_facts();
    }
    ProofParams {
        num_queries: fri_queries as usize,
        blowup_factor: 8,
        grinding_factor: RUNNER_GRINDING_FACTOR,
        hash_fn: HashFunction::Sha2_256,
        field_extension: FieldExtension::Quadratic,
        fri_folding_factor: 8,
        fri_max_remainder_size: 256,
    }
}

/// Conjectured security, in bits, of a runner proof with `fri_queries` queries:
/// `grinding + log2(blowup) * queries - 1 = 20 + 3 * fri_queries - 1`.
pub fn security_bits(fri_queries: u32) -> (r: u32)
    requires
        RUNNER_GRINDING_FACTOR + 3 * fri_queries - 1 <= u32::MAX,
    ensures
        r == RUNNER_GRINDING_FACTOR + 3 * fri_queries - 1,
{
    RUNNER_GRINDING_FACTOR + (3 * fri_queries) - 1
}

/// Parameters of the Fibonacci proofs checked inside the zkVM: 27 queries, blowup factor 8,
/// grinding for 16 bits, SHA-2 commitments, the base field, FRI folding factor 8 and FRI
/// remainders of at most 256 values.
pub fn fib_proof_options() -> (r: ProofParams)
    ensures
        r == (ProofParams {
            num_queries: 27,
            blowup_factor: 8,
            grinding_factor: 16,
            hash_fn: HashFunction::Sha2_256,
            field_extension: FieldExtension::BaseField,
            fri_folding_factor: 8,
            fri_max_remainder_size: 256,
        }),
        r.is_valid(),
{
    proof {
        reveal_pow2_facts();
    }
    ProofParams {
        num_queries: 27,
        blowup_factor: 8,
        grinding_factor: 16,
        hash_fn: HashFunction::Sha2_256,
        field_extension: FieldExtension::BaseField,
        fri_folding_factor: 8,
        fri_max_remainder_size: 256,
    }
}

/// The powers of two that the parameter sets use.
proof fn reveal_pow2_facts()
    ensures
        is_power_of_two(8),
        is_power_of_two(256),
{
    reveal_with_fuel(is_power_of_two, 9);
}

} // verus!
