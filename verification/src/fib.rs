//! The Fibonacci example: the n-th Fibonacci number in the Goldilocks field, and the
//! two-column execution trace whose last cell is that number.

use vstd::prelude::*;
use crate::field::{felt_add, felt_add_spec, is_felt, modulus};
use crate::options::ProofParams;
use crate::trace::{ExecutionTrace, MAX_TRACE_LENGTH, columns_view, is_valid_trace};

verus! {

/// `n` is a power of two.
pub open spec fn is_power_of_two(n: nat) -> bool
    decreases n,
{
    if n == 0 {
        false
    } else if n == 1 {
        true
    } else {
        n % 2 == 0 && is_power_of_two(n / 2)
    }
}

/// The Fibonacci numbers over the integers: 0, 1, 1, 2, 3, 5, ...
pub open spec fn fib(n: nat) -> nat
    decreases n,
{
    if n == 0 {
        0
    } else if n == 1 {
        1
    } else {
        fib((n - 1) as nat) + fib((n - 2) as nat)
    }
}

/// The Fibonacci numbers computed in the field: each term is the field sum of the two before.
pub open spec fn fib_mod(n: nat) -> nat
    decreases n,
{
    if n == 0 {
        0
    } else if n == 1 {
        1
    } else {
        felt_add_spec(fib_mod((n - 1) as nat), fib_mod((n - 2) as nat))
    }
}

/// Every term of `fib_mod` is a canonical field element.
pub proof fn lemma_fib_mod_is_felt(n: nat)
    ensures
        fib_mod(n) < modulus(),
{
}

/// The field Fibonacci numbers are the integer Fibonacci numbers reduced modulo p.
pub proof fn lemma_fib_mod_is_reduced_fib(n: nat)
    ensures
        fib_mod(n) == fib(n) % modulus(),
    decreases n,
{
    if n >= 2 {
        lemma_fib_mod_is_reduced_fib((n - 1) as nat);
        lemma_fib_mod_is_reduced_fib((n - 2) as nat);
        vstd::arithmetic::div_mod::lemma_add_mod_noop(
            fib((n - 1) as nat) as int,
            fib((n - 2) as nat) as int,
            modulus() as int,
        );
    } else {
        vstd::arithmetic::div_mod::lemma_small_mod(n, modulus());
    }
}

/// The first three field Fibonacci numbers.
proof fn lemma_fib_mod_start()
    ensures
        fib_mod(0) == 0,
        fib_mod(1) == 1,
        fib_mod(2) == 1,
{
    reveal_with_fuel(fib_mod, 3);
    vstd::arithmetic::div_mod::lemma_small_mod(1, modulus());
}

/// Returns the `n`-th Fibonacci number in the field (with the first two terms equal to one).
pub fn compute_fib_term(n: usize) -> (r: u64)
    requires
        n >= 1,
    ensures
        r as nat == fib_mod(n as nat),
        is_felt(r),
{
    proof {
        lemma_fib_mod_start();
    }
    let mut t0: u64 = 1;
    let mut t1: u64 = 1;
    let steps: usize = n - 1;
    let mut i: usize = 0;
    while i < steps
        invariant
            n >= 1,
            steps == n - 1,
            i <= steps,
            t0 as nat == fib_mod((i + 2) as nat),
            t1 as nat == fib_mod((i + 1) as nat),
            is_felt(t0),
            is_felt(t1),
        decreases steps - i,
    {
        t1 = felt_add(t0, t1);
        core::mem::swap(&mut t0, &mut t1);
        i = i + 1;
    }
    t1
}

/// Column `col` (0 or 1) of the Fibonacci trace with `len` rows: row `i` holds the terms
/// `2i + 1` and `2i + 2` of the sequence.
pub open spec fn fib_trace_column(col: nat, len: nat) -> Seq<u64> {
    Seq::new(len, |i: int| fib_mod((2 * i + col + 1) as nat) as u64)
}

/// The Fibonacci execution trace with `len` rows.
pub open spec fn fib_trace(len: nat) -> Seq<Seq<u64>> {
    seq![fib_trace_column(0, len), fib_trace_column(1, len)]
}

/// A power of two that is at least 2 is even, and its half is a power of two.
pub proof fn lemma_power_of_two_half(n: nat)
    requires
        is_power_of_two(n),
        n >= 2,
    ensures
        n % 2 == 0,
        is_power_of_two(n / 2),
{
}

/// The public input of a Fibonacci proof read from a trace: the value in the last row of the
/// second column.
pub open spec fn pub_inputs_of(trace: Seq<Seq<u64>>) -> u64 {
    trace[1][trace[1].len() - 1]
}

/// Builds the Fibonacci execution traces.
pub struct FibProver {
    options: ProofParams,
}

impl FibProver {
    /// The proof parameters of this prover.
    pub closed spec fn spec_options(&self) -> ProofParams {
        self.options
    }

    /// The trace that `build_trace` returns for a sequence of the given length.
    pub open spec fn spec_build_trace(&self, sequence_length: nat) -> Seq<Seq<u64>> {
        fib_trace(sequence_length / 2)
    }

    /// A prover with the given proof parameters.
    pub fn new(options: ProofParams) -> (r: FibProver)
        ensures
            r.spec_options() == options,
    {
        FibProver { options }
    }

    /// The proof parameters of this prover.
    pub fn options(&self) -> (r: &ProofParams)
        ensures
            *r == self.spec_options(),
    {
        &self.options
    }

    /// Builds an execution trace for computing a Fibonacci sequence of the given length such
    /// that each row advances the sequence by two terms: `sequence_length / 2` rows, row `i`
    /// holding the terms `2i + 1` and `2i + 2`.
    pub fn build_trace(&self, sequence_length: usize) -> (trace: ExecutionTrace)
        requires
            is_power_of_two(sequence_length as nat),
            16 <= sequence_length,
            sequence_length as nat <= 2 * MAX_TRACE_LENGTH,
        ensures
            trace@ == self.spec_build_trace(sequence_length as nat),
    {
        proof {
            lemma_power_of_two_half(sequence_length as nat);
            lemma_fib_mod_start();
        }
        let len: usize = sequence_length / 2;
        let mut col0: Vec<u64> = Vec::new();
        let mut col1: Vec<u64> = Vec::new();
        let mut s0: u64 = 1;
        let mut s1: u64 = 1;
        col0.push(s0);
        col1.push(s1);
        assert(col0@ =~= fib_trace_column(0, 1));
        assert(col1@ =~= fib_trace_column(1, 1));
        let mut i: usize = 1;
        while i < len
            invariant
                1 <= i <= len,
                col0@ == fib_trace_column(0, i as nat),
                col1@ == fib_trace_column(1, i as nat),
                s0 as nat == fib_mod((2 * i - 1) as nat),
                s1 as nat == fib_mod((2 * i) as nat),
                is_felt(s0),
                is_felt(s1),
            decreases len - i,
        {
            s0 = felt_add(s0, s1);
            s1 = felt_add(s1, s0);
            assert(fib_mod((2 * i + 1) as nat) == felt_add_spec(
                fib_mod((2 * i) as nat),
                fib_mod((2 * i - 1) as nat),
            ));
            col0.push(s0);
            col1.push(s1);
            i = i + 1;
            assert(col0@ =~= fib_trace_column(0, i as nat));
            assert(col1@ =~= fib_trace_column(1, i as nat));
        }
        let columns: Vec<Vec<u64>> = vec![col0, col1];
        let ghost cols = columns_view(columns@);
        assert(cols =~= fib_trace(len as nat));
        assert forall|c: int, s: int|
            0 <= c < cols.len() && 0 <= s < cols[c].len() implies is_felt(#[trigger] cols[c][s]) by {
            lemma_fib_mod_is_felt((2 * s + c + 1) as nat);
        }
        assert(is_valid_trace(cols));
        let trace = ExecutionTrace::from_columns(columns);
        trace.unwrap()
    }

    /// The public input of a Fibonacci proof: the value in the last row of the second column.
    pub fn get_pub_inputs(&self, trace: &ExecutionTrace) -> (r: u64)
        requires
            trace@.len() >= 2,
        ensures
            r == pub_inputs_of(trace@),
    {
        let length: usize = trace.length();
        let last_step: usize = length - 1;
        trace.get(1, last_step)
    }
}

/// The Fibonacci example: a sequence length, the proof parameters, and the expected last
/// term of the sequence.
pub struct FibExample {
    options: ProofParams,
    sequence_length: usize,
    pub result: u64,
}

impl FibExample {
    /// The proof parameters of this example.
    pub closed spec fn spec_options(&self) -> ProofParams {
        self.options
    }

    /// The expected last term of the sequence.
    pub closed spec fn spec_result(&self) -> u64 {
        self.result
    }

    /// The sequence length of this example.
    pub closed spec fn spec_sequence_length(&self) -> usize {
        self.sequence_length
    }

    /// An example for a sequence of the given length, whose result is the last term of the
    /// sequence.
    pub fn new(sequence_length: usize, options: ProofParams) -> (r: FibExample)
        requires
            is_power_of_two(sequence_length as nat),
        ensures
            r.spec_result() as nat == fib_mod(sequence_length as nat),
            r.spec_sequence_length() == sequence_length,
            r.spec_options() == options,
    {
        let result: u64 = compute_fib_term(sequence_length);
        FibExample { options, sequence_length, result }
    }

    /// The proof parameters of this example.
    pub fn options(&self) -> (r: &ProofParams)
        ensures
            *r == self.spec_options(),
    {
        &self.options
    }

    /// The expected last term of the sequence.
    pub fn result(&self) -> (r: u64)
        ensures
            r == self.spec_result(),
    {
        self.result
    }

    /// The sequence length of this example.
    pub fn sequence_length(&self) -> (r: usize)
        ensures
            r == self.spec_sequence_length(),
    {
        self.sequence_length
    }
}

/// The first row of the Fibonacci trace holds two ones.
pub proof fn lemma_fib_trace_boundary(len: nat)
    requires
        len >= 1,
    ensures
        fib_trace(len)[0][0] == 1,
        fib_trace(len)[1][0] == 1,
{
    lemma_fib_mod_start();
}

/// Consecutive rows of the Fibonacci trace obey the transition constraints
/// `next[0] = current[0] + current[1]` and `next[1] = current[1] + next[0]` in the field.
pub proof fn lemma_fib_trace_transition(len: nat, i: int)
    requires
        0 <= i < len - 1,
    ensures
        fib_trace(len)[0][i + 1] as nat == felt_add_spec(
            fib_trace(len)[0][i] as nat,
            fib_trace(len)[1][i] as nat,
        ),
        fib_trace(len)[1][i + 1] as nat == felt_add_spec(
            fib_trace(len)[1][i] as nat,
            fib_trace(len)[0][i + 1] as nat,
        ),
{
    lemma_fib_mod_is_felt((2 * i + 1) as nat);
    lemma_fib_mod_is_felt((2 * i + 2) as nat);
    lemma_fib_mod_is_felt((2 * i + 3) as nat);
    lemma_fib_mod_is_felt((2 * i + 4) as nat);
    assert(fib_mod((2 * i + 3) as nat) == felt_add_spec(
        fib_mod((2 * i + 2) as nat),
        fib_mod((2 * i + 1) as nat),
    ));
    assert(fib_mod((2 * i + 4) as nat) == felt_add_spec(
        fib_mod((2 * i + 3) as nat),
        fib_mod((2 * i + 2) as nat),
    ));
}

/// The public input that the prover reads from the trace of a sequence of length `n`
/// is the example's result, the `n`-th term of the sequence.
pub proof fn lemma_pub_inputs_match_result(n: nat)
    requires
        is_power_of_two(n),
        n >= 2,
    ensures
        fib_trace(n / 2)[1][n / 2 - 1] as nat == fib_mod(n),
{
    lemma_power_of_two_half(n);
    lemma_fib_mod_is_felt(n);
    assert(2 * (n / 2 - 1) + 1 + 1 == n);
}

/// The trace a prover builds depends on the sequence length alone, never on the prover's
/// proof parameters.
pub proof fn lemma_trace_independent_of_options(p1: FibProver, p2: FibProver, sequence_length: nat)
    ensures
        p1.spec_build_trace(sequence_length) == p2.spec_build_trace(sequence_length),
{
}

/// The public input that a prover reads from the trace it built for a sequence of length `n`
/// is the `n`-th term of the sequence, which is the result of the example for `n` and the
/// value of `compute_fib_term(n)`, whatever the proof parameters of the prover and of the
/// example.
pub proof fn lemma_prover_pub_inputs_match_example(
    prover: FibProver,
    example: FibExample,
    n: nat,
)
    requires
        is_power_of_two(n),
        n >= 2,
        example.spec_result() as nat == fib_mod(n),
    ensures
        pub_inputs_of(prover.spec_build_trace(n)) == example.spec_result(),
        pub_inputs_of(prover.spec_build_trace(n)) as nat == fib_mod(n),
{
    lemma_pub_inputs_match_result(n);
    lemma_power_of_two_half(n);
}

/// The trace a prover builds for a sequence of length `n` has two columns of `n / 2` field
/// elements; its first row is (1, 1); and every pair of consecutive rows satisfies the
/// transition constraints `next[0] = cur[0] + cur[1]` and `next[1] = cur[1] + next[0]` modulo
/// the field modulus.
pub proof fn lemma_built_trace_constraints(prover: FibProver, n: nat)
    requires
        is_power_of_two(n),
        n >= 16,
    ensures
        prover.spec_build_trace(n).len() == 2,
        prover.spec_build_trace(n)[0].len() == n / 2,
        prover.spec_build_trace(n)[1].len() == n / 2,
        prover.spec_build_trace(n)[0][0] == 1,
        prover.spec_build_trace(n)[1][0] == 1,
        forall|c: int, i: int|
            0 <= c < 2 && 0 <= i < n / 2 ==> #[trigger] prover.spec_build_trace(n)[c][i]
                < 0xFFFF_FFFF_0000_0001u64,
        forall|i: int|
            0 <= i < n / 2 - 1 ==> (#[trigger] prover.spec_build_trace(n)[0][i + 1]) as nat == (
            prover.spec_build_trace(n)[0][i] as nat + prover.spec_build_trace(n)[1][i] as nat)
                % (0xFFFF_FFFF_0000_0001u64 as nat),
        forall|i: int|
            0 <= i < n / 2 - 1 ==> (#[trigger] prover.spec_build_trace(n)[1][i + 1]) as nat == (
            prover.spec_build_trace(n)[1][i] as nat + prover.spec_build_trace(n)[0][i + 1] as nat)
                % (0xFFFF_FFFF_0000_0001u64 as nat),
{
    let len: nat = n / 2;
    let t = prover.spec_build_trace(n);
    assert(t == fib_trace(len));
    lemma_fib_trace_boundary(len);
    assert forall|c: int, i: int| 0 <= c < 2 && 0 <= i < len implies #[trigger] t[c][i]
        < 0xFFFF_FFFF_0000_0001u64 by {
        lemma_fib_mod_is_felt((2 * i + c + 1) as nat);
    }
    assert forall|i: int| 0 <= i < len - 1 implies (#[trigger] t[0][i + 1]) as nat == (t[0][i] as nat
        + t[1][i] as nat) % (0xFFFF_FFFF_0000_0001u64 as nat) by {
        lemma_fib_trace_transition(len, i);
    }
    assert forall|i: int| 0 <= i < len - 1 implies (#[trigger] t[1][i + 1]) as nat == (t[1][i] as nat
        + t[0][i + 1] as nat) % (0xFFFF_FFFF_0000_0001u64 as nat) by {
        lemma_fib_trace_transition(len, i);
    }
}

} // verus!
