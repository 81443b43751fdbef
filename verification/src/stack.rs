//! Field elements for the public inputs of a VM proof (the stack at the start and at the end
//! of a run), and the host's check of the field-multiplication guest.

use vstd::prelude::*;
use crate::field::{felt_from_u64, felt_mul, felt_mul_spec, modulus};

verus! {

/// The field elements for a stack given as integers, each reduced modulo p, in the given
/// order.
pub open spec fn felts_of(values: Seq<u64>) -> Seq<u64> {
    values.map_values(|v: u64| (v as nat % modulus()) as u64)
}

/// Converts integers into field elements, in the same order.
fn to_felts(values: &[u64]) -> (r: Vec<u64>)
    ensures
        r@ == felts_of(values@),
{
    let mut out: Vec<u64> = Vec::new();
    let mut i: usize = 0;
    while i < values.len()
        invariant
            i <= values@.len(),
            out@ == felts_of(values@.take(i as int)),
        decreases values@.len() - i,
    {
        let felt: u64 = felt_from_u64(values[i]);
        out.push(felt);
        i = i + 1;
        assert(out@ =~= felts_of(values@.take(i as int)));
    }
    assert(values@.take(i as int) =~= values@);
    out
}

/// The initial stack of a run: the program inputs in reverse order (the last input ends on
/// top of the stack), each as a field element.
pub fn stack_inputs_to_felts(inputs: &Vec<u64>) -> (r: Vec<u64>)
    ensures
        r@ == felts_of(inputs@.reverse()),
{
    let mut reversed: Vec<u64> = Vec::new();
    let mut i: usize = inputs.len();
    while i > 0
        invariant
            i <= inputs@.len(),
            reversed@ == inputs@.skip(i as int).reverse(),
        decreases i,
    {
        i = i - 1;
        reversed.push(inputs[i]);
        assert(reversed@ =~= inputs@.skip(i as int).reverse());
    }
    assert(inputs@.skip(0) =~= inputs@);
    to_felts(reversed.as_slice())
}

/// The final stack of a run: the program outputs in order, each as a field element.
pub fn stack_outputs_to_felts(outputs: &Vec<u64>) -> (r: Vec<u64>)
    ensures
        r@ == felts_of(outputs@),
{
    to_felts(outputs.as_slice())
}

/// The host's check of the multiplication guest: the committed `result`, taken as a field
/// element, equals the field product of `a` and `b`.
pub fn product_matches(a: u64, b: u64, result: u64) -> (r: bool)
    ensures
        r == (result as nat % modulus() == felt_mul_spec(a as nat % modulus(), b as nat % modulus())),
{
    let fa: u64 = felt_from_u64(a);
    let fb: u64 = felt_from_u64(b);
    let product: u64 = felt_mul(fa, fb);
    let committed: u64 = felt_from_u64(result);
    committed == product
}

/// The field product of the reductions is the reduction of the integer product.
pub proof fn lemma_product_of_reductions(a: nat, b: nat)
    ensures
        felt_mul_spec(a % modulus(), b % modulus()) == (a * b) % modulus(),
{
    vstd::arithmetic::div_mod::lemma_mul_mod_noop(a as int, b as int, modulus() as int);
}

} // verus!
