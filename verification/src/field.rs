//! Elements of the Goldilocks field (modulus 2^64 - 2^32 + 1), held as their canonical
//! `u64` values.

use vstd::prelude::*;

verus! {

/// The field modulus, 2^64 - 2^32 + 1.
pub const MODULUS: u64 = 0xFFFF_FFFF_0000_0001u64;

/// The field modulus as a mathematical integer.
pub open spec fn modulus() -> nat {
    MODULUS as nat
}

/// A `u64` is a canonical field element when it is below the modulus.
pub open spec fn is_felt(v: u64) -> bool {
    v < MODULUS
}

/// Field addition on canonical values.
pub open spec fn felt_add_spec(a: nat, b: nat) -> nat {
    (a + b) % modulus()
}

/// Field multiplication on canonical values.
pub open spec fn felt_mul_spec(a: nat, b: nat) -> nat {
    (a * b) % modulus()
}

/// A value below twice the modulus is reduced by at most one subtraction.
proof fn lemma_reduce_once(x: int)
    requires
        0 <= x < 2 * modulus(),
    ensures
        x % (modulus() as int) == if x >= modulus() { x - modulus() } else { x },
{
    let m: int = modulus() as int;
    if x >= m {
        vstd::arithmetic::div_mod::lemma_mod_sub_multiples_vanish(x, m);
        vstd::arithmetic::div_mod::lemma_small_mod((x - m) as nat, m as nat);
    } else {
        vstd::arithmetic::div_mod::lemma_small_mod(x as nat, m as nat);
    }
}

/// Converts an integer into a field element, reducing it modulo the field modulus.
pub fn felt_from_u64(value: u64) -> (r: u64)
    ensures
        r as nat == value as nat % modulus(),
        is_felt(r),
{
    proof {
        lemma_reduce_once(value as int);
    }
    if value >= MODULUS {
        value - MODULUS
    } else {
        value
    }
}

/// Adds two field elements.
pub fn felt_add(a: u64, b: u64) -> (r: u64)
    requires
        is_felt(a),
        is_felt(b),
    ensures
        r as nat == felt_add_spec(a as nat, b as nat),
        is_felt(r),
{
    proof {
        lemma_reduce_once(a + b);
    }
    let gap: u64 = MODULUS - b;
    if a >= gap {
        a - gap
    } else {
        a + b
    }
}

/// Multiplies two field elements.
pub fn felt_mul(a: u64, b: u64) -> (r: u64)
    requires
        is_felt(a),
        is_felt(b),
    ensures
        r as nat == felt_mul_spec(a as nat, b as nat),
        is_felt(r),
{
    let wide_a: u128 = a as u128;
    let wide_b: u128 = b as u128;
    assert(wide_a * wide_b <= u64::MAX as int * u64::MAX as int) by (nonlinear_arith)
        requires
            wide_a <= u64::MAX,
            wide_b <= u64::MAX,
    ;
    assert(u64::MAX as int * u64::MAX as int <= u128::MAX) by (nonlinear_arith);
    let product: u128 = wide_a * wide_b;
    let reduced: u128 = product % (MODULUS as u128);
    reduced as u64
}

} // verus!
