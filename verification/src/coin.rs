//! The seed of the verifier's public coin.

use vstd::prelude::*;
use crate::bytes::{push_u64_le, u64_le_bytes};
use crate::field::is_felt;

verus! {

/// Appends the public input of a proof (a field element, serialized as its canonical value in
/// eight little-endian bytes) and then the serialized proof context to the public-coin seed.
pub fn init_public_coin_seed(public_coin_seed: &mut Vec<u8>, result: u64, context: &[u8])
    requires
        is_felt(result),
    ensures
        final(public_coin_seed)@ == old(public_coin_seed)@ + u64_le_bytes(result) + context@,
{
    push_u64_le(public_coin_seed, result);
    let ghost start = public_coin_seed@;
    let mut i: usize = 0;
    while i < context.len()
        invariant
            i <= context@.len(),
            public_coin_seed@ == start + context@.take(i as int),
        decreases context@.len() - i,
    {
        public_coin_seed.push(context[i]);
        assert(context@.take((i + 1) as int) =~= context@.take(i as int).push(context@[i as int]));
        i = i + 1;
    }
    assert(context@.take(i as int) =~= context@);
}

} // verus!
