//! Little-endian byte encodings of integers and of sequences of field elements, as the STARK
//! libraries serialize them.

use vstd::prelude::*;
use crate::field::is_felt;

verus! {

/// `256^n`.
pub open spec fn pow256(n: nat) -> nat
    decreases n,
{
    if n == 0 {
        1
    } else {
        256 * pow256((n - 1) as nat)
    }
}

/// The `n` low bytes of `v`, least significant first.
pub open spec fn le_bytes(v: nat, n: nat) -> Seq<u8>
    decreases n,
{
    if n == 0 {
        Seq::empty()
    } else {
        seq![(v % 256) as u8] + le_bytes(v / 256, (n - 1) as nat)
    }
}

/// The eight little-endian bytes of a `u64`.
pub open spec fn u64_le_bytes(v: u64) -> Seq<u8> {
    le_bytes(v as nat, 8)
}

/// The integer that little-endian bytes encode.
pub open spec fn le_value(bytes: Seq<u8>) -> nat
    decreases bytes.len(),
{
    if bytes.len() == 0 {
        0
    } else {
        bytes[0] as nat + 256 * le_value(bytes.drop_first())
    }
}

/// The serialization of a sequence of field elements: each element's canonical value as eight
/// little-endian bytes, one after another.
pub open spec fn felts_le_bytes(elements: Seq<u64>) -> Seq<u8>
    decreases elements.len(),
{
    if elements.len() == 0 {
        Seq::empty()
    } else {
        felts_le_bytes(elements.drop_last()) + u64_le_bytes(elements.last())
    }
}

/// `le_bytes(v, n)` has `n` bytes.
pub proof fn lemma_le_bytes_len(v: nat, n: nat)
    ensures
        le_bytes(v, n).len() == n,
    decreases n,
{
    if n > 0 {
        lemma_le_bytes_len(v / 256, (n - 1) as nat);
    }
}

/// Decoding the `n` little-endian bytes of a value below `256^n` gives the value back.
pub proof fn lemma_le_bytes_roundtrip(v: nat, n: nat)
    requires
        v < pow256(n),
    ensures
        le_value(le_bytes(v, n)) == v,
    decreases n,
{
    if n > 0 {
        let rest: nat = v / 256;
        assert(rest < pow256((n - 1) as nat)) by (nonlinear_arith)
            requires
                v < 256 * pow256((n - 1) as nat),
                rest == v / 256,
        ;
        lemma_le_bytes_roundtrip(rest, (n - 1) as nat);
        let bytes = le_bytes(v, n);
        assert(bytes.drop_first() =~= le_bytes(rest, (n - 1) as nat));
        assert(v == v % 256 + 256 * rest) by (nonlinear_arith)
            requires
                rest == v / 256,
        ;
    }
}

/// The little-endian encoding of a `u64` determines it.
pub proof fn lemma_u64_le_bytes_injective(a: u64, b: u64)
    requires
        u64_le_bytes(a) == u64_le_bytes(b),
    ensures
        a == b,
{
    reveal_with_fuel(pow256, 9);
    assert(pow256(8) == 0x1_0000_0000_0000_0000);
    lemma_le_bytes_roundtrip(a as nat, 8);
    lemma_le_bytes_roundtrip(b as nat, 8);
}

/// The eight little-endian bytes of a `u64`: byte `k` is `(v / 256^k) mod 256`, and the
/// bytes, read back least significant first, give `v`.
pub proof fn lemma_u64_le_bytes_digits(v: u64)
    ensures
        u64_le_bytes(v).len() == 8,
        u64_le_bytes(v)[0] as nat == v as nat % 256,
        u64_le_bytes(v)[1] as nat == (v as nat / 0x100) % 256,
        u64_le_bytes(v)[2] as nat == (v as nat / 0x1_0000) % 256,
        u64_le_bytes(v)[3] as nat == (v as nat / 0x100_0000) % 256,
        u64_le_bytes(v)[4] as nat == (v as nat / 0x1_0000_0000) % 256,
        u64_le_bytes(v)[5] as nat == (v as nat / 0x100_0000_0000) % 256,
        u64_le_bytes(v)[6] as nat == (v as nat / 0x1_0000_0000_0000) % 256,
        u64_le_bytes(v)[7] as nat == (v as nat / 0x100_0000_0000_0000) % 256,
        le_value(u64_le_bytes(v)) == v,
{
    reveal_with_fuel(le_bytes, 9);
    lemma_le_bytes_len(v as nat, 8);
    reveal_with_fuel(pow256, 9);
    lemma_le_bytes_roundtrip(v as nat, 8);
    let x: nat = v as nat;
    assert(x / 256 / 256 == x / 0x1_0000) by {
        vstd::arithmetic::div_mod::lemma_div_denominator(x as int, 256, 256);
    }
    assert(x / 0x1_0000 / 256 == x / 0x100_0000) by {
        vstd::arithmetic::div_mod::lemma_div_denominator(x as int, 0x1_0000, 256);
    }
    assert(x / 0x100_0000 / 256 == x / 0x1_0000_0000) by {
        vstd::arithmetic::div_mod::lemma_div_denominator(x as int, 0x100_0000, 256);
    }
    assert(x / 0x1_0000_0000 / 256 == x / 0x100_0000_0000) by {
        vstd::arithmetic::div_mod::lemma_div_denominator(x as int, 0x1_0000_0000, 256);
    }
    assert(x / 0x100_0000_0000 / 256 == x / 0x1_0000_0000_0000) by {
        vstd::arithmetic::div_mod::lemma_div_denominator(x as int, 0x100_0000_0000, 256);
    }
    assert(x / 0x1_0000_0000_0000 / 256 == x / 0x100_0000_0000_0000) by {
        vstd::arithmetic::div_mod::lemma_div_denominator(x as int, 0x1_0000_0000_0000, 256);
    }
}

/// The serialization of field elements has eight bytes per element, and serializing one more
/// element appends exactly that element's eight little-endian bytes.
pub proof fn lemma_felts_le_bytes_append(elements: Seq<u64>, e: u64)
    ensures
        felts_le_bytes(elements).len() == 8 * elements.len(),
        felts_le_bytes(elements.push(e)) == felts_le_bytes(elements) + u64_le_bytes(e),
    decreases elements.len(),
{
    assert(elements.push(e).drop_last() =~= elements);
    if elements.len() > 0 {
        lemma_felts_le_bytes_append(elements.drop_last(), elements.last());
        assert(elements.drop_last().push(elements.last()) =~= elements);
    }
    lemma_le_bytes_len(e as nat, 8);
    if elements.len() > 0 {
        lemma_le_bytes_len(elements.last() as nat, 8);
    }
}

/// Bytes `8i .. 8i + 8` of the serialization of field elements are the little-endian bytes of
/// element `i`.
pub proof fn lemma_felts_le_bytes_index(elements: Seq<u64>, i: int)
    requires
        0 <= i < elements.len(),
    ensures
        felts_le_bytes(elements).subrange(8 * i, 8 * i + 8) == u64_le_bytes(elements[i]),
    decreases elements.len(),
{
    let init = elements.drop_last();
    let last = elements.last();
    lemma_felts_le_bytes_append(init, last);
    lemma_le_bytes_len(last as nat, 8);
    assert(init.push(last) =~= elements);
    let whole = felts_le_bytes(elements);
    let front = felts_le_bytes(init);
    assert(whole == front + u64_le_bytes(last));
    assert(front.len() == 8 * init.len());
    if i == elements.len() - 1 {
        assert(whole.subrange(8 * i, 8 * i + 8) =~= u64_le_bytes(elements[i]));
    } else {
        lemma_felts_le_bytes_index(init, i);
        assert(8 * i + 8 <= 8 * init.len());
        assert(whole.subrange(8 * i, 8 * i + 8) =~= front.subrange(8 * i, 8 * i + 8));
    }
}

/// Appends the eight little-endian bytes of `value` to `buf`.
pub fn push_u64_le(buf: &mut Vec<u8>, value: u64)
    ensures
        final(buf)@ == old(buf)@ + u64_le_bytes(value),
{
    let ghost start = buf@;
    let mut rest: u64 = value;
    let mut i: usize = 0;
    while i < 8
        invariant
            i <= 8,
            buf@ + le_bytes(rest as nat, (8 - i) as nat) == start + le_bytes(value as nat, 8),
        decreases 8 - i,
    {
        let byte: u8 = (rest % 256) as u8;
        let ghost before = buf@;
        buf.push(byte);
        assert(le_bytes(rest as nat, (8 - i) as nat) == seq![byte] + le_bytes(
            (rest / 256) as nat,
            (8 - i - 1) as nat,
        ));
        assert(buf@ + le_bytes((rest / 256) as nat, (8 - i - 1) as nat) =~= before + le_bytes(
            rest as nat,
            (8 - i) as nat,
        ));
        rest = rest / 256;
        i = i + 1;
    }
    assert(buf@ =~= start + le_bytes(value as nat, 8));
}

/// Serializes field elements into `target`: each element's canonical value as eight
/// little-endian bytes.
pub fn write_felts(target: &mut Vec<u8>, elements: &[u64])
    requires
        forall|i: int| 0 <= i < elements@.len() ==> is_felt(#[trigger] elements@[i]),
    ensures
        final(target)@ == old(target)@ + felts_le_bytes(elements@),
{
    let ghost start = target@;
    let mut i: usize = 0;
    while i < elements.len()
        invariant
            i <= elements@.len(),
            target@ == start + felts_le_bytes(elements@.take(i as int)),
        decreases elements@.len() - i,
    {
        push_u64_le(target, elements[i]);
        assert(elements@.take((i + 1) as int).drop_last() =~= elements@.take(i as int));
        i = i + 1;
        assert(target@ =~= start + felts_le_bytes(elements@.take(i as int)));
    }
    assert(elements@.take(i as int) =~= elements@);
}

} // verus!
