//! A SHA-2 based hasher for STARK commitments. The SHA-256 computation is supplied by an
//! implementation of [`ShaHasherT`]; the ones here use the `sha2` crate.

use vstd::prelude::*;
use core::marker::PhantomData;
use sha2::Digest;
use crate::bytes::{felts_le_bytes, push_u64_le, u64_le_bytes, write_felts};
use crate::trace::columns_view;
use crate::field::is_felt;

verus! {

/// The coordinates of field-extension elements (each element a sequence of base-field
/// coordinates, in order), one element after another.
pub open spec fn flatten_coordinates(elements: Seq<Seq<u64>>) -> Seq<u64>
    decreases elements.len(),
{
    if elements.len() == 0 {
        Seq::empty()
    } else {
        flatten_coordinates(elements.drop_last()) + elements.last()
    }
}

/// The number of coordinates in a list of field-extension elements: the sum of their lengths.
pub open spec fn coordinate_count(elements: Seq<Seq<u64>>) -> nat
    decreases elements.len(),
{
    if elements.len() == 0 {
        0
    } else {
        coordinate_count(elements.drop_last()) + elements.last().len()
    }
}

/// Flattening no elements gives no coordinates, and flattening one more element appends all
/// of that element's coordinates, in order, none dropped or changed.
pub proof fn lemma_flatten_coordinates_push(elements: Seq<Seq<u64>>, e: Seq<u64>)
    ensures
        flatten_coordinates(Seq::empty()) == Seq::<u64>::empty(),
        flatten_coordinates(elements.push(e)) == flatten_coordinates(elements) + e,
{
    assert(elements.push(e).drop_last() =~= elements);
}

/// The flattened coordinates are as many as the elements' coordinates together.
pub proof fn lemma_flatten_coordinates_len(elements: Seq<Seq<u64>>)
    ensures
        flatten_coordinates(elements).len() == coordinate_count(elements),
    decreases elements.len(),
{
    if elements.len() > 0 {
        lemma_flatten_coordinates_len(elements.drop_last());
    }
}

/// The first `k` elements have no more coordinates than all of them.
proof fn lemma_coordinate_count_prefix(elements: Seq<Seq<u64>>, k: int)
    requires
        0 <= k <= elements.len(),
    ensures
        coordinate_count(elements.take(k)) <= coordinate_count(elements),
    decreases elements.len(),
{
    if k < elements.len() {
        let init = elements.drop_last();
        assert(elements.take(k) =~= init.take(k));
        lemma_coordinate_count_prefix(init, k);
    } else {
        assert(elements.take(k) =~= elements);
    }
}

/// Coordinate `j` of element `i` stands in the flattened coordinates right after the
/// coordinates of the elements before `i`.
pub proof fn lemma_flatten_coordinates_index(elements: Seq<Seq<u64>>, i: int, j: int)
    requires
        0 <= i < elements.len(),
        0 <= j < elements[i].len(),
    ensures
        coordinate_count(elements.take(i)) + j < flatten_coordinates(elements).len(),
        flatten_coordinates(elements)[coordinate_count(elements.take(i)) + j] == elements[i][j],
    decreases elements.len(),
{
    let init = elements.drop_last();
    lemma_flatten_coordinates_len(init);
    lemma_flatten_coordinates_len(elements);
    if i == elements.len() - 1 {
        assert(elements.take(i) =~= init);
    } else {
        lemma_flatten_coordinates_index(init, i, j);
        assert(elements.take(i) =~= init.take(i));
        assert(init.take(i + 1).drop_last() =~= init.take(i));
        lemma_coordinate_count_prefix(init, i + 1);
    }
}

/// A SHA-256 implementation: maps a byte string to its 32-byte digest.
pub trait ShaHasherT {
    /// The digest of `data`.
    spec fn spec_digest(data: Seq<u8>) -> Seq<u8>;

    /// Computes the digest of `data`.
    fn digest(data: &[u8]) -> (r: [u8; 32])
        ensures
            r@ == Self::spec_digest(data@),
    ;
}

/// SHA-256 of a byte string, as the `sha2` crate computes it.
pub uninterp spec fn sha256_spec(data: Seq<u8>) -> Seq<u8>;

/// Calls `sha2::Sha256::digest` and returns the 32 bytes of the digest. SHA-256 is a function
/// of its input alone; its value is named `sha256_spec`.
#[verifier::external_body]
fn sha256_digest(data: &[u8]) -> (r: [u8; 32])
    ensures
        r@ == sha256_spec(data@),
{
    sha2::Sha256::digest(data).into()
}

/// SHA-256 computed on the host with the `sha2` crate.
pub struct DefaultSha2;

impl ShaHasherT for DefaultSha2 {
    open spec fn spec_digest(data: Seq<u8>) -> Seq<u8> {
        sha256_spec(data)
    }

    fn digest(data: &[u8]) -> (r: [u8; 32]) {
        sha256_digest(data)
    }
}

/// SHA-256 for use inside a zkVM guest program, computed in software with the `sha2` crate,
/// which builds for the guest. The zkVM's SHA accelerator is not called here: that call does
/// not return outside a guest, so a guest program that wants it supplies its own
/// [`ShaHasherT`] implementation around it.
pub struct GuestSha2;

impl ShaHasherT for GuestSha2 {
    open spec fn spec_digest(data: Seq<u8>) -> Seq<u8> {
        sha256_spec(data)
    }

    fn digest(data: &[u8]) -> (r: [u8; 32]) {
        sha256_digest(data)
    }
}

/// The STARK hasher built on a SHA-256 implementation `H`; digests are 32 bytes.
pub struct Sha2_256<H: ShaHasherT> {
    hasher: PhantomData<H>,
}

impl<H: ShaHasherT> Sha2_256<H> {
    /// Hash of a byte string.
    pub fn hash(bytes: &[u8]) -> (r: [u8; 32])
        ensures
            r@ == H::spec_digest(bytes@),
    {
        H::digest(bytes)
    }

    /// Hash of two digests: the hash of their 64 concatenated bytes (for Merkle trees).
    pub fn merge(values: &[[u8; 32]; 2]) -> (r: [u8; 32])
        ensures
            r@ == H::spec_digest(values@[0]@ + values@[1]@),
    {
        let mut data: Vec<u8> = Vec::new();
        let mut v: usize = 0;
        while v < 2
            invariant
                v <= 2,
                data@ == if v == 0 {
                    Seq::<u8>::empty()
                } else if v == 1 {
                    values@[0]@
                } else {
                    values@[0]@ + values@[1]@
                },
            decreases 2 - v,
        {
            let digest: &[u8; 32] = &values[v];
            let ghost start = data@;
            let mut i: usize = 0;
            while i < 32
                invariant
                    i <= 32,
                    data@ == start + digest@.take(i as int),
                decreases 32 - i,
            {
                data.push(digest[i]);
                assert(digest@.take((i + 1) as int) =~= digest@.take(i as int).push(digest@[i as int]));
                i = i + 1;
            }
            assert(digest@.take(32) =~= digest@);
            v = v + 1;
        }
        H::digest(data.as_slice())
    }

    /// Hash of a digest followed by the eight little-endian bytes of `value` (for random coins
    /// and proof-of-work).
    pub fn merge_with_int(seed: [u8; 32], value: u64) -> (r: [u8; 32])
        ensures
            r@ == H::spec_digest(seed@ + u64_le_bytes(value)),
    {
        let mut data: Vec<u8> = Vec::new();
        let mut i: usize = 0;
        while i < 32
            invariant
                i <= 32,
                data@ == seed@.take(i as int),
            decreases 32 - i,
        {
            data.push(seed[i]);
            assert(seed@.take((i + 1) as int) =~= seed@.take(i as int).push(seed@[i as int]));
            i = i + 1;
        }
        assert(seed@.take(32) =~= seed@);
        push_u64_le(&mut data, value);
        H::digest(data.as_slice())
    }

    /// Hash of field elements: the hash of their serialization, each element's canonical value
    /// as eight little-endian bytes (the elements' internal form differs from the canonical one).
    pub fn hash_elements(elements: &[u64]) -> (r: [u8; 32])
        requires
            forall|i: int| 0 <= i < elements@.len() ==> is_felt(#[trigger] elements@[i]),
        ensures
            r@ == H::spec_digest(felts_le_bytes(elements@)),
    {
        let mut data: Vec<u8> = Vec::new();
        write_felts(&mut data, elements);
        assert(data@ =~= felts_le_bytes(elements@));
        H::digest(data.as_slice())
    }

    /// Hash of elements of an extension of the base field, each given by its base-field
    /// coordinates: the hash of their serialization, which writes every element's coordinates
    /// in order, each as eight little-endian bytes of its canonical value.
    pub fn hash_extension_elements(elements: &[Vec<u64>]) -> (r: [u8; 32])
        requires
            forall|i: int, j: int|
                0 <= i < elements@.len() && 0 <= j < elements@[i]@.len() ==> is_felt(
                    #[trigger] elements@[i]@[j],
                ),
        ensures
            r@ == H::spec_digest(felts_le_bytes(flatten_coordinates(columns_view(elements@)))),
    {
        let ghost es = columns_view(elements@);
        let mut flat: Vec<u64> = Vec::new();
        let mut i: usize = 0;
        while i < elements.len()
            invariant
                es == columns_view(elements@),
                i <= elements@.len(),
                flat@ == flatten_coordinates(es.take(i as int)),
                forall|i: int, j: int|
                    0 <= i < elements@.len() && 0 <= j < elements@[i]@.len() ==> is_felt(
                        #[trigger] elements@[i]@[j],
                    ),
                forall|k: int| 0 <= k < flat@.len() ==> is_felt(#[trigger] flat@[k]),
            decreases elements@.len() - i,
        {
            let element: &Vec<u64> = &elements[i];
            let ghost start = flat@;
            let mut j: usize = 0;
            while j < element.len()
                invariant
                    i < elements@.len(),
                    element@ == elements@[i as int]@,
                    j <= element@.len(),
                    flat@ == start + element@.take(j as int),
                    forall|i: int, j: int|
                        0 <= i < elements@.len() && 0 <= j < elements@[i]@.len() ==> is_felt(
                            #[trigger] elements@[i]@[j],
                        ),
                    forall|k: int| 0 <= k < start.len() ==> is_felt(#[trigger] start[k]),
                    forall|k: int| 0 <= k < flat@.len() ==> is_felt(#[trigger] flat@[k]),
                decreases element@.len() - j,
            {
                flat.push(element[j]);
                assert(element@.take((j + 1) as int) =~= element@.take(j as int).push(
                    element@[j as int],
                ));
                j = j + 1;
            }
            assert(element@.take(j as int) =~= element@);
            assert(es.take((i + 1) as int).drop_last() =~= es.take(i as int));
            i = i + 1;
        }
        assert(es.take(i as int) =~= es);
        Self::hash_elements(flat.as_slice())
    }
}

} // verus!
