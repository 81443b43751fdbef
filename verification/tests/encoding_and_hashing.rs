use sha2::Digest;
use winter_math::fields::f64::BaseElement;
use winter_utils::Serializable;
use zkp_utils::bytes::{push_u64_le, write_felts};
use zkp_utils::coin::init_public_coin_seed;
use zkp_utils::field::MODULUS;
use zkp_utils::hasher::{DefaultSha2, GuestSha2, Sha2_256, ShaHasherT};
use winter_math::fields::QuadExtension;
use winter_math::{FieldElement, StarkField};
use zkp_utils::options::{
    fib_proof_options, get_proof_options, security_bits, FieldExtension, HashFunction,
};

fn sha256(data: &[u8]) -> [u8; 32] {
    sha2::Sha256::digest(data).into()
}

#[test]
fn push_u64_le_matches_to_le_bytes() {
    let mut buf = vec![0xAA];
    push_u64_le(&mut buf, 0x0102_0304_0506_0708);
    assert_eq!(buf, vec![0xAA, 8, 7, 6, 5, 4, 3, 2, 1]);
    for v in [0u64, 1, 255, 256, u64::MAX, MODULUS - 1] {
        let mut b = Vec::new();
        push_u64_le(&mut b, v);
        assert_eq!(b, v.to_le_bytes().to_vec());
    }
}

#[test]
fn write_felts_matches_element_serialization() {
    let values = [0u64, 1, 42, MODULUS - 1];
    let mut ours = vec![9u8];
    write_felts(&mut ours, &values);
    let mut theirs = vec![9u8];
    for v in values {
        BaseElement::new(v).write_into(&mut theirs);
    }
    assert_eq!(ours, theirs);
    assert_eq!(ours.len(), 1 + 8 * values.len());
}

#[test]
fn default_sha2_is_sha256() {
    let expected: [u8; 32] = [
        0xba, 0x78, 0x16, 0xbf, 0x8f, 0x01, 0xcf, 0xea, 0x41, 0x41, 0x40, 0xde, 0x5d, 0xae, 0x22,
        0x23, 0xb0, 0x03, 0x61, 0xa3, 0x96, 0x17, 0x7a, 0x9c, 0xb4, 0x10, 0xff, 0x61, 0xf2, 0x00,
        0x15, 0xad,
    ];
    assert_eq!(DefaultSha2::digest(b"abc"), expected);
    assert_eq!(Sha2_256::<DefaultSha2>::hash(b"abc"), expected);
}

#[test]
fn merge_hashes_both_digests() {
    let a = sha256(b"left");
    let b = sha256(b"right");
    let mut joined = a.to_vec();
    joined.extend_from_slice(&b);
    assert_eq!(Sha2_256::<DefaultSha2>::merge(&[a, b]), sha256(&joined));
    assert_ne!(Sha2_256::<DefaultSha2>::merge(&[a, b]), Sha2_256::<DefaultSha2>::merge(&[b, a]));
}

#[test]
fn merge_with_int_appends_little_endian_value() {
    let seed = sha256(b"seed");
    let mut data = seed.to_vec();
    data.extend_from_slice(&7u64.to_le_bytes());
    assert_eq!(Sha2_256::<DefaultSha2>::merge_with_int(seed, 7), sha256(&data));
    assert_ne!(
        Sha2_256::<DefaultSha2>::merge_with_int(seed, 7),
        Sha2_256::<DefaultSha2>::merge_with_int(seed, 8)
    );
}

#[test]
fn hash_elements_hashes_canonical_serialization() {
    let elements = [1u64, 2, MODULUS - 1];
    let mut data = Vec::new();
    for e in elements {
        BaseElement::new(e).write_into(&mut data);
    }
    assert_eq!(Sha2_256::<DefaultSha2>::hash_elements(&elements), sha256(&data));
    assert_eq!(Sha2_256::<DefaultSha2>::hash_elements(&[]), sha256(&[]));
}

#[test]
fn public_coin_seed_is_result_then_context() {
    let mut seed = Vec::new();
    init_public_coin_seed(&mut seed, 987, &[1, 2, 3]);
    assert_eq!(seed, vec![0xdb, 0x03, 0, 0, 0, 0, 0, 0, 1, 2, 3]);
    let mut expected = Vec::new();
    BaseElement::new(987).write_into(&mut expected);
    expected.extend_from_slice(&[1, 2, 3]);
    assert_eq!(seed, expected);
    let mut prefixed = vec![5u8];
    init_public_coin_seed(&mut prefixed, MODULUS - 1, &[]);
    assert_eq!(prefixed.len(), 9);
    assert_eq!(&prefixed[1..], &(MODULUS - 1).to_le_bytes());
}

#[test]
fn runner_proof_options() {
    let options = get_proof_options(20);
    assert_eq!(options.num_queries, 20);
    assert_eq!(options.blowup_factor, 8);
    assert_eq!(options.grinding_factor, 20);
    assert_eq!(options.hash_fn, HashFunction::Sha2_256);
    assert_eq!(options.field_extension, FieldExtension::Quadratic);
    assert_eq!(options.fri_folding_factor, 8);
    assert_eq!(options.fri_max_remainder_size, 256);
    assert_eq!(get_proof_options(128).num_queries, 128);
    assert_eq!(get_proof_options(1).num_queries, 1);
}

#[test]
fn runner_security_bits() {
    assert_eq!(security_bits(20), 79);
    assert_eq!(security_bits(0), 19);
    assert_eq!(security_bits(128), 403);
}

#[test]
fn fib_winter_proof_options() {
    let options = fib_proof_options();
    assert_eq!(options.num_queries, 27);
    assert_eq!(options.blowup_factor, 8);
    assert_eq!(options.grinding_factor, 16);
    assert_eq!(options.hash_fn, HashFunction::Sha2_256);
    assert_eq!(options.field_extension, FieldExtension::BaseField);
    assert_eq!(options.fri_folding_factor, 8);
    assert_eq!(options.fri_max_remainder_size, 256);
}

#[test]
fn guest_sha2_is_sha256() {
    assert_eq!(GuestSha2::digest(b"abc"), DefaultSha2::digest(b"abc"));
    assert_eq!(GuestSha2::digest(b""), sha256(b""));
    assert_eq!(Sha2_256::<GuestSha2>::merge_with_int(sha256(b"x"), 3), Sha2_256::<DefaultSha2>::merge_with_int(sha256(b"x"), 3));
}

#[test]
fn hash_extension_elements_hashes_coordinate_serialization() {
    let elements = [
        QuadExtension::new(BaseElement::new(1), BaseElement::new(2)),
        QuadExtension::new(BaseElement::new(MODULUS - 1), BaseElement::new(7)),
    ];
    let mut data = Vec::new();
    for e in &elements {
        e.write_into(&mut data);
    }
    let coordinates: Vec<Vec<u64>> = elements
        .iter()
        .map(|e| {
            <QuadExtension<BaseElement> as FieldElement>::as_base_elements(core::slice::from_ref(e))
                .iter()
                .map(|c| c.as_int())
                .collect()
        })
        .collect();
    assert_eq!(coordinates, vec![vec![1, 2], vec![MODULUS - 1, 7]]);
    assert_eq!(Sha2_256::<DefaultSha2>::hash_extension_elements(&coordinates), sha256(&data));
    assert_eq!(
        Sha2_256::<DefaultSha2>::hash_extension_elements(&[vec![1], vec![2], vec![MODULUS - 1]]),
        Sha2_256::<DefaultSha2>::hash_elements(&[1, 2, MODULUS - 1])
    );
    assert_eq!(Sha2_256::<DefaultSha2>::hash_extension_elements(&[]), sha256(&[]));
}
