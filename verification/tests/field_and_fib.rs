use winter_math::fields::f64::BaseElement;
use winter_math::{FieldElement, StarkField};
use zkp_utils::fib::{compute_fib_term, FibExample, FibProver};
use zkp_utils::field::{felt_add, felt_from_u64, felt_mul, MODULUS};
use zkp_utils::options::fib_proof_options;
use zkp_utils::trace::ExecutionTrace;

#[test]
fn felt_from_u64_reduces() {
    assert_eq!(felt_from_u64(0), 0);
    assert_eq!(felt_from_u64(MODULUS - 1), MODULUS - 1);
    assert_eq!(felt_from_u64(MODULUS), 0);
    assert_eq!(felt_from_u64(MODULUS + 5), 5);
    assert_eq!(felt_from_u64(u64::MAX), 0xFFFF_FFFE);
    for v in [0u64, 1, 7, MODULUS - 1, MODULUS, MODULUS + 1, u64::MAX] {
        assert_eq!(felt_from_u64(v), BaseElement::new(v).as_int());
    }
}

#[test]
fn felt_add_wraps_at_modulus() {
    assert_eq!(felt_add(1, 2), 3);
    assert_eq!(felt_add(MODULUS - 1, 1), 0);
    assert_eq!(felt_add(MODULUS - 1, MODULUS - 1), MODULUS - 2);
    let samples = [0u64, 1, 2, 0xFFFF_FFFF, 0x1234_5678_9ABC_DEF0 % MODULUS, MODULUS - 2, MODULUS - 1];
    for a in samples {
        for b in samples {
            let expected = (BaseElement::new(a) + BaseElement::new(b)).as_int();
            assert_eq!(felt_add(a, b), expected);
        }
    }
}

#[test]
fn felt_mul_matches_field_product() {
    assert_eq!(felt_mul(MODULUS - 1, MODULUS - 1), 1);
    assert_eq!(felt_mul(0, MODULUS - 1), 0);
    assert_eq!(felt_mul(1 << 32, 1 << 32), 0xFFFF_FFFF);
    let samples = [0u64, 1, 3, 0xFFFF_FFFF, 0xFFFF_FFFF_0000_0000, MODULUS - 1];
    for a in samples {
        for b in samples {
            let expected = (BaseElement::new(a) * BaseElement::new(b)).as_int();
            assert_eq!(felt_mul(a, b), expected);
        }
    }
}

fn reference_fib_term(n: usize) -> BaseElement {
    let mut t0 = BaseElement::ONE;
    let mut t1 = BaseElement::ONE;
    for _ in 0..(n - 1) {
        t1 = t0 + t1;
        core::mem::swap(&mut t0, &mut t1);
    }
    t1
}

#[test]
fn compute_fib_term_small_values() {
    assert_eq!(compute_fib_term(1), 1);
    assert_eq!(compute_fib_term(2), 1);
    assert_eq!(compute_fib_term(3), 2);
    assert_eq!(compute_fib_term(10), 55);
    assert_eq!(compute_fib_term(50), 12_586_269_025);
}

#[test]
fn compute_fib_term_matches_field_computation() {
    for n in [1usize, 2, 16, 93, 94, 100, 1024, 4096] {
        assert_eq!(compute_fib_term(n), reference_fib_term(n).as_int());
    }
}

#[test]
fn fib_example_result_is_last_term() {
    let example = FibExample::new(1024, fib_proof_options());
    assert_eq!(example.result, reference_fib_term(1024).as_int());
    assert_eq!(example.result(), example.result);
    assert_eq!(example.sequence_length(), 1024);
    assert_eq!(*example.options(), fib_proof_options());
}

#[test]
fn build_trace_rows_advance_by_two_terms() {
    let prover = FibProver::new(fib_proof_options());
    let trace = prover.build_trace(16);
    assert_eq!(trace.width(), 2);
    assert_eq!(trace.length(), 8);
    let expected = [(1u64, 1u64), (2, 3), (5, 8), (13, 21), (34, 55), (89, 144), (233, 377), (610, 987)];
    for (step, (a, b)) in expected.iter().enumerate() {
        assert_eq!(trace.get(0, step), *a);
        assert_eq!(trace.get(1, step), *b);
    }
}

#[test]
fn build_trace_obeys_transition_constraints() {
    let prover = FibProver::new(fib_proof_options());
    let trace = prover.build_trace(256);
    assert_eq!(trace.get(0, 0), 1);
    assert_eq!(trace.get(1, 0), 1);
    for step in 0..trace.length() - 1 {
        let next0 = trace.get(0, step + 1);
        let next1 = trace.get(1, step + 1);
        assert_eq!(next0, felt_add(trace.get(0, step), trace.get(1, step)));
        assert_eq!(next1, felt_add(trace.get(1, step), next0));
    }
}

#[test]
fn pub_inputs_match_example_result() {
    for n in [16usize, 64, 1024, 8192] {
        let prover = FibProver::new(fib_proof_options());
        let trace = prover.build_trace(n);
        let example = FibExample::new(n, fib_proof_options());
        assert_eq!(prover.get_pub_inputs(&trace), example.result);
    }
}

#[test]
fn prover_keeps_its_options() {
    let prover = FibProver::new(fib_proof_options());
    assert_eq!(*prover.options(), fib_proof_options());
}

#[test]
fn execution_trace_shape_checks() {
    assert!(ExecutionTrace::from_columns(vec![]).is_none());
    assert!(ExecutionTrace::from_columns(vec![vec![0; 4]]).is_none());
    assert!(ExecutionTrace::from_columns(vec![vec![0; 12]]).is_none());
    assert!(ExecutionTrace::from_columns(vec![vec![0; 8], vec![0; 16]]).is_none());
    assert!(ExecutionTrace::from_columns(vec![vec![0, 0, 0, 0, 0, 0, 0, MODULUS]]).is_none());
    assert!(ExecutionTrace::from_columns(vec![vec![0; 8]; 256]).is_none());
    let columns = vec![vec![1, 2, 3, 4, 5, 6, 7, MODULUS - 1], vec![0; 8]];
    let trace = ExecutionTrace::from_columns(columns.clone()).unwrap();
    assert_eq!(trace.width(), 2);
    assert_eq!(trace.length(), 8);
    assert_eq!(trace.get(0, 7), MODULUS - 1);
    assert_eq!(trace.into_columns(), columns);
}

#[test]
fn trace_does_not_depend_on_options() {
    let a = FibProver::new(fib_proof_options());
    let b = FibProver::new(zkp_utils::options::get_proof_options(5));
    assert_eq!(a.build_trace(64).into_columns(), b.build_trace(64).into_columns());
    assert_eq!(a.get_pub_inputs(&a.build_trace(64)), compute_fib_term(64));
}
