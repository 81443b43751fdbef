//! Verified building blocks of a STARK-in-zkVM recursion toolkit: arithmetic in the
//! 64-bit Goldilocks field, the Fibonacci example and its execution trace, a SHA-2 based
//! hasher for STARK commitments, public-coin seeding, proof parameters, hex and digest
//! helpers used to check guest journals, and signature checks on hex-encoded inputs.

pub mod field;
pub mod fib;
pub mod options;
pub mod trace;
pub mod bytes;
pub mod hasher;
pub mod coin;
pub mod hex_codec;
pub mod digests;
pub mod stack;
pub mod signature;
