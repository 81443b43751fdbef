# zkp_utils

Verified building blocks of a runner that proves a computation with a STARK prover and then
proves, inside a zkVM, that the STARK proof verifies.

- `src/` is the library, verified with Verus:
  - `field`: Goldilocks field elements held as canonical `u64` values.
  - `fib`: the Fibonacci example, its two-column execution trace and the prover's public input.
  - `trace`: execution traces with the shape the STARK prover accepts.
  - `options`: STARK proof parameters and the parameter sets of the runner.
  - `bytes`: little-endian encodings of integers and field elements.
  - `hasher`: the SHA-2 based STARK hasher over a pluggable SHA-256 implementation.
  - `coin`: the seed of the verifier's public coin.
  - `hex_codec`, `digests`: hex encodings and the journal checks of the SHA guests.
  - `stack`: field elements for the stack inputs and outputs of a VM proof, and the check of
    the field-multiplication guest.
  - `signature`: hex-encoded ECDSA/secp256k1 signature requests and checks.
- `tests/` runs the library against the outside crates it stands beside.
- `app/` is the host runner: command line, proving with the STARK prover and the zkVM.
