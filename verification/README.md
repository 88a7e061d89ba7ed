# stwo_p256

ECDSA over P-256 and the bookkeeping of a STARK proof of it, verified with Verus.

- `src/words.rs`, `types.rs`, `limbs.rs`, `field_ops.rs`, `fp_solinas.rs`:
  256-bit integers in words, bytes and limbs, and arithmetic modulo a number.
- `src/curve.rs`, `ecdsa.rs`: the curve group and the native signature verifier.
- `src/group_law.rs`, `cubic/`, `collinear.rs`, `associativity.rs`,
  `multiples/`: the points of the curve form a commutative group of prime order
  `n`, generated by the generator.
- `src/primes/`: the two moduli of the curve and the modulus of the proof
  system's base field are prime, so every nonzero residue has an inverse.
- `src/public_inputs.rs`, `public_key_check.rs`: the public statements of a
  proof and the check that their keys lie on the curve.
- `src/fields.rs`, `transcript.rs`: the field of the proof system and its
  Fiat-Shamir transcript.
- `src/range_checks/`: range tables, their columns and their lookup sums.
- `src/pipeline/`: claims, relations, columns, balances, and the gates of the
  prover and of the verifier.
- `app/`: constraint evaluators, serialised claims, and the proving and
  verifying loops around `stwo`.

Contracts speak of integers, sequences and field elements. The functions of
outside crates are reached through wrappers marked `external_body`; each says in
its doc comment what it takes from the outside function. Properties that relate
several functions are public proof functions whose names begin with `law_`.
