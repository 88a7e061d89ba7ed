//! Modular operations on 256-bit integers, with results in limb form.
use crate::limbs::P256M31BigInt;
use crate::types::{bits_value, lemma_bits_push, U256};
use crate::words::{
    lemma_words_range, mod_add, mod_reduce, mod_sub, words_value,
};
use vstd::arithmetic::div_mod::{lemma_add_mod_noop, lemma_small_mod, lemma_sub_mod_noop};
use vstd::prelude::*;

verus! {

/// The outcome of one modular operation.
#[derive(Clone, Copy, Debug)]
pub struct ModOpWitness {
    /// The result, reduced and in limb form.
    pub result: P256M31BigInt,
}

/// `(a + b) mod m`.
pub fn add_mod(a: &U256, b: &U256, m: &U256) -> (r: U256)
    requires
        0 < m.spec_value(),
    ensures
        r.spec_value() == (a.spec_value() + b.spec_value()) % m.spec_value(),
        0 <= r.spec_value() < m.spec_value(),
{
    let mw: [u64; 4] = m.to_le_u64s();
    let ar: [u64; 4] = mod_reduce(&a.to_le_u64s(), &mw);
    let br: [u64; 4] = mod_reduce(&b.to_le_u64s(), &mw);
    let r: [u64; 4] = mod_add(&ar, &br, &mw);
    proof {
        lemma_add_mod_noop(a.spec_value(), b.spec_value(), m.spec_value());
        lemma_words_range(r@);
    }
    U256::from_le_u64s(&r)
}

/// `(a - b) mod m`.
pub fn sub_mod(a: &U256, b: &U256, m: &U256) -> (r: U256)
    requires
        0 < m.spec_value(),
    ensures
        r.spec_value() == (a.spec_value() - b.spec_value()) % m.spec_value(),
        0 <= r.spec_value() < m.spec_value(),
{
    let mw: [u64; 4] = m.to_le_u64s();
    let ar: [u64; 4] = mod_reduce(&a.to_le_u64s(), &mw);
    let br: [u64; 4] = mod_reduce(&b.to_le_u64s(), &mw);
    let r: [u64; 4] = mod_sub(&ar, &br, &mw);
    proof {
        lemma_sub_mod_noop(a.spec_value(), b.spec_value(), m.spec_value());
        lemma_words_range(r@);
    }
    U256::from_le_u64s(&r)
}

/// `(a * b) mod m`, by doubling and adding along the bits of `b`.
pub fn mul_mod(a: &U256, b: &U256, m: &U256) -> (r: U256)
    requires
        0 < m.spec_value(),
    ensures
        r.spec_value() == (a.spec_value() * b.spec_value()) % m.spec_value(),
        0 <= r.spec_value() < m.spec_value(),
{
    let ghost av = a.spec_value();
    let ghost mv = m.spec_value();
    let mw: [u64; 4] = m.to_le_u64s();
    let ar: [u64; 4] = mod_reduce(&a.to_le_u64s(), &mw);
    let bits: Vec<bool> = b.bits_msb_first();
    let mut acc: [u64; 4] = [0u64, 0, 0, 0];
    proof {
        assert(bits@.take(0) =~= Seq::<bool>::empty());
        lemma_small_mod(0, mv as nat);
    }
    let mut i: usize = 0;
    while i < 256
        invariant
            i <= 256,
            bits@.len() == 256,
            0 < mv == words_value(mw@),
            words_value(ar@) == av % mv,
            0 <= words_value(ar@) < mv,
            words_value(acc@) == (av * bits_value(bits@.take(i as int))) % mv,
            words_value(acc@) < mv,
        decreases 256 - i,
    {
        let ghost v = bits_value(bits@.take(i as int));
        proof {
            lemma_words_range(acc@);
            assert(bits@.take(i + 1) =~= bits@.take(i as int).push(bits@[i as int]));
            lemma_bits_push(bits@.take(i as int), bits@[i as int]);
            lemma_add_mod_noop(av * v, av * v, mv);
            assert(av * v + av * v == av * (v * 2)) by (nonlinear_arith);
            lemma_add_mod_noop(av * (v * 2), av, mv);
            assert(av * (v * 2) + av == av * (v * 2 + 1)) by (nonlinear_arith);
        }
        acc = mod_add(&acc, &acc, &mw);
        if bits[i] {
            proof {
                lemma_words_range(acc@);
            }
            acc = mod_add(&acc, &ar, &mw);
        }
        i = i + 1;
    }
    proof {
        assert(bits@.take(256) =~= bits@);
        lemma_words_range(acc@);
    }
    U256::from_le_u64s(&acc)
}

/// `(lhs + rhs) mod modulus` as a witness.
pub fn add_mod_witness(lhs: &U256, rhs: &U256, modulus: &U256) -> (r: ModOpWitness)
    requires
        0 < modulus.spec_value(),
    ensures
        r.result.canonical(),
        r.result.spec_value() == (lhs.spec_value() + rhs.spec_value()) % modulus.spec_value(),
{
    ModOpWitness { result: P256M31BigInt::from_u256(&add_mod(lhs, rhs, modulus)) }
}

/// `(lhs - rhs) mod modulus` as a witness.
pub fn sub_mod_witness(lhs: &U256, rhs: &U256, modulus: &U256) -> (r: ModOpWitness)
    requires
        0 < modulus.spec_value(),
    ensures
        r.result.canonical(),
        r.result.spec_value() == (lhs.spec_value() - rhs.spec_value()) % modulus.spec_value(),
{
    ModOpWitness { result: P256M31BigInt::from_u256(&sub_mod(lhs, rhs, modulus)) }
}

/// `(lhs * rhs) mod modulus` as a witness.
pub fn mul_mod_witness(lhs: &U256, rhs: &U256, modulus: &U256) -> (r: ModOpWitness)
    requires
        0 < modulus.spec_value(),
    ensures
        r.result.canonical(),
        r.result.spec_value() == (lhs.spec_value() * rhs.spec_value()) % modulus.spec_value(),
{
    ModOpWitness { result: P256M31BigInt::from_u256(&mul_mod(lhs, rhs, modulus)) }
}

} // verus!
