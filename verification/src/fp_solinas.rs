//! Multiplication traces modulo the P-256 prime: the operands, the full
//! 512-bit product, and the reduced result.
use crate::constants::P256_MODULUS;
use crate::curve::{field_p, lemma_constants};
use crate::field_ops::mul_mod;
use crate::limbs::{lemma_limbs_injective, P256M31BigInt};
use crate::types::U256;
use crate::words::{lemma_words_range, two_256, words_value};
use vstd::arithmetic::mul::{
    lemma_mul_is_associative, lemma_mul_is_commutative, lemma_mul_is_distributive_add,
};
use vstd::prelude::*;

verus! {

/// How a multiplication trace can be inconsistent.
#[derive(Clone, Copy, Debug, PartialEq, Eq, Structural)]
pub enum FpSolinasError {
    /// The raw product is not the product of the operands.
    RawProductMismatch,
    /// The result is not the raw product modulo the prime.
    ReductionMismatch,
}

/// One multiplication modulo the prime.
#[derive(Clone, Copy, Debug)]
pub struct FpSolinasMulTrace {
    pub lhs: P256M31BigInt,
    pub rhs: P256M31BigInt,
    /// The product before reduction, as little-endian words.
    pub raw_product: [u64; 8],
    pub result: P256M31BigInt,
}

/// The number that eight little-endian words denote.
pub open spec fn wide_value(w: Seq<u64>) -> int {
    words_value(w.subrange(0, 4)) + words_value(w.subrange(4, 8)) * two_256()
}

/// A factor distributes over four weighted digits.
proof fn lemma_distribute(
    a: int,
    c0: int,
    c1: int,
    c2: int,
    c3: int,
    w1: int,
    w2: int,
    w3: int,
)
    ensures
        a * (c0 + c1 * w1 + c2 * w2 + c3 * w3) == a * c0 + (a * c1) * w1 + (a * c2) * w2 + (a * c3)
            * w3,
{
    lemma_mul_is_distributive_add(a, c0 + c1 * w1 + c2 * w2, c3 * w3);
    lemma_mul_is_distributive_add(a, c0 + c1 * w1, c2 * w2);
    lemma_mul_is_distributive_add(a, c0, c1 * w1);
    lemma_mul_is_associative(a, c1, w1);
    lemma_mul_is_associative(a, c2, w2);
    lemma_mul_is_associative(a, c3, w3);
}

/// One row of a schoolbook multiplication: `a * b + add`, five words.
fn mul_row(a: &[u64; 4], b: u64, addend: &[u64; 4]) -> (r: ([u64; 4], u64))
    ensures
        words_value(r.0@) + r.1 * two_256() == words_value(a@) * b + words_value(addend@),
{
    let (r0, c0) = mul_word(a[0], b, addend[0], 0);
    let (r1, c1) = mul_word(a[1], b, addend[1], c0);
    let (r2, c2) = mul_word(a[2], b, addend[2], c1);
    let (r3, c3) = mul_word(a[3], b, addend[3], c2);
    proof {
        let (x0, x1, x2, x3) = (a[0] as int, a[1] as int, a[2] as int, a[3] as int);
        let (b1, b2, b3) = (
            0x1_0000_0000_0000_0000int,
            0x1_0000_0000_0000_0000_0000_0000_0000_0000int,
            0x1_0000_0000_0000_0000_0000_0000_0000_0000_0000_0000_0000_0000int,
        );
        lemma_distribute(b as int, x0, x1, x2, x3, b1, b2, b3);
        lemma_mul_is_commutative(words_value(a@), b as int);
        lemma_mul_is_commutative(x0, b as int);
        lemma_mul_is_commutative(x1, b as int);
        lemma_mul_is_commutative(x2, b as int);
        lemma_mul_is_commutative(x3, b as int);
    }
    ([r0, r1, r2, r3], c3)
}

/// `a * b + addend + carry` as a low and a high word.
fn mul_word(a: u64, b: u64, addend: u64, carry: u64) -> (r: (u64, u64))
    ensures
        r.0 + r.1 * 0x1_0000_0000_0000_0000int == a * b + addend + carry,
{
    assert(a * b <= 0xFFFF_FFFF_FFFF_FFFE_0000_0000_0000_0001int) by (nonlinear_arith)
        requires
            a <= 0xFFFF_FFFF_FFFF_FFFF,
            b <= 0xFFFF_FFFF_FFFF_FFFF,
    ;
    let t: u128 = a as u128 * b as u128 + addend as u128 + carry as u128;
    let low: u64 = (t % 0x1_0000_0000_0000_0000) as u64;
    let high: u64 = (t / 0x1_0000_0000_0000_0000) as u64;
    (low, high)
}

/// The full product of two 256-bit integers.
pub fn mul_wide(a: &[u64; 4], b: &[u64; 4]) -> (r: [u64; 8])
    ensures
        wide_value(r@) == words_value(a@) * words_value(b@),
{
    let zero: [u64; 4] = [0u64, 0, 0, 0];
    let (p0, h0) = mul_row(a, b[0], &zero);
    let s1: [u64; 4] = [p0[1], p0[2], p0[3], h0];
    let (p1, h1) = mul_row(a, b[1], &s1);
    let s2: [u64; 4] = [p1[1], p1[2], p1[3], h1];
    let (p2, h2) = mul_row(a, b[2], &s2);
    let s3: [u64; 4] = [p2[1], p2[2], p2[3], h2];
    let (p3, h3) = mul_row(a, b[3], &s3);
    let r: [u64; 8] = [p0[0], p1[0], p2[0], p3[0], p3[1], p3[2], p3[3], h3];
    proof {
        let av = words_value(a@);
        let (b0, b1, b2, b3) = (b[0] as int, b[1] as int, b[2] as int, b[3] as int);
        let (w1, w2, w3) = (
            0x1_0000_0000_0000_0000int,
            0x1_0000_0000_0000_0000_0000_0000_0000_0000int,
            0x1_0000_0000_0000_0000_0000_0000_0000_0000_0000_0000_0000_0000int,
        );
        lemma_distribute(av, b0, b1, b2, b3, w1, w2, w3);
        assert(r@.subrange(0, 4) =~= seq![p0[0], p1[0], p2[0], p3[0]]);
        assert(r@.subrange(4, 8) =~= seq![p3[1], p3[2], p3[3], h3]);
    }
    r
}

/// Eight words are determined by their value.
proof fn lemma_wide_injective(a: Seq<u64>, b: Seq<u64>)
    requires
        a.len() == 8,
        b.len() == 8,
        wide_value(a) == wide_value(b),
    ensures
        a == b,
{
    lemma_words_range(a.subrange(0, 4));
    lemma_words_range(b.subrange(0, 4));
    let (al, ah) = (words_value(a.subrange(0, 4)), words_value(a.subrange(4, 8)));
    let (bl, bh) = (words_value(b.subrange(0, 4)), words_value(b.subrange(4, 8)));
    assert(ah == bh && al == bl);
    crate::words::lemma_words_injective(a.subrange(0, 4), b.subrange(0, 4));
    crate::words::lemma_words_injective(a.subrange(4, 8), b.subrange(4, 8));
    assert(a =~= a.subrange(0, 4) + a.subrange(4, 8));
    assert(b =~= b.subrange(0, 4) + b.subrange(4, 8));
}

/// Whether two eight-word integers are equal.
fn wide_eq(a: &[u64; 8], b: &[u64; 8]) -> (r: bool)
    ensures
        r == (wide_value(a@) == wide_value(b@)),
{
    let mut i: usize = 0;
    while i < 8
        invariant
            i <= 8,
            forall|k: int| 0 <= k < i ==> a@[k] == b@[k],
        decreases 8 - i,
    {
        if a[i] != b[i] {
            proof {
                if wide_value(a@) == wide_value(b@) {
                    lemma_wide_injective(a@, b@);
                }
            }
            return false;
        }
        i = i + 1;
    }
    proof {
        assert(a@ =~= b@);
    }
    true
}

impl FpSolinasMulTrace {
    /// The trace of multiplying the integers `a` and `b`.
    pub open spec fn traces(&self, a: int, b: int) -> bool {
        &&& self.lhs.canonical() && self.lhs.spec_value() == a
        &&& self.rhs.canonical() && self.rhs.spec_value() == b
        &&& wide_value(self.raw_product@) == a * b
        &&& self.result.canonical() && self.result.spec_value() == (a * b) % field_p()
    }

    /// What is wrong with the trace, if anything.
    pub open spec fn spec_error(&self) -> Option<FpSolinasError> {
        let a = self.lhs.spec_value() % two_256();
        let b = self.rhs.spec_value() % two_256();
        if wide_value(self.raw_product@) != a * b {
            Some(FpSolinasError::RawProductMismatch)
        } else if !(self.result.canonical() && self.result.spec_value() == (a * b) % field_p()) {
            Some(FpSolinasError::ReductionMismatch)
        } else {
            None
        }
    }

    /// Builds the trace of `lhs * rhs`. Every pair of operands has one.
    pub fn new(lhs: &U256, rhs: &U256) -> (r: Result<FpSolinasMulTrace, FpSolinasError>)
        ensures
            r matches Ok(t) && t.traces(lhs.spec_value(), rhs.spec_value()),
    {
        proof {
            lemma_constants();
        }
        let p: U256 = U256::from_le_u64s(&P256_MODULUS);
        let raw_product: [u64; 8] = mul_wide(&lhs.to_le_u64s(), &rhs.to_le_u64s());
        let result: U256 = mul_mod(lhs, rhs, &p);
        Ok(
            FpSolinasMulTrace {
                lhs: P256M31BigInt::from_u256(lhs),
                rhs: P256M31BigInt::from_u256(rhs),
                raw_product,
                result: P256M31BigInt::from_u256(&result),
            },
        )
    }

    /// Checks the product first and the reduction second.
    pub fn verify(&self) -> (r: Result<(), FpSolinasError>)
        ensures
            match self.spec_error() {
                None => r == Ok::<(), FpSolinasError>(()),
                Some(e) => r == Err::<(), FpSolinasError>(e),
            },
    {
        proof {
            lemma_constants();
        }
        let p: U256 = U256::from_le_u64s(&P256_MODULUS);
        let a: U256 = self.lhs.to_u256();
        let b: U256 = self.rhs.to_u256();
        let raw: [u64; 8] = mul_wide(&a.to_le_u64s(), &b.to_le_u64s());
        if !wide_eq(&self.raw_product, &raw) {
            return Err(FpSolinasError::RawProductMismatch);
        }
        let expected: P256M31BigInt = P256M31BigInt::from_u256(&mul_mod(&a, &b, &p));
        if !self.result.same_limbs(&expected) {
            proof {
                if self.result.canonical() && self.result.spec_value() == expected.spec_value() {
                    lemma_limbs_injective(self.result.limbs@, expected.limbs@);
                }
            }
            return Err(FpSolinasError::ReductionMismatch);
        }
        Ok(())
    }
}

/// Law: a trace that was built verifies.
pub proof fn law_built_trace_verifies(t: FpSolinasMulTrace, a: int, b: int)
    requires
        t.traces(a, b),
    ensures
        t.spec_error() is None,
{
    t.lhs.lemma_canonical_range();
    t.rhs.lemma_canonical_range();
    vstd::arithmetic::div_mod::lemma_small_mod(a as nat, two_256() as nat);
    vstd::arithmetic::div_mod::lemma_small_mod(b as nat, two_256() as nat);
}

} // verus!
