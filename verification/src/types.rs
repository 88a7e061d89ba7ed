//! The value types of the native verifier: 256-bit integers, affine points,
//! signatures, and the statement that a verification call is about.
use crate::constants::P256_MODULUS;
use crate::words::{words_eq, words_value};
use vstd::arithmetic::power::{lemma_pow0, lemma_pow1, lemma_pow_adds, pow};
use vstd::prelude::*;

verus! {

/// A 256-bit unsigned integer, stored as 32 big-endian bytes.
#[derive(Clone, Copy, Debug)]
pub struct U256(pub [u8; 32]);

/// The natural number that a big-endian byte string denotes.
pub open spec fn be_value(s: Seq<u8>) -> int
    decreases s.len(),
{
    if s.len() == 0 {
        0
    } else {
        be_value(s.drop_last()) * 256 + s.last()
    }
}

/// The natural number that a most-significant-first bit string denotes.
pub open spec fn bits_value(s: Seq<bool>) -> int
    decreases s.len(),
{
    if s.len() == 0 {
        0
    } else {
        bits_value(s.drop_last()) * 2 + (if s.last() {
            1int
        } else {
            0
        })
    }
}

/// Appending a byte multiplies by 256 and adds the byte.
pub proof fn lemma_be_push(s: Seq<u8>, b: u8)
    ensures
        be_value(s.push(b)) == be_value(s) * 256 + b,
{
    assert(s.push(b).drop_last() =~= s);
}

/// Appending a bit doubles and adds the bit.
pub proof fn lemma_bits_push(s: Seq<bool>, b: bool)
    ensures
        bits_value(s.push(b)) == bits_value(s) * 2 + (if b {
            1int
        } else {
            0
        }),
{
    assert(s.push(b).drop_last() =~= s);
}

/// Value of a concatenation of two byte strings.
pub proof fn lemma_be_concat(a: Seq<u8>, b: Seq<u8>)
    ensures
        be_value(a + b) == be_value(a) * pow(256, b.len()) + be_value(b),
    decreases b.len(),
{
    if b.len() == 0 {
        assert(a + b =~= a);
        lemma_pow0(256);
    } else {
        lemma_be_concat(a, b.drop_last());
        assert((a + b).drop_last() =~= a + b.drop_last());
        assert((a + b).last() == b.last());
        lemma_pow_adds(256, (b.len() - 1) as nat, 1);
        lemma_pow1(256);
        let x = be_value(a);
        let p = pow(256, (b.len() - 1) as nat);
        let y = be_value(b.drop_last());
        assert((x * p + y) * 256 == x * (p * 256) + y * 256) by (nonlinear_arith);
    }
}

/// Byte strings denote non-negative numbers.
pub proof fn lemma_be_nonneg(s: Seq<u8>)
    ensures
        0 <= be_value(s),
    decreases s.len(),
{
    if s.len() > 0 {
        lemma_be_nonneg(s.drop_last());
    }
}

/// Bit strings denote non-negative numbers.
pub proof fn lemma_bits_nonneg(s: Seq<bool>)
    ensures
        0 <= bits_value(s),
    decreases s.len(),
{
    if s.len() > 0 {
        lemma_bits_nonneg(s.drop_last());
    }
}

/// Byte strings of one length are determined by the number they denote.
pub proof fn lemma_be_injective(a: Seq<u8>, b: Seq<u8>)
    requires
        a.len() == b.len(),
        be_value(a) == be_value(b),
    ensures
        a == b,
    decreases a.len(),
{
    if a.len() == 0 {
        assert(a =~= b);
    } else {
        assert(a.last() == b.last());
        lemma_be_injective(a.drop_last(), b.drop_last());
        assert(a =~= a.drop_last().push(a.last()));
        assert(b =~= b.drop_last().push(b.last()));
    }
}

/// The eight big-endian bytes of a word.
fn word_to_bytes(w: u64) -> (r: [u8; 8])
    ensures
        be_value(r@) == w,
{
    let b0: u8 = (w / 0x100_0000_0000_0000) as u8;
    let w0: u64 = w % 0x100_0000_0000_0000;
    let b1: u8 = (w0 / 0x1_0000_0000_0000) as u8;
    let w1: u64 = w0 % 0x1_0000_0000_0000;
    let b2: u8 = (w1 / 0x100_0000_0000) as u8;
    let w2: u64 = w1 % 0x100_0000_0000;
    let b3: u8 = (w2 / 0x1_0000_0000) as u8;
    let w3: u64 = w2 % 0x1_0000_0000;
    let b4: u8 = (w3 / 0x100_0000) as u8;
    let w4: u64 = w3 % 0x100_0000;
    let b5: u8 = (w4 / 0x1_0000) as u8;
    let w5: u64 = w4 % 0x1_0000;
    let b6: u8 = (w5 / 0x100) as u8;
    let b7: u8 = (w5 % 0x100) as u8;
    let r: [u8; 8] = [b0, b1, b2, b3, b4, b5, b6, b7];
    proof {
        lemma_be_of_eight(r@);
    }
    r
}

/// Value of an eight-byte string, written out.
proof fn lemma_be_of_eight(s: Seq<u8>)
    requires
        s.len() == 8,
    ensures
        be_value(s) == s[0] * 0x100_0000_0000_0000 + s[1] * 0x1_0000_0000_0000 + s[2]
            * 0x100_0000_0000 + s[3] * 0x1_0000_0000 + s[4] * 0x100_0000 + s[5] * 0x1_0000 + s[6]
            * 0x100 + s[7],
{
    reveal_with_fuel(be_value, 9);
    assert(s.drop_last().last() == s[6]);
    assert(s.drop_last().drop_last().last() == s[5]);
    assert(s.drop_last().drop_last().drop_last().last() == s[4]);
}

/// The word that eight bytes, starting at `start`, denote.
fn bytes_to_word(bytes: &[u8; 32], start: usize) -> (w: u64)
    requires
        start <= 24,
    ensures
        w == be_value(bytes@.subrange(start as int, start + 8)),
{
    let w: u64 = bytes[start] as u64 * 0x100_0000_0000_0000 + bytes[start + 1] as u64
        * 0x1_0000_0000_0000 + bytes[start + 2] as u64 * 0x100_0000_0000 + bytes[start + 3] as u64
        * 0x1_0000_0000 + bytes[start + 4] as u64 * 0x100_0000 + bytes[start + 5] as u64 * 0x1_0000
        + bytes[start + 6] as u64 * 0x100 + bytes[start + 7] as u64;
    proof {
        lemma_be_of_eight(bytes@.subrange(start as int, start + 8));
    }
    w
}

/// Value of a 32-byte string in terms of its four eight-byte parts.
proof fn lemma_be_of_parts(a: Seq<u8>, b: Seq<u8>, c: Seq<u8>, d: Seq<u8>)
    requires
        a.len() == 8,
        b.len() == 8,
        c.len() == 8,
        d.len() == 8,
    ensures
        be_value(a + b + c + d) == be_value(d) + be_value(c) * 0x1_0000_0000_0000_0000int
            + be_value(b) * 0x1_0000_0000_0000_0000_0000_0000_0000_0000int + be_value(a)
            * 0x1_0000_0000_0000_0000_0000_0000_0000_0000_0000_0000_0000_0000int,
{
    lemma_be_concat(a + b + c, d);
    lemma_be_concat(a + b, c);
    lemma_be_concat(a, b);
    assert(pow(256, 8) == 0x1_0000_0000_0000_0000int) by {
        reveal_with_fuel(pow, 9);
    }
}

impl U256 {
    /// The integer that the bytes denote.
    pub open spec fn spec_value(&self) -> int {
        be_value(self.0@)
    }

    /// Zero.
    pub fn zero() -> (r: U256)
        ensures
            r.spec_value() == 0,
    {
        U256::from_le_u64s(&[0u64, 0, 0, 0])
    }

    /// The integer with the given little-endian words.
    pub fn from_le_u64s(words: &[u64; 4]) -> (r: U256)
        ensures
            r.spec_value() == words_value(words@),
    {
        let a: [u8; 8] = word_to_bytes(words[3]);
        let b: [u8; 8] = word_to_bytes(words[2]);
        let c: [u8; 8] = word_to_bytes(words[1]);
        let d: [u8; 8] = word_to_bytes(words[0]);
        let bytes: [u8; 32] = [
            a[0],
            a[1],
            a[2],
            a[3],
            a[4],
            a[5],
            a[6],
            a[7],
            b[0],
            b[1],
            b[2],
            b[3],
            b[4],
            b[5],
            b[6],
            b[7],
            c[0],
            c[1],
            c[2],
            c[3],
            c[4],
            c[5],
            c[6],
            c[7],
            d[0],
            d[1],
            d[2],
            d[3],
            d[4],
            d[5],
            d[6],
            d[7],
        ];
        proof {
            assert(bytes@ =~= a@ + b@ + c@ + d@);
            lemma_be_of_parts(a@, b@, c@, d@);
        }
        U256(bytes)
    }

    /// The little-endian words of the integer.
    pub fn to_le_u64s(&self) -> (words: [u64; 4])
        ensures
            words_value(words@) == self.spec_value(),
    {
        let w3: u64 = bytes_to_word(&self.0, 0);
        let w2: u64 = bytes_to_word(&self.0, 8);
        let w1: u64 = bytes_to_word(&self.0, 16);
        let w0: u64 = bytes_to_word(&self.0, 24);
        proof {
            let a = self.0@.subrange(0, 8);
            let b = self.0@.subrange(8, 16);
            let c = self.0@.subrange(16, 24);
            let d = self.0@.subrange(24, 32);
            assert(self.0@ =~= a + b + c + d);
            lemma_be_of_parts(a, b, c, d);
        }
        [w0, w1, w2, w3]
    }

    /// The 256 bits of the integer, most significant first.
    pub fn bits_msb_first(&self) -> (bits: Vec<bool>)
        ensures
            bits@.len() == 256,
            bits_value(bits@) == self.spec_value(),
    {
        let mut bits: Vec<bool> = Vec::with_capacity(256);
        let mut i: usize = 0;
        while i < 32
            invariant
                i <= 32,
                bits@.len() == 8 * i,
                bits_value(bits@) == be_value(self.0@.take(i as int)),
            decreases 32 - i,
        {
            push_byte_bits(&mut bits, self.0[i]);
            proof {
                assert(self.0@.take(i + 1) =~= self.0@.take(i as int).push(self.0@[i as int]));
                lemma_be_push(self.0@.take(i as int), self.0@[i as int]);
            }
            i = i + 1;
        }
        proof {
            assert(self.0@.take(32) =~= self.0@);
        }
        bits
    }

    /// The integer lies in `[0, 2^256)`, and two integers of the same value
    /// are stored alike.
    pub proof fn lemma_value_facts(&self)
        ensures
            0 <= self.spec_value() < crate::words::two_256(),
            forall|other: U256| #[trigger] other.spec_value() == self.spec_value() ==> other.0@
                == self.0@,
    {
        let a = self.0@.subrange(0, 8);
        let b = self.0@.subrange(8, 16);
        let c = self.0@.subrange(16, 24);
        let d = self.0@.subrange(24, 32);
        assert(self.0@ =~= a + b + c + d);
        lemma_be_of_parts(a, b, c, d);
        lemma_be_of_eight(a);
        lemma_be_of_eight(b);
        lemma_be_of_eight(c);
        lemma_be_of_eight(d);
        assert forall|other: U256| #[trigger]
            other.spec_value() == self.spec_value() implies other.0@ == self.0@ by {
            lemma_be_injective(other.0@, self.0@);
        }
    }
}

/// Appends the eight bits of a byte, most significant first.
fn push_byte_bits(bits: &mut Vec<bool>, byte: u8)
    ensures
        final(bits)@.len() == old(bits)@.len() + 8,
        bits_value(final(bits)@) == bits_value(old(bits)@) * 256 + byte,
{
    let r7: u8 = push_bit_of(bits, byte, 128);
    let r6: u8 = push_bit_of(bits, r7, 64);
    let r5: u8 = push_bit_of(bits, r6, 32);
    let r4: u8 = push_bit_of(bits, r5, 16);
    let r3: u8 = push_bit_of(bits, r4, 8);
    let r2: u8 = push_bit_of(bits, r3, 4);
    let r1: u8 = push_bit_of(bits, r2, 2);
    let _r0: u8 = push_bit_of(bits, r1, 1);
}

/// Appends the bit of the given weight and returns what is left of `rest`.
fn push_bit_of(bits: &mut Vec<bool>, rest: u8, weight: u8) -> (left: u8)
    requires
        rest < 2 * weight,
    ensures
        left < weight,
        final(bits)@.len() == old(bits)@.len() + 1,
        bits_value(final(bits)@) * weight + left == bits_value(old(bits)@) * (2 * weight) + rest,
{
    let bit = rest >= weight;
    let ghost v = bits_value(bits@);
    proof {
        lemma_bits_push(bits@, bit);
        assert((v * 2 + 1) * weight == v * (2 * weight) + weight) by (nonlinear_arith);
        assert((v * 2 + 0) * weight == v * (2 * weight)) by (nonlinear_arith);
    }
    bits.push(bit);
    if bit {
        rest - weight
    } else {
        rest
    }
}

impl PartialEq for U256 {
    fn eq(&self, other: &Self) -> (r: bool) {
        let a: [u64; 4] = self.to_le_u64s();
        let b: [u64; 4] = other.to_le_u64s();
        words_eq(&a, &b)
    }
}

impl Eq for U256 {

}

impl vstd::std_specs::cmp::PartialEqSpecImpl for U256 {
    open spec fn obeys_eq_spec() -> bool {
        true
    }

    open spec fn eq_spec(&self, other: &Self) -> bool {
        self.spec_value() == other.spec_value()
    }
}

/// A point of the affine plane, finite by construction.
#[derive(Clone, Copy, Debug)]
pub struct AffinePoint {
    pub x: U256,
    pub y: U256,
}

impl AffinePoint {
    /// The coordinates as integers.
    pub open spec fn spec_xy(&self) -> (int, int) {
        (self.x.spec_value(), self.y.spec_value())
    }
}

impl PartialEq for AffinePoint {
    fn eq(&self, other: &Self) -> (r: bool) {
        self.x == other.x && self.y == other.y
    }
}

impl Eq for AffinePoint {

}

impl vstd::std_specs::cmp::PartialEqSpecImpl for AffinePoint {
    open spec fn obeys_eq_spec() -> bool {
        true
    }

    open spec fn eq_spec(&self, other: &Self) -> bool {
        self.spec_xy() == other.spec_xy()
    }
}

/// An ECDSA signature.
#[derive(Clone, Copy, Debug)]
pub struct Signature {
    pub r: U256,
    pub s: U256,
}

/// The statement of one signature verification.
#[derive(Clone, Copy, Debug)]
pub struct EcdsaVerifyInput {
    pub message_hash: U256,
    pub signature: Signature,
    pub public_key: AffinePoint,
}

/// The field modulus as a 256-bit integer.
pub fn field_modulus() -> (r: U256)
    ensures
        r.spec_value() == words_value(P256_MODULUS@),
{
    U256::from_le_u64s(&P256_MODULUS)
}

} // verus!
