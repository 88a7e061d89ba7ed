//! What bytes, bits, words and limbs denote, and how numbers read.
use crate::fields::{SecureField, M31};
use crate::fp_solinas::wide_value;
use crate::laws::gates::digit_value;
use crate::limbs::{lemma_limbs_bound, lemma_limbs_push, lemma_pow_20, limbs_canonical, limbs_value};
use crate::range_checks::trace::{bit_reversed, stored_row};
use crate::range_checks::{decimal, digit_char};
use crate::transcript::{coordinates, felt_of};
use crate::types::{be_value, bits_value};
use crate::words::{two_256, words_value};
use vstd::arithmetic::power::{lemma_pow0, lemma_pow_adds, lemma_pow1, pow};
use vstd::arithmetic::power2::pow2;
use vstd::prelude::*;

verus! {

/// Law: bytes are digits in base 256, the most significant first.
pub proof fn law_bytes(b: u8, rest: Seq<u8>)
    ensures
        be_value(Seq::empty()) == 0,
        be_value(seq![b]) == b,
        be_value(seq![b] + rest) == b * pow(256, rest.len()) + be_value(rest),
    decreases rest.len(),
{
    reveal_with_fuel(be_value, 2);
    assert(seq![b].drop_last() =~= Seq::<u8>::empty());
    lemma_pow0(256);
    if rest.len() == 0 {
        assert(seq![b] + rest =~= seq![b]);
    } else {
        let front = rest.drop_last();
        law_bytes(b, front);
        assert((seq![b] + rest).drop_last() =~= seq![b] + front);
        lemma_pow_adds(256, front.len(), 1);
        lemma_pow1(256);
        let p = pow(256, front.len());
        assert((b * p) * 256 == b * (p * 256)) by (nonlinear_arith);
    }
}

/// Law: bits are digits in base two, the most significant first.
pub proof fn law_bits(b: bool, rest: Seq<bool>)
    ensures
        bits_value(Seq::empty()) == 0,
        bits_value(seq![true]) == 1,
        bits_value(seq![b] + rest) == (if b {
            pow(2, rest.len())
        } else {
            0
        }) + bits_value(rest),
    decreases rest.len(),
{
    reveal_with_fuel(bits_value, 2);
    assert(seq![b].drop_last() =~= Seq::<bool>::empty());
    assert(seq![true].drop_last() =~= Seq::<bool>::empty());
    lemma_pow0(2);
    if rest.len() == 0 {
        assert(seq![b] + rest =~= seq![b]);
    } else {
        let front = rest.drop_last();
        law_bits(b, front);
        assert((seq![b] + rest).drop_last() =~= seq![b] + front);
        lemma_pow_adds(2, front.len(), 1);
        lemma_pow1(2);
    }
}

/// Law: limbs are digits in base `2^13`, the least significant first.
pub proof fn law_limbs(rest: Seq<M31>, top: M31)
    ensures
        limbs_value(Seq::empty()) == 0,
        limbs_value(rest.push(top)) == limbs_value(rest) + top.0 * pow(8192, rest.len()),
{
    lemma_limbs_push(rest, top);
}

/// Law: words are digits in base `2^64`, the least significant first: four of them, and
/// eight for a full product.
pub proof fn law_words(w: Seq<u64>)
    requires
        w.len() == 8,
    ensures
        ({
            let b = 0x1_0000_0000_0000_0000int;
            let low = w[0] + b * (w[1] + b * (w[2] + b * w[3]));
            let high = w[4] + b * (w[5] + b * (w[6] + b * w[7]));
            &&& words_value(w.subrange(0, 4)) == low
            &&& words_value(w.subrange(4, 8)) == high
            &&& wide_value(w) == low + two_256() * high
            &&& two_256() == b * b * b * b
        }),
{
    let b = 0x1_0000_0000_0000_0000int;
    assert(two_256() == b * b * b * b);
    let high = words_value(w.subrange(4, 8));
    assert(high * two_256() == two_256() * high) by (nonlinear_arith);
}

/// Law: twenty limbs are canonical exactly where each has thirteen bits and the number
/// that they denote has 256.
pub proof fn law_canonical_limbs(s: Seq<M31>)
    requires
        s.len() == 20,
    ensures
        limbs_canonical(s) <==> (forall|i: int| 0 <= i < 20 ==> (#[trigger] s[i]).0 < 8192)
            && limbs_value(s) < two_256(),
{
    if forall|i: int| 0 <= i < 20 ==> (#[trigger] s[i]).0 < 8192 {
        let low = s.take(19);
        let top = s[19];
        assert(s =~= low.push(top));
        lemma_limbs_push(low, top);
        assert forall|i: int| 0 <= i < low.len() implies (#[trigger] low[i]).0 < 8192 by {
            assert(low[i] == s[i]);
        }
        lemma_limbs_bound(low);
        let p = pow(8192, 19);
        lemma_pow_20();
        let t = top.0 as int;
        if t < 512 {
            assert(t * p + p <= 512 * p) by (nonlinear_arith)
                requires
                    t + 1 <= 512,
                    p > 0,
            ;
        } else {
            assert(t * p >= 512 * p) by (nonlinear_arith)
                requires
                    t >= 512,
                    p > 0,
            ;
        }
    }
}

/// Law: a decimal text can be read back: its last digit is the remainder by ten, and what
/// stands before it is the text of the quotient; a number below ten has one digit.
pub proof fn law_decimal_can_be_read(n: nat)
    ensures
        decimal(n).len() >= 1,
        digit_value(decimal(n).last()) == n % 10,
        n < 10 ==> decimal(n).len() == 1,
        n >= 10 ==> decimal(n).drop_last() == decimal(n / 10),
    decreases n,
{
    if n >= 10 {
        law_decimal_can_be_read(n / 10);
        assert(decimal(n).drop_last() =~= decimal(n / 10));
        assert(digit_value(digit_char((n % 10) as int)) == n % 10);
    } else {
        assert(digit_value(digit_char(n as int)) == n);
    }
}

/// Law: an element is absorbed by the coordinates that it was drawn from.
pub proof fn law_drawn_coordinates(c: Seq<u32>)
    requires
        c.len() == 4,
    ensures
        coordinates(seq![felt_of(c)]) == c,
{
    let one = seq![felt_of(c)];
    assert(one.drop_last() =~= Seq::<SecureField>::empty());
    reveal_with_fuel(coordinates, 2);
    assert(coordinates(one) =~= c);
}

/// Reversing the bits of the complement complements the reversed bits.
proof fn lemma_reversed_complement(c: nat, k: nat)
    requires
        c < pow2(k),
    ensures
        bit_reversed(c, k) < pow2(k),
        bit_reversed((pow2(k) - 1 - c) as nat, k) == pow2(k) - 1 - bit_reversed(c, k),
    decreases k,
{
    vstd::arithmetic::power2::lemma2_to64();
    if k > 0 {
        vstd::arithmetic::power2::lemma_pow2_unfold(k);
        let h = pow2((k - 1) as nat) as int;
        let d = 2 * h - 1 - c;
        lemma_reversed_complement(c / 2, (k - 1) as nat);
        assert(d / 2 == h - 1 - c / 2);
        assert(d % 2 == 1 - c % 2);
        let b = (c % 2) as int;
        assert((1 - b) * h == h - b * h) by (nonlinear_arith);
        assert(b * h <= h && b * h >= 0) by (nonlinear_arith)
            requires
                0 <= b <= 1,
                h >= 0,
        ;
    }
}

/// Law: the storage order of a column. Two neighbours of the table are stored at
/// complementary rows, and the even positions at the even rows, in bit-reversed order.
pub proof fn law_storage_order(c: nat, k: nat)
    requires
        k >= 1,
        2 * c + 1 < pow2(k),
    ensures
        stored_row(2 * c, k) + stored_row(2 * c + 1, k) == pow2(k) - 1,
        stored_row(2 * c, k) == 2 * bit_reversed(c, (k - 1) as nat),
{
    vstd::arithmetic::power2::lemma_pow2_unfold(k);
    lemma_reversed_complement(c, k);
    crate::range_checks::trace::lemma_bit_reversed_top(c, 0, k);
    assert(0 * pow2((k - 1) as nat) + c == c);
    assert((2 * pow2(k) - (2 * c + 1)) / 2 == pow2(k) - 1 - c);
}

} // verus!
