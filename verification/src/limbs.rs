//! 256-bit integers as twenty 13-bit limbs of the base field, least
//! significant first. The top limb holds nine bits.
use crate::fields::M31;
use crate::types::U256;
use crate::words::{lemma_words_range, two_256, words_value};
use vstd::arithmetic::div_mod::{
    lemma_add_mod_noop, lemma_fundamental_div_mod_converse, lemma_mul_mod_noop_left,
    lemma_small_mod,
};
use vstd::arithmetic::power::{lemma_pow0, lemma_pow1, lemma_pow_adds, pow};
use vstd::prelude::*;

verus! {

/// Number of limbs.
pub const LIMB_COUNT: usize = 20;

/// Bits per limb.
pub const LIMB_BITS: u32 = 13;

/// `2^13`.
pub const LIMB_BASE: u32 = 8192;

/// Bits of the top limb.
pub const TOP_LIMB_BITS: u32 = 9;

/// A 256-bit integer in limb form.
#[derive(Clone, Copy, Debug)]
pub struct P256M31BigInt {
    pub limbs: [M31; 20],
}

/// The number that a sequence of base-`2^13` limbs denotes. Limbs above the
/// base are taken at their weight.
pub open spec fn limbs_value(s: Seq<M31>) -> int
    decreases s.len(),
{
    if s.len() == 0 {
        0
    } else {
        s[0].0 + 8192 * limbs_value(s.skip(1))
    }
}

/// The limbs are digits: 13 bits each, and nine bits in the top one.
pub open spec fn limbs_canonical(s: Seq<M31>) -> bool {
    &&& s.len() == 20
    &&& forall|i: int| 0 <= i < 20 ==> (#[trigger] s[i]).0 < 8192
    &&& s[19].0 < 512
}

/// Appending a limb adds it at the next weight.
pub proof fn lemma_limbs_push(s: Seq<M31>, x: M31)
    ensures
        limbs_value(s.push(x)) == limbs_value(s) + x.0 * pow(8192, s.len()),
    decreases s.len(),
{
    lemma_pow0(8192);
    reveal_with_fuel(limbs_value, 2);
    if s.len() == 0 {
        assert(s.push(x).skip(1) =~= Seq::<M31>::empty());
    } else {
        assert(s.push(x).skip(1) =~= s.skip(1).push(x));
        lemma_limbs_push(s.skip(1), x);
        lemma_pow_adds(8192, 1, (s.len() - 1) as nat);
        lemma_pow1(8192);
        let v = limbs_value(s.skip(1));
        let p = pow(8192, (s.len() - 1) as nat);
        assert(8192 * (v + x.0 * p) == 8192 * v + x.0 * (8192 * p)) by (nonlinear_arith);
    }
}

/// Limb sequences denote non-negative numbers.
pub proof fn lemma_limbs_nonneg(s: Seq<M31>)
    ensures
        0 <= limbs_value(s),
    decreases s.len(),
{
    if s.len() > 0 {
        lemma_limbs_nonneg(s.skip(1));
    }
}

/// Digit sequences of one length are determined by the number they denote.
pub proof fn lemma_limbs_injective(a: Seq<M31>, b: Seq<M31>)
    requires
        a.len() == b.len(),
        forall|i: int| 0 <= i < a.len() ==> (#[trigger] a[i]).0 < 8192,
        forall|i: int| 0 <= i < b.len() ==> (#[trigger] b[i]).0 < 8192,
        limbs_value(a) == limbs_value(b),
    ensures
        a == b,
    decreases a.len(),
{
    if a.len() == 0 {
        assert(a =~= b);
    } else {
        assert(a[0].0 == b[0].0);
        assert forall|i: int| 0 <= i < a.skip(1).len() implies (#[trigger] a.skip(1)[i]).0
            < 8192 by {
            assert(a.skip(1)[i] == a[i + 1]);
        }
        assert forall|i: int| 0 <= i < b.skip(1).len() implies (#[trigger] b.skip(1)[i]).0
            < 8192 by {
            assert(b.skip(1)[i] == b[i + 1]);
        }
        lemma_limbs_injective(a.skip(1), b.skip(1));
        assert(a =~= seq![a[0]] + a.skip(1));
        assert(b =~= seq![b[0]] + b.skip(1));
    }
}

/// Digit sequences compare as numbers once the more significant digits agree.
pub proof fn lemma_limbs_bound(s: Seq<M31>)
    requires
        forall|i: int| 0 <= i < s.len() ==> (#[trigger] s[i]).0 < 8192,
    ensures
        0 <= limbs_value(s) < pow(8192, s.len()),
    decreases s.len(),
{
    lemma_pow0(8192);
    if s.len() > 0 {
        assert forall|i: int| 0 <= i < s.skip(1).len() implies (#[trigger] s.skip(1)[i]).0
            < 8192 by {
            assert(s.skip(1)[i] == s[i + 1]);
        }
        lemma_limbs_bound(s.skip(1));
        lemma_pow_adds(8192, 1, (s.len() - 1) as nat);
        lemma_pow1(8192);
        assert(s[0].0 < 8192);
    }
}

/// Quotient and remainder of a division by `2^13`.
fn split_limb(w: &[u64; 4]) -> (r: ([u64; 4], u32))
    ensures
        r.1 < 8192,
        words_value(w@) == 8192 * words_value(r.0@) + r.1,
{
    let c3: u128 = w[3] as u128;
    let q3: u64 = (c3 / 8192) as u64;
    let c2: u128 = (c3 % 8192) * 0x1_0000_0000_0000_0000 + w[2] as u128;
    let q2: u64 = (c2 / 8192) as u64;
    let c1: u128 = (c2 % 8192) * 0x1_0000_0000_0000_0000 + w[1] as u128;
    let q1: u64 = (c1 / 8192) as u64;
    let c0: u128 = (c1 % 8192) * 0x1_0000_0000_0000_0000 + w[0] as u128;
    let q0: u64 = (c0 / 8192) as u64;
    let rem: u32 = (c0 % 8192) as u32;
    ([q0, q1, q2, q3], rem)
}

/// `w * 2^13 + limb` modulo `2^256`.
fn join_limb(w: &[u64; 4], limb: u32) -> (r: [u64; 4])
    ensures
        words_value(r@) == (words_value(w@) * 8192 + limb) % two_256(),
{
    let c0: u128 = w[0] as u128 * 8192 + limb as u128;
    let r0: u64 = (c0 % 0x1_0000_0000_0000_0000) as u64;
    let c1: u128 = w[1] as u128 * 8192 + c0 / 0x1_0000_0000_0000_0000;
    let r1: u64 = (c1 % 0x1_0000_0000_0000_0000) as u64;
    let c2: u128 = w[2] as u128 * 8192 + c1 / 0x1_0000_0000_0000_0000;
    let r2: u64 = (c2 % 0x1_0000_0000_0000_0000) as u64;
    let c3: u128 = w[3] as u128 * 8192 + c2 / 0x1_0000_0000_0000_0000;
    let r3: u64 = (c3 % 0x1_0000_0000_0000_0000) as u64;
    let r: [u64; 4] = [r0, r1, r2, r3];
    proof {
        let over = (c3 / 0x1_0000_0000_0000_0000) as int;
        lemma_words_range(r@);
        assert(words_value(w@) * 8192 + limb == over * two_256() + words_value(r@));
        lemma_fundamental_div_mod_converse(
            words_value(w@) * 8192 + limb,
            two_256(),
            over,
            words_value(r@),
        );
    }
    r
}

impl P256M31BigInt {
    /// The number that the limbs denote, before any reduction.
    pub open spec fn spec_value(&self) -> int {
        limbs_value(self.limbs@)
    }

    /// The limbs are digits of a 256-bit integer.
    pub open spec fn canonical(&self) -> bool {
        limbs_canonical(self.limbs@)
    }

    /// Zero.
    pub fn zero() -> (r: P256M31BigInt)
        ensures
            r.canonical(),
            r.spec_value() == 0,
            forall|i: int| 0 <= i < 20 ==> r.limbs@[i] == M31(0),
    {
        let r = P256M31BigInt { limbs: [M31(0);20] };
        proof {
            lemma_zero_limbs(r.limbs@);
        }
        r
    }

    /// The integer with the given limbs.
    pub fn from_limbs(limbs: [M31; 20]) -> (r: P256M31BigInt)
        ensures
            r.limbs@ == limbs@,
    {
        P256M31BigInt { limbs }
    }

    /// The limbs, for writing.
    pub fn limbs_mut(&mut self) -> (r: &mut [M31; 20])
        ensures
            *r == old(self).limbs,
            final(self).limbs == *final(r),
    {
        &mut self.limbs
    }

    /// The limbs, least significant first.
    pub fn limbs(&self) -> (r: &[M31; 20])
        ensures
            r@ == self.limbs@,
    {
        &self.limbs
    }

    /// The limb form of an integer.
    pub fn from_u256(value: &U256) -> (r: P256M31BigInt)
        ensures
            r.canonical(),
            r.spec_value() == value.spec_value(),
    {
        let mut limbs: [M31; 20] = [M31(0);20];
        let mut rest: [u64; 4] = value.to_le_u64s();
        let ghost v = value.spec_value();
        proof {
            lemma_pow0(8192);
            lemma_words_range(rest@);
            assert(limbs@.take(0) =~= Seq::<M31>::empty());
        }
        let mut i: usize = 0;
        while i < 20
            invariant
                i <= 20,
                0 <= v < two_256(),
                forall|k: int| 0 <= k < i ==> (#[trigger] limbs@[k]).0 < 8192,
                v == limbs_value(limbs@.take(i as int)) + words_value(rest@) * pow(8192, i as nat),
            decreases 20 - i,
        {
            let (q, rem) = split_limb(&rest);
            let ghost before = limbs@;
            limbs[i] = M31(rem);
            proof {
                assert(limbs@.take(i + 1) =~= before.take(i as int).push(M31(rem)));
                lemma_limbs_push(before.take(i as int), M31(rem));
                lemma_pow_adds(8192, 1, i as nat);
                lemma_pow1(8192);
                let p = pow(8192, i as nat);
                let qv = words_value(q@);
                assert((8192 * qv + rem) * p == rem * p + qv * (8192 * p)) by (nonlinear_arith);
            }
            rest = q;
            i = i + 1;
        }
        let r = P256M31BigInt { limbs };
        proof {
            assert(limbs@.take(20) =~= limbs@);
            lemma_pow_20();
            lemma_words_range(rest@);
            lemma_limbs_nonneg(limbs@);
            let rv = words_value(rest@);
            assert(rv == 0) by (nonlinear_arith)
                requires
                    rv >= 0,
                    rv * pow(8192, 20) <= v,
                    v < two_256(),
                    pow(8192, 20) > two_256(),
            ;
            assert(rv * pow(8192, 20) == 0) by (nonlinear_arith)
                requires
                    rv == 0,
            ;
            // The top limb carries what is left above nineteen limbs.
            assert(limbs@ =~= limbs@.take(19).push(limbs@[19]));
            lemma_limbs_push(limbs@.take(19), limbs@[19]);
            lemma_limbs_nonneg(limbs@.take(19));
            let top = limbs@[19].0 as int;
            let p19 = pow(8192, 19);
            assert(top < 512) by (nonlinear_arith)
                requires
                    top >= 0,
                    top * p19 <= v,
                    v < two_256(),
                    512 * p19 == two_256(),
                    p19 > 0,
            ;
        }
        r
    }

    /// The integer that the limbs denote, modulo `2^256`.
    pub fn to_u256(&self) -> (r: U256)
        ensures
            r.spec_value() == self.spec_value() % two_256(),
            self.canonical() ==> r.spec_value() == self.spec_value(),
    {
        let mut acc: [u64; 4] = [0u64, 0, 0, 0];
        let mut i: usize = 20;
        proof {
            lemma_small_mod(0, two_256() as nat);
            assert(self.limbs@.skip(20) =~= Seq::<M31>::empty());
        }
        while i > 0
            invariant
                i <= 20,
                words_value(acc@) == limbs_value(self.limbs@.skip(i as int)) % two_256(),
            decreases i,
        {
            let limb: u32 = self.limbs[i - 1].0;
            proof {
                let tail = limbs_value(self.limbs@.skip(i as int));
                assert(self.limbs@.skip(i - 1).skip(1) =~= self.limbs@.skip(i as int));
                assert(self.limbs@.skip(i - 1)[0] == self.limbs@[i - 1]);
                lemma_mul_mod_noop_left(tail, 8192, two_256());
                lemma_add_mod_noop(tail * 8192, limb as int, two_256());
                lemma_add_mod_noop((tail % two_256()) * 8192, limb as int, two_256());
            }
            acc = join_limb(&acc, limb);
            i = i - 1;
        }
        proof {
            assert(self.limbs@.skip(0) =~= self.limbs@);
            if self.canonical() {
                self.lemma_canonical_range();
                lemma_small_mod(self.spec_value() as nat, two_256() as nat);
            }
        }
        U256::from_le_u64s(&acc)
    }

    /// Canonical limbs denote a 256-bit integer.
    pub proof fn lemma_canonical_range(&self)
        requires
            self.canonical(),
        ensures
            0 <= self.spec_value() < two_256(),
    {
        lemma_limbs_nonneg(self.limbs@);
        assert(self.limbs@ =~= self.limbs@.take(19).push(self.limbs@[19]));
        lemma_limbs_push(self.limbs@.take(19), self.limbs@[19]);
        lemma_limbs_bound(self.limbs@.take(19));
        lemma_pow_20();
        let top = self.limbs@[19].0 as int;
        let p19 = pow(8192, 19);
        assert(top * p19 <= 511 * p19) by (nonlinear_arith)
            requires
                top <= 511,
                p19 > 0,
        ;
    }

    /// Whether two integers have the same limbs.
    pub fn same_limbs(&self, other: &P256M31BigInt) -> (r: bool)
        ensures
            r == (self.limbs@ == other.limbs@),
    {
        let mut i: usize = 0;
        while i < 20
            invariant
                i <= 20,
                forall|k: int| 0 <= k < i ==> self.limbs@[k] == other.limbs@[k],
            decreases 20 - i,
        {
            if self.limbs[i].0 != other.limbs[i].0 {
                return false;
            }
            i = i + 1;
        }
        proof {
            assert(self.limbs@ =~= other.limbs@);
        }
        true
    }
}

impl PartialEq for P256M31BigInt {
    fn eq(&self, other: &Self) -> (r: bool) {
        self.same_limbs(other)
    }
}

impl Eq for P256M31BigInt {

}

impl vstd::std_specs::cmp::PartialEqSpecImpl for P256M31BigInt {
    open spec fn obeys_eq_spec() -> bool {
        true
    }

    open spec fn eq_spec(&self, other: &Self) -> bool {
        self.limbs@ == other.limbs@
    }
}

/// All-zero limbs denote zero.
proof fn lemma_zero_limbs(s: Seq<M31>)
    requires
        forall|i: int| 0 <= i < s.len() ==> s[i] == M31(0),
    ensures
        limbs_value(s) == 0,
    decreases s.len(),
{
    if s.len() > 0 {
        assert forall|i: int| 0 <= i < s.skip(1).len() implies s.skip(1)[i] == M31(0) by {
            assert(s.skip(1)[i] == s[i + 1]);
        }
        lemma_zero_limbs(s.skip(1));
    }
}

/// `512 * 2^(13 * 19) = 2^256`, and twenty full limbs exceed 256 bits.
pub proof fn lemma_pow_20()
    ensures
        pow(8192, 19) > 0,
        512 * pow(8192, 19) == two_256(),
        pow(8192, 20) > two_256(),
{
    lemma_pow1(8192);
    reveal_with_fuel(pow, 5);
    let p4 = pow(8192, 4);
    assert(p4 == 0x10_0000_0000_0000int);
    lemma_pow_adds(8192, 4, 4);
    let p8 = pow(8192, 8);
    assert(p8 == 0x100_0000_0000_0000_0000_0000_0000int) by (nonlinear_arith)
        requires
            p8 == p4 * p4,
            p4 == 0x10_0000_0000_0000int,
    ;
    lemma_pow_adds(8192, 8, 8);
    let p16 = pow(8192, 16);
    assert(p16 == 0x1_0000_0000_0000_0000_0000_0000_0000_0000_0000_0000_0000_0000_0000int)
        by (nonlinear_arith)
        requires
            p16 == p8 * p8,
            p8 == 0x100_0000_0000_0000_0000_0000_0000int,
    ;
    let p3 = pow(8192, 3);
    assert(p3 == 0x80_0000_0000int);
    lemma_pow_adds(8192, 16, 3);
    assert(pow(8192, 19) == p16 * p3);
    assert(512 * (p16 * p3) == two_256()) by (nonlinear_arith)
        requires
            p16 == 0x1_0000_0000_0000_0000_0000_0000_0000_0000_0000_0000_0000_0000_0000int,
            p3 == 0x80_0000_0000int,
    ;
    lemma_pow_adds(8192, 19, 1);
}

} // verus!
