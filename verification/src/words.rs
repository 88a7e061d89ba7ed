//! Arithmetic on 256-bit naturals held as four little-endian 64-bit words.
use vstd::prelude::*;

verus! {

/// `2^64`.
pub const WORD_BASE: u128 = 0x1_0000_0000_0000_0000;

/// `2^256`.
pub open spec fn two_256() -> int {
    0x1_0000_0000_0000_0000_0000_0000_0000_0000_0000_0000_0000_0000_0000_0000_0000_0000int
}

/// The natural number that four little-endian words denote.
pub open spec fn words_value(w: Seq<u64>) -> int {
    w[0] + w[1] * 0x1_0000_0000_0000_0000int
        + w[2] * 0x1_0000_0000_0000_0000_0000_0000_0000_0000int
        + w[3] * 0x1_0000_0000_0000_0000_0000_0000_0000_0000_0000_0000_0000_0000int
}

/// Every four-word value lies in `[0, 2^256)`.
pub proof fn lemma_words_range(w: Seq<u64>)
    requires
        w.len() == 4,
    ensures
        0 <= words_value(w) < two_256(),
{
}

/// Four words are determined by their value.
pub proof fn lemma_words_injective(a: Seq<u64>, b: Seq<u64>)
    requires
        a.len() == 4,
        b.len() == 4,
        words_value(a) == words_value(b),
    ensures
        a == b,
{
    assert(a[0] == b[0]);
    assert(a[1] == b[1]);
    assert(a[2] == b[2]);
    assert(a[3] == b[3]);
    assert(a =~= b);
}

/// Whether `a` denotes a smaller number than `b`.
pub fn words_lt(a: &[u64; 4], b: &[u64; 4]) -> (r: bool)
    ensures
        r == (words_value(a@) < words_value(b@)),
{
    if a[3] != b[3] {
        return a[3] < b[3];
    }
    if a[2] != b[2] {
        return a[2] < b[2];
    }
    if a[1] != b[1] {
        return a[1] < b[1];
    }
    a[0] < b[0]
}

/// Whether `a` and `b` denote the same number.
pub fn words_eq(a: &[u64; 4], b: &[u64; 4]) -> (r: bool)
    ensures
        r == (words_value(a@) == words_value(b@)),
        r == (a@ == b@),
{
    let r = a[0] == b[0] && a[1] == b[1] && a[2] == b[2] && a[3] == b[3];
    proof {
        if r {
            assert(a@ =~= b@);
        } else if words_value(a@) == words_value(b@) {
            lemma_words_injective(a@, b@);
        }
    }
    r
}

/// One column of an addition: the low word and the carry out.
fn add_word(a: u64, b: u64, carry: u64) -> (r: (u64, u64))
    requires
        carry <= 1,
    ensures
        r.1 <= 1,
        r.0 + r.1 * 0x1_0000_0000_0000_0000int == a + b + carry,
{
    let s: u128 = a as u128 + b as u128 + carry as u128;
    if s >= WORD_BASE {
        ((s - WORD_BASE) as u64, 1)
    } else {
        (s as u64, 0)
    }
}

/// One column of a subtraction: the low word and the borrow out.
fn sub_word(a: u64, b: u64, borrow: u64) -> (r: (u64, u64))
    requires
        borrow <= 1,
    ensures
        r.1 <= 1,
        r.0 - r.1 * 0x1_0000_0000_0000_0000int == a - b - borrow,
{
    let s: u128 = WORD_BASE + a as u128 - b as u128 - borrow as u128;
    if s >= WORD_BASE {
        ((s - WORD_BASE) as u64, 0)
    } else {
        (s as u64, 1)
    }
}

/// Sum with carry out of the top word.
pub fn words_add(a: &[u64; 4], b: &[u64; 4]) -> (r: ([u64; 4], u64))
    ensures
        r.1 <= 1,
        words_value(r.0@) + r.1 * two_256() == words_value(a@) + words_value(b@),
{
    let (s0, c0) = add_word(a[0], b[0], 0);
    let (s1, c1) = add_word(a[1], b[1], c0);
    let (s2, c2) = add_word(a[2], b[2], c1);
    let (s3, c3) = add_word(a[3], b[3], c2);
    ([s0, s1, s2, s3], c3)
}

/// Difference with borrow out of the top word.
pub fn words_sub(a: &[u64; 4], b: &[u64; 4]) -> (r: ([u64; 4], u64))
    ensures
        r.1 <= 1,
        words_value(r.0@) - r.1 * two_256() == words_value(a@) - words_value(b@),
{
    let (s0, c0) = sub_word(a[0], b[0], 0);
    let (s1, c1) = sub_word(a[1], b[1], c0);
    let (s2, c2) = sub_word(a[2], b[2], c1);
    let (s3, c3) = sub_word(a[3], b[3], c2);
    ([s0, s1, s2, s3], c3)
}

/// Quotient and remainder of a division by two.
pub fn words_half(a: &[u64; 4]) -> (r: ([u64; 4], u64))
    ensures
        r.1 <= 1,
        words_value(a@) == 2 * words_value(r.0@) + r.1,
{
    let top: u64 = 0x8000_0000_0000_0000;
    let q3: u64 = a[3] / 2;
    let r3: u64 = a[3] % 2;
    let q2: u64 = a[2] / 2 + (if r3 == 1 { top } else { 0 });
    let r2: u64 = a[2] % 2;
    let q1: u64 = a[1] / 2 + (if r2 == 1 { top } else { 0 });
    let r1: u64 = a[1] % 2;
    let q0: u64 = a[0] / 2 + (if r1 == 1 { top } else { 0 });
    let r0: u64 = a[0] % 2;
    ([q0, q1, q2, q3], r0)
}

/// `(a + b) mod m` for operands that are already reduced.
pub fn mod_add(a: &[u64; 4], b: &[u64; 4], m: &[u64; 4]) -> (r: [u64; 4])
    requires
        words_value(a@) < words_value(m@),
        words_value(b@) < words_value(m@),
    ensures
        words_value(r@) == (words_value(a@) + words_value(b@)) % words_value(m@),
        words_value(r@) < words_value(m@),
{
    let (s, carry) = words_add(a, b);
    let ghost sum = words_value(a@) + words_value(b@);
    let ghost mv = words_value(m@);
    proof {
        lemma_words_range(a@);
        lemma_words_range(b@);
        lemma_words_range(s@);
        lemma_words_range(m@);
    }
    if carry == 0 && words_lt(&s, m) {
        proof {
            vstd::arithmetic::div_mod::lemma_fundamental_div_mod_converse(sum, mv, 0, sum);
        }
        s
    } else {
        let (d, borrow) = words_sub(&s, m);
        proof {
            lemma_words_range(d@);
            vstd::arithmetic::div_mod::lemma_fundamental_div_mod_converse(sum, mv, 1, sum - mv);
        }
        d
    }
}

/// `(a - b) mod m` for operands that are already reduced.
pub fn mod_sub(a: &[u64; 4], b: &[u64; 4], m: &[u64; 4]) -> (r: [u64; 4])
    requires
        words_value(a@) < words_value(m@),
        words_value(b@) < words_value(m@),
    ensures
        words_value(r@) == (words_value(a@) - words_value(b@)) % words_value(m@),
        words_value(r@) < words_value(m@),
{
    let (d, borrow) = words_sub(a, b);
    let ghost diff = words_value(a@) - words_value(b@);
    let ghost mv = words_value(m@);
    proof {
        lemma_words_range(a@);
        lemma_words_range(b@);
        lemma_words_range(d@);
        lemma_words_range(m@);
    }
    if borrow == 0 {
        proof {
            vstd::arithmetic::div_mod::lemma_fundamental_div_mod_converse(diff, mv, 0, diff);
        }
        d
    } else {
        let (s, carry) = words_add(&d, m);
        proof {
            lemma_words_range(s@);
            vstd::arithmetic::div_mod::lemma_fundamental_div_mod_converse(
                diff,
                mv,
                -1,
                diff + mv,
            );
        }
        s
    }
}

/// `a mod m` by shift-and-subtract: `m` is doubled while it fits below `a`,
/// and then subtracted on the way back down.
pub fn mod_reduce(a: &[u64; 4], m: &[u64; 4]) -> (r: [u64; 4])
    requires
        0 < words_value(m@),
    ensures
        words_value(r@) == words_value(a@) % words_value(m@),
        0 <= words_value(r@) < words_value(m@),
{
    let ghost av = words_value(a@);
    let ghost mv = words_value(m@);
    let mut t: [u64; 4] = *m;
    let mut halves: u64 = 0;
    let ghost mut scale: int = 1;
    proof {
        lemma_words_range(a@);
        lemma_words_range(m@);
        vstd::arithmetic::power2::lemma2_to64();
    }
    let (half_a, odd) = words_half(a);
    while !words_lt(&half_a, &t)
        invariant
            0 < mv == words_value(m@),
            av == words_value(a@),
            av == 2 * words_value(half_a@) + odd,
            odd <= 1,
            1 <= scale,
            words_value(t@) == mv * scale,
            words_value(t@) >= scale,
            words_value(t@) <= two_256() - 1,
            av < two_256(),
            scale == vstd::arithmetic::power2::pow2(halves as nat),
            halves < 256,
        decreases two_256() - words_value(t@),
    {
        let ghost before = words_value(t@);
        proof {
            lemma_words_range(t@);
        }
        let (d, carry) = words_add(&t, &t);
        proof {
            lemma_words_range(d@);
            assert(2 * before <= av);
            assert(mv * (2 * scale) == 2 * (mv * scale)) by (nonlinear_arith);
            vstd::arithmetic::power2::lemma_pow2_unfold((halves + 1) as nat);
            lemma_pow2_below_256((halves + 1) as nat, 2 * scale);
            scale = 2 * scale;
        }
        t = d;
        halves = halves + 1;
    }
    let mut rest: [u64; 4] = *a;
    let ghost mut q: int = 0;
    loop
        invariant
            0 < mv == words_value(m@),
            av == words_value(a@),
            av == words_value(rest@) + q * mv,
            0 <= words_value(rest@) < 2 * words_value(t@),
            words_value(t@) == mv * scale,
            scale == vstd::arithmetic::power2::pow2(halves as nat),
        decreases halves,
    {
        if !words_lt(&rest, &t) {
            let (d, borrow) = words_sub(&rest, &t);
            proof {
                lemma_words_range(d@);
                lemma_words_range(rest@);
                lemma_words_range(t@);
                assert((q + scale) * mv == q * mv + mv * scale) by (nonlinear_arith);
                q = q + scale;
            }
            rest = d;
        }
        if halves == 0 {
            proof {
                vstd::arithmetic::power2::lemma2_to64();
                assert(mv * 1 == mv);
                lemma_words_range(rest@);
                vstd::arithmetic::div_mod::lemma_fundamental_div_mod_converse(
                    av,
                    mv,
                    q,
                    words_value(rest@),
                );
            }
            return rest;
        }
        let (h, bit) = words_half(&t);
        proof {
            vstd::arithmetic::power2::lemma_pow2_unfold(halves as nat);
            let smaller = vstd::arithmetic::power2::pow2((halves - 1) as nat) as int;
            assert(mv * (2 * smaller) == 2 * (mv * smaller)) by (nonlinear_arith);
            scale = smaller;
        }
        t = h;
        halves = halves - 1;
    }
}

/// A power of two below `2^256` has an exponent below 256.
proof fn lemma_pow2_below_256(e: nat, v: int)
    requires
        v == vstd::arithmetic::power2::pow2(e),
        v < two_256(),
    ensures
        e < 256,
{
    if e >= 256 {
        assert(vstd::arithmetic::power2::pow2(256) == two_256()) by {
            vstd::arithmetic::power2::lemma2_to64();
            vstd::arithmetic::power2::lemma_pow2_adds(64, 64);
            vstd::arithmetic::power2::lemma_pow2_adds(128, 128);
            let a = vstd::arithmetic::power2::pow2(64) as int;
            let b = vstd::arithmetic::power2::pow2(128) as int;
            assert(a * a == 0x1_0000_0000_0000_0000_0000_0000_0000_0000int) by (nonlinear_arith)
                requires
                    a == 0x1_0000_0000_0000_0000int,
            ;
            assert(b * b == two_256()) by (nonlinear_arith)
                requires
                    b == 0x1_0000_0000_0000_0000_0000_0000_0000_0000int,
            ;
        }
        if e > 256 {
            vstd::arithmetic::power2::lemma_pow2_strictly_increases(256, e);
        }
    }
}

} // verus!
