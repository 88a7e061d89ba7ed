//! Affine arithmetic on P-256: modular inversion, point addition and doubling,
//! and scalar multiplication.
use crate::constants::{P256_B, P256_GX, P256_GY, P256_MODULUS, P256_ORDER};
use crate::ecdsa::add_optional_points;
use crate::field_ops::{add_mod, mul_mod, sub_mod};
use crate::types::{bits_value, lemma_bits_nonneg, lemma_bits_push, AffinePoint, U256};
use crate::words::{
    lemma_words_range, mod_add, mod_reduce, mod_sub, words_add, words_eq, words_half, words_lt,
    words_sub, words_value,
};
use vstd::arithmetic::div_mod::{
    lemma_add_mod_noop, lemma_fundamental_div_mod, lemma_mod_bound, lemma_mod_multiples_basic,
    lemma_mod_twice, lemma_mul_mod_noop_left, lemma_mul_mod_noop_right, lemma_small_mod,
    lemma_sub_mod_noop,
};
use vstd::prelude::*;

verus! {

/// The field modulus `p`.
pub open spec fn field_p() -> int {
    0xFFFFFFFF_00000001_00000000_00000000_00000000_FFFFFFFF_FFFFFFFF_FFFFFFFFint
}

/// The group order `n`.
pub open spec fn group_n() -> int {
    0xFFFFFFFF_00000000_FFFFFFFF_FFFFFFFF_BCE6FAAD_A7179E84_F3B9CAC2_FC632551int
}

/// The curve coefficient `b`.
pub open spec fn curve_b() -> int {
    0x5AC635D8_AA3A93E7_B3EBBD55_769886BC_651D06B0_CC53B0F6_3BCE3C3E_27D2604Bint
}

/// The generator.
pub open spec fn generator() -> (int, int) {
    (
        0x6B17D1F2_E12C4247_F8BCE6E5_63A440F2_77037D81_2DEB33A0_F4A13945_D898C296int,
        0x4FE342E2_FE1A7F9B_8EE7EB4A_7C0F9E16_2BCE3357_6B315ECE_CBB64068_37BF51F5int,
    )
}

/// The word constants denote the domain parameters.
pub proof fn lemma_constants()
    ensures
        words_value(P256_MODULUS@) == field_p(),
        words_value(P256_ORDER@) == group_n(),
        words_value(P256_B@) == curve_b(),
        words_value(P256_GX@) == generator().0,
        words_value(P256_GY@) == generator().1,
{
}

/// `b` is an inverse of `a` modulo `m`.
pub open spec fn is_mod_inverse(a: int, b: int, m: int) -> bool {
    0 <= b < m && (a * b) % m == 1
}

/// The inverse of `a` modulo `m`, or zero where `a` has none.
pub open spec fn mod_inv(a: int, m: int) -> int {
    if exists|b: int| is_mod_inverse(a, b, m) {
        choose|b: int| is_mod_inverse(a, b, m)
    } else {
        0
    }
}

/// An inverse modulo `m` is unique.
pub proof fn lemma_mod_inverse_unique(a: int, b: int, m: int)
    requires
        is_mod_inverse(a, b, m),
    ensures
        mod_inv(a, m) == b,
{
    let c = mod_inv(a, m);
    assert(is_mod_inverse(a, c, m));
    // c = c (a b) = (c a) b = b, modulo m.
    assert(c * (a * b) == (a * c) * b) by (nonlinear_arith);
    lemma_mul_mod_noop_right(c, a * b, m);
    lemma_mul_mod_noop_left(a * c, b, m);
    assert(c * 1 == c && 1 * b == b);
    lemma_small_mod(c as nat, m as nat);
    lemma_small_mod(b as nat, m as nat);
}

/// A common divisor above one rules an inverse out.
proof fn lemma_no_inverse(a: int, m: int, d: int)
    requires
        0 < m,
        1 < d,
        a % d == 0,
        m % d == 0,
    ensures
        mod_inv(a, m) == 0,
{
    assert forall|b: int| !is_mod_inverse(a, b, m) by {
        if is_mod_inverse(a, b, m) {
            let ka = a / d;
            let km = m / d;
            let q = (a * b) / m;
            lemma_fundamental_div_mod(a, d);
            lemma_fundamental_div_mod(m, d);
            lemma_fundamental_div_mod(a * b, m);
            let x = ka * b - km * q;
            assert(d * x == 1) by (nonlinear_arith)
                requires
                    a == d * ka,
                    m == d * km,
                    a * b == m * q + 1,
                    x == ka * b - km * q,
            ;
            lemma_mod_multiples_basic(x, d);
            assert(x * d == d * x) by (nonlinear_arith);
            lemma_small_mod(1, d as nat);
        }
    }
}

/// `x` and `y` are congruent modulo `m`.
spec fn congruent(x: int, y: int, m: int) -> bool {
    x % m == y % m
}

/// Every common divisor of `u` and `v` divides `a` and `m`.
spec fn divisors_carry(u: int, v: int, a: int, m: int) -> bool {
    forall|d: int| #![trigger u % d] 0 < d && u % d == 0 && v % d == 0 ==> a % d == 0 && m % d == 0
}

/// Subtracting a multiple of `v` from `u` keeps the common divisors.
proof fn lemma_divisors_step(u: int, v: int, s: int, a: int, m: int)
    requires
        divisors_carry(u, v, a, m),
    ensures
        divisors_carry(u - v * s, v, a, m),
{
    let w = u - v * s;
    assert forall|d: int| #![trigger w % d] 0 < d && w % d == 0 && v % d == 0 implies a % d == 0 && m
        % d == 0 by {
        lemma_fundamental_div_mod(w, d);
        lemma_fundamental_div_mod(v, d);
        let k = w / d + (v / d) * s;
        assert(u == k * d) by (nonlinear_arith)
            requires
                u == w + v * s,
                w == d * (w / d),
                v == d * (v / d),
                k == w / d + (v / d) * s,
        ;
        lemma_mod_multiples_basic(k, d);
        assert(u % d == 0);
    }
}

/// Swapping keeps the common divisors.
proof fn lemma_divisors_swap(u: int, v: int, a: int, m: int)
    requires
        divisors_carry(u, v, a, m),
    ensures
        divisors_carry(v, u, a, m),
{
    assert forall|d: int| #![trigger v % d] 0 < d && v % d == 0 && u % d == 0 implies a % d == 0 && m
        % d == 0 by {
        assert(u % d == 0);
    }
}

/// The modular inverse by a shift-and-subtract Euclidean descent; zero where
/// there is none.
pub fn mod_inverse(value: &U256, modulus: &U256) -> (r: U256)
    requires
        0 < modulus.spec_value(),
    ensures
        r.spec_value() == mod_inv(value.spec_value(), modulus.spec_value()),
        0 <= r.spec_value() < modulus.spec_value(),
{
    let ghost av = value.spec_value();
    let ghost mv = modulus.spec_value();
    let m: [u64; 4] = modulus.to_le_u64s();
    let zero: [u64; 4] = [0u64, 0, 0, 0];
    let one: [u64; 4] = [1u64, 0, 0, 0];
    let mut u: [u64; 4] = m;
    let mut v: [u64; 4] = mod_reduce(&value.to_le_u64s(), &m);
    let mut xu: [u64; 4] = zero;
    let mut xv: [u64; 4] = mod_reduce(&one, &m);
    proof {
        let vv = av % mv;
        vstd::arithmetic::div_mod::lemma_mod_self_0(mv);
        lemma_small_mod(0, mv as nat);
        assert(av * 0 == 0);
        lemma_mod_twice(av, mv);
        lemma_mul_mod_noop_right(av, 1, mv);
        assert(av * 1 == av);
        assert forall|d: int| #![trigger mv % d] 0 < d && mv % d == 0 && vv % d == 0 implies av % d
            == 0 && mv % d == 0 by {
            let q = av / mv;
            lemma_fundamental_div_mod(av, mv);
            lemma_fundamental_div_mod(mv, d);
            lemma_fundamental_div_mod(vv, d);
            let k = (mv / d) * q + vv / d;
            assert(av == k * d) by (nonlinear_arith)
                requires
                    av == mv * q + vv,
                    mv == d * (mv / d),
                    vv == d * (vv / d),
                    k == (mv / d) * q + vv / d,
            ;
            lemma_mod_multiples_basic(k, d);
        }
    }
    while !words_eq(&v, &zero)
        invariant
            mv == words_value(m@),
            0 < mv,
            words_value(zero@) == 0,
            words_value(u@) > 0 || words_value(v@) > 0,
            0 <= words_value(xu@) < mv,
            0 <= words_value(xv@) < mv,
            congruent(av * words_value(xu@), words_value(u@), mv),
            congruent(av * words_value(xv@), words_value(v@), mv),
            divisors_carry(words_value(u@), words_value(v@), av, mv),
        decreases words_value(u@) + words_value(v@), words_value(v@),
    {
        proof {
            lemma_words_range(u@);
            lemma_words_range(v@);
        }
        if words_lt(&u, &v) {
            proof {
                lemma_divisors_swap(words_value(u@), words_value(v@), av, mv);
            }
            let tu: [u64; 4] = u;
            u = v;
            v = tu;
            let tx: [u64; 4] = xu;
            xu = xv;
            xv = tx;
        }
        if !words_eq(&v, &zero) {
            let ghost vv = words_value(v@);
            let ghost uv = words_value(u@);
            let (t, y) = largest_shift(&u, &v, &xv, &m, Ghost(av));
            let ghost s = choose|s: int| 1 <= s && words_value(t@) == #[trigger] (vv * s);
            let (d, borrow) = words_sub(&u, &t);
            proof {
                lemma_words_range(d@);
                lemma_words_range(t@);
                assert(vv * s >= vv) by (nonlinear_arith)
                    requires
                        s >= 1,
                        vv >= 0,
                ;
                lemma_divisors_step(uv, vv, s, av, mv);
                // a (xu - y) = u - t, modulo m.
                let xuv = words_value(xu@);
                let yv = words_value(y@);
                lemma_sub_mod_noop(av * xuv, av * yv, mv);
                lemma_sub_mod_noop(uv, words_value(t@), mv);
                assert(av * (xuv - yv) == av * xuv - av * yv) by (nonlinear_arith);
                lemma_mul_mod_noop_right(av, xuv - yv, mv);
            }
            xu = mod_sub(&xu, &y, &m);
            u = d;
            proof {
                lemma_words_range(xu@);
            }
        }
    }
    if words_eq(&u, &one) {
        proof {
            let b = words_value(xu@);
            assert(words_value(u@) == 1);
            if mv == 1 {
                assert(b == 0);
                assert forall|c: int| !is_mod_inverse(av, c, mv) by {
                    lemma_mod_bound(av * c, 1);
                }
            } else {
                lemma_small_mod(1, mv as nat);
                assert(is_mod_inverse(av, b, mv));
                lemma_mod_inverse_unique(av, b, mv);
            }
        }
        U256::from_le_u64s(&xu)
    } else {
        proof {
            let g = words_value(u@);
            lemma_words_range(u@);
            vstd::arithmetic::div_mod::lemma_mod_self_0(g);
            lemma_small_mod(0, g as nat);
            assert(g % g == 0);
            lemma_no_inverse(av, mv, g);
        }
        U256::from_le_u64s(&zero)
    }
}

/// The largest `v * 2^k` not above `u`, together with `x * 2^k mod m`.
fn largest_shift(
    u: &[u64; 4],
    v: &[u64; 4],
    x: &[u64; 4],
    m: &[u64; 4],
    Ghost(a): Ghost<int>,
) -> (r: ([u64; 4], [u64; 4]))
    requires
        0 < words_value(v@) <= words_value(u@),
        0 <= words_value(x@) < words_value(m@),
        congruent(a * words_value(x@), words_value(v@), words_value(m@)),
    ensures
        words_value(r.0@) <= words_value(u@),
        exists|s: int| 1 <= s && words_value(r.0@) == #[trigger] (words_value(v@) * s),
        0 <= words_value(r.1@) < words_value(m@),
        congruent(a * words_value(r.1@), words_value(r.0@), words_value(m@)),
{
    let ghost mv = words_value(m@);
    let ghost vv = words_value(v@);
    let (half, odd) = words_half(u);
    let mut t: [u64; 4] = *v;
    let mut y: [u64; 4] = *x;
    let ghost mut s: int = 1;
    assert(vv * 1 == vv);
    while !words_lt(&half, &t)
        invariant
            mv == words_value(m@),
            vv == words_value(v@),
            0 < vv,
            words_value(u@) == 2 * words_value(half@) + odd,
            odd <= 1,
            1 <= s,
            words_value(t@) == vv * s,
            0 < words_value(t@) <= words_value(u@),
            0 <= words_value(y@) < mv,
            congruent(a * words_value(y@), words_value(t@), mv),
        decreases words_value(u@) - words_value(t@),
    {
        let (d, carry) = words_add(&t, &t);
        proof {
            lemma_words_range(d@);
            lemma_words_range(t@);
            lemma_words_range(u@);
            let yv = words_value(y@);
            let tv = words_value(t@);
            assert(vv * (2 * s) == 2 * (vv * s)) by (nonlinear_arith);
            lemma_add_mod_noop(a * yv, a * yv, mv);
            lemma_add_mod_noop(tv, tv, mv);
            assert(a * (yv + yv) == a * yv + a * yv) by (nonlinear_arith);
            lemma_mul_mod_noop_right(a, yv + yv, mv);
            s = 2 * s;
        }
        y = mod_add(&y, &y, m);
        t = d;
        proof {
            lemma_words_range(y@);
        }
    }
    assert(words_value(t@) == vv * s);
    (t, y)
}

/// Third point of the line through `(x1, y1)` with slope `lambda` that also
/// meets the curve above `x2`, reflected.
pub open spec fn chord_output(lambda: int, x1: int, y1: int, x2: int) -> (int, int) {
    let x3 = (lambda * lambda - x1 - x2) % field_p();
    (x3, (lambda * (x1 - x3) - y1) % field_p())
}

/// Slope of the tangent at `a`: `(3x^2 - 3) / 2y`.
pub open spec fn tangent_slope(a: (int, int)) -> int {
    ((3 * (a.0 * a.0) - 3) * mod_inv((a.1 + a.1) % field_p(), field_p())) % field_p()
}

/// Slope of the chord through `a` and `b`: `(yb - ya) / (xb - xa)`.
pub open spec fn chord_slope(a: (int, int), b: (int, int)) -> int {
    ((b.1 - a.1) * mod_inv((b.0 - a.0) % field_p(), field_p())) % field_p()
}

/// The affine doubling formula.
pub open spec fn double_formula(a: (int, int)) -> (int, int) {
    chord_output(tangent_slope(a), a.0, a.1, a.0)
}

/// The affine addition formula for points with different x-coordinates.
pub open spec fn add_formula(a: (int, int), b: (int, int)) -> (int, int) {
    chord_output(chord_slope(a, b), a.0, a.1, b.0)
}

/// Two points are additive inverses: same x, and y-coordinates that cancel.
pub open spec fn additive_inverses(a: (int, int), b: (int, int)) -> bool {
    a.0 == b.0 && (a.1 + b.1) % field_p() == 0
}

/// The reflection `(x, -y)`.
pub open spec fn reflected(a: (int, int)) -> (int, int) {
    (a.0, (field_p() - a.1) % field_p())
}

/// The group law; `None` is the point at infinity.
pub open spec fn group_add(a: Option<(int, int)>, b: Option<(int, int)>) -> Option<(int, int)> {
    match (a, b) {
        (None, None) => None,
        (Some(p), None) => Some(p),
        (None, Some(p)) => Some(p),
        (Some(p), Some(q)) => if p == q {
            Some(double_formula(p))
        } else if additive_inverses(p, q) {
            None
        } else {
            Some(add_formula(p, q))
        },
    }
}

/// The multiple `k * a`: doubling the multiple by `k / 2`, and adding `a` once
/// more where `k` is odd.
pub open spec fn group_mul(k: int, a: (int, int)) -> Option<(int, int)>
    decreases k,
{
    if k <= 0 {
        None
    } else {
        let half = group_mul(k / 2, a);
        let twice = group_add(half, half);
        if k % 2 == 1 {
            group_add(twice, Some(a))
        } else {
            twice
        }
    }
}

/// The coordinates of an optional point.
pub open spec fn optional_xy(p: Option<AffinePoint>) -> Option<(int, int)> {
    match p {
        None => None,
        Some(q) => Some(q.spec_xy()),
    }
}

/// The outcome of a point operation on finite points.
#[derive(Clone, Copy, Debug)]
pub struct PointOpWitness {
    pub output: AffinePoint,
}

/// Reducing the minuend first does not change a difference.
proof fn lemma_sub_left(a: int, b: int, m: int)
    requires
        0 < m,
    ensures
        (a % m - b) % m == (a - b) % m,
{
    lemma_sub_mod_noop(a, b, m);
    lemma_sub_mod_noop(a % m, b, m);
    lemma_mod_twice(a, m);
}

/// `chord_output` on field elements.
fn chord(lambda: &U256, x1: &U256, y1: &U256, x2: &U256, p: &U256) -> (r: AffinePoint)
    requires
        p.spec_value() == field_p(),
    ensures
        r.spec_xy() == chord_output(
            lambda.spec_value(),
            x1.spec_value(),
            y1.spec_value(),
            x2.spec_value(),
        ),
{
    let l2: U256 = mul_mod(lambda, lambda, p);
    let t: U256 = sub_mod(&l2, x1, p);
    let x3: U256 = sub_mod(&t, x2, p);
    let d: U256 = sub_mod(x1, &x3, p);
    let e: U256 = mul_mod(lambda, &d, p);
    let y3: U256 = sub_mod(&e, y1, p);
    proof {
        let l = lambda.spec_value();
        let m = field_p();
        lemma_sub_left(l * l, x1.spec_value(), m);
        lemma_sub_left(l * l - x1.spec_value(), x2.spec_value(), m);
        lemma_mul_mod_noop_right(l, x1.spec_value() - x3.spec_value(), m);
        lemma_sub_left(l * (x1.spec_value() - x3.spec_value()), y1.spec_value(), m);
    }
    AffinePoint { x: x3, y: y3 }
}

/// Doubles a finite point by the tangent formula.
pub fn point_double(point: &AffinePoint) -> (r: PointOpWitness)
    ensures
        r.output.spec_xy() == double_formula(point.spec_xy()),
{
    let p: U256 = U256::from_le_u64s(&P256_MODULUS);
    let three: U256 = U256::from_le_u64s(&[3u64, 0, 0, 0]);
    proof {
        lemma_constants();
    }
    let x2: U256 = mul_mod(&point.x, &point.x, &p);
    let three_x2: U256 = mul_mod(&three, &x2, &p);
    let numerator: U256 = sub_mod(&three_x2, &three, &p);
    let denominator: U256 = add_mod(&point.y, &point.y, &p);
    let inverse: U256 = mod_inverse(&denominator, &p);
    let lambda: U256 = mul_mod(&numerator, &inverse, &p);
    proof {
        let x = point.x.spec_value();
        let m = field_p();
        lemma_mul_mod_noop_right(3, x * x, m);
        lemma_sub_left(3 * (x * x), 3, m);
        lemma_mul_mod_noop_left(3 * (x * x) - 3, inverse.spec_value(), m);
    }
    PointOpWitness { output: chord(&lambda, &point.x, &point.y, &point.x, &p) }
}

/// Adds two finite points with different x-coordinates by the chord formula.
pub fn point_add(lhs: &AffinePoint, rhs: &AffinePoint) -> (r: PointOpWitness)
    ensures
        r.output.spec_xy() == add_formula(lhs.spec_xy(), rhs.spec_xy()),
{
    let p: U256 = U256::from_le_u64s(&P256_MODULUS);
    proof {
        lemma_constants();
    }
    let numerator: U256 = sub_mod(&rhs.y, &lhs.y, &p);
    let denominator: U256 = sub_mod(&rhs.x, &lhs.x, &p);
    let inverse: U256 = mod_inverse(&denominator, &p);
    let lambda: U256 = mul_mod(&numerator, &inverse, &p);
    proof {
        lemma_mul_mod_noop_left(
            rhs.y.spec_value() - lhs.y.spec_value(),
            inverse.spec_value(),
            field_p(),
        );
    }
    PointOpWitness { output: chord(&lambda, &lhs.x, &lhs.y, &rhs.x, &p) }
}

/// The multiple `scalar * point`, or `None` for the point at infinity.
pub fn scalar_mul(scalar: &U256, point: &AffinePoint) -> (r: Option<AffinePoint>)
    ensures
        optional_xy(r) == group_mul(scalar.spec_value(), point.spec_xy()),
{
    let bits: Vec<bool> = scalar.bits_msb_first();
    let mut acc: Option<AffinePoint> = None;
    proof {
        assert(bits@.take(0) =~= Seq::<bool>::empty());
    }
    let mut i: usize = 0;
    while i < 256
        invariant
            i <= 256,
            bits@.len() == 256,
            optional_xy(acc) == group_mul(bits_value(bits@.take(i as int)), point.spec_xy()),
        decreases 256 - i,
    {
        let ghost v = bits_value(bits@.take(i as int));
        let ghost before = acc;
        proof {
            lemma_bits_nonneg(bits@.take(i as int));
            assert(bits@.take(i + 1) =~= bits@.take(i as int).push(bits@[i as int]));
            lemma_bits_push(bits@.take(i as int), bits@[i as int]);
            let w = bits_value(bits@.take(i + 1));
            assert(w / 2 == v);
            if w == 0 {
                assert(group_mul(v, point.spec_xy()) is None);
            }
        }
        acc = add_optional_points(acc, acc);
        if bits[i] {
            acc = add_optional_points(acc, Some(*point));
        }
        i = i + 1;
    }
    proof {
        assert(bits@.take(256) =~= bits@);
    }
    acc
}

/// The formulas give reduced coordinates.
pub proof fn lemma_formula_reduced(lambda: int, x1: int, y1: int, x2: int)
    ensures
        0 <= chord_output(lambda, x1, y1, x2).0 < field_p(),
        0 <= chord_output(lambda, x1, y1, x2).1 < field_p(),
{
    lemma_mod_bound(lambda * lambda - x1 - x2, field_p());
    let x3 = (lambda * lambda - x1 - x2) % field_p();
    lemma_mod_bound(lambda * (x1 - x3) - y1, field_p());
}

/// Both coordinates of a point, where it is finite, are field elements.
pub open spec fn reduced_point(a: Option<(int, int)>) -> bool {
    match a {
        None => true,
        Some(p) => 0 <= p.0 < field_p() && 0 <= p.1 < field_p(),
    }
}

/// Law: the group law keeps coordinates reduced.
pub proof fn law_group_add_reduced(a: Option<(int, int)>, b: Option<(int, int)>)
    requires
        reduced_point(a),
        reduced_point(b),
    ensures
        reduced_point(group_add(a, b)),
{
    if let (Some(p), Some(q)) = (a, b) {
        lemma_formula_reduced(tangent_slope(p), p.0, p.1, p.0);
        lemma_formula_reduced(chord_slope(p, q), p.0, p.1, q.0);
    }
}

/// Law: multiples of a reduced point have reduced coordinates.
pub proof fn law_group_mul_reduced(k: int, a: (int, int))
    requires
        reduced_point(Some(a)),
    ensures
        reduced_point(group_mul(k, a)),
    decreases k,
{
    if k > 0 {
        law_group_mul_reduced(k / 2, a);
        let half = group_mul(k / 2, a);
        law_group_add_reduced(half, half);
        law_group_add_reduced(group_add(half, half), Some(a));
    }
}

/// Law: infinity is neutral, a point and its reflection cancel, and adding a
/// point to itself is doubling.
pub proof fn law_group_add_cases(a: (int, int), b: (int, int))
    ensures
        group_add(None, Some(a)) == Some(a),
        group_add(Some(a), None) == Some(a),
        group_add(Some(a), Some(a)) == Some(double_formula(a)),
        a != b && additive_inverses(a, b) ==> group_add(Some(a), Some(b)) is None,
{
}

} // verus!
