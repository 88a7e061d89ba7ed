//! The cubic `x^3 - 3x + b` of the curve has no root modulo `p`, so no point of
//! the curve has a y-coordinate of zero.
pub mod powers;

use crate::curve::{curve_b, field_p};
use crate::primes::fermat::law_fermat;
use vstd::arithmetic::div_mod::{
    lemma_fundamental_div_mod, lemma_mod_multiples_basic, lemma_mul_mod_noop_left,
    lemma_small_mod,
};
use vstd::arithmetic::power::{lemma_pow1, lemma_pow_adds, pow};
use vstd::prelude::*;

verus! {

/// `r` is a root of the cubic.
pub open spec fn root(r: int) -> bool {
    (r * (r * r) - 3 * r + curve_b()) % field_p() == 0
}

/// At `r`, the power `e` is `c0 + c1 r + c2 r^2`.
#[verifier::opaque]
pub open spec fn reduces(r: int, e: nat, c0: int, c1: int, c2: int) -> bool {
    (pow(r, e) - (c0 + c1 * r + c2 * (r * r))) % field_p() == 0
}

/// The first power.
pub proof fn lemma_reduces_first(r: int)
    ensures
        reduces(r, 1, 0, 1, 0),
{
    reveal(reduces);
    lemma_pow1(r);
    assert(0 * (r * r) == 0) by (nonlinear_arith);
    lemma_small_mod(0, field_p() as nat);
}

/// Doubles the exponent. Each coefficient of the square is a multiple of `p`
/// and its remainder.
pub proof fn lemma_reduces_square(
    r: int,
    e: nat,
    p: int,
    b: int,
    c0: int,
    c1: int,
    c2: int,
    k0: int,
    d0: int,
    k1: int,
    d1: int,
    k2: int,
    d2: int,
) -> (f: nat)
    requires
        root(r),
        p == field_p(),
        b == curve_b(),
        reduces(r, e, c0, c1, c2),
        c0 * c0 - b * (2 * (c1 * c2)) == k0 * p + d0,
        2 * (c0 * c1) + 6 * (c1 * c2) - b * (c2 * c2) == k1 * p + d1,
        2 * (c0 * c2) + c1 * c1 + 3 * (c2 * c2) == k2 * p + d2,
    ensures
        f == 2 * e,
        reduces(r, f, d0, d1, d2),
{
    reveal(reduces);
    let s = r * r;
    let v = c0 + c1 * r + c2 * s;
    let q = pow(r, e);
    lemma_fundamental_div_mod(q - v, p);
    let m = (q - v) / p;
    lemma_fundamental_div_mod(r * s - 3 * r + b, p);
    let t = (r * s - 3 * r + b) / p;
    let (g, h) = (2 * (c1 * c2), c2 * c2);
    let (e0, e1, e2) = (c0 * c0, 2 * (c0 * c1), 2 * (c0 * c2) + c1 * c1);
    let cube = r * s;
    // r^4 = r (r^3).
    assert(s * s == r * cube) by (nonlinear_arith)
        requires
            s == r * r,
            cube == r * s,
    ;
    assert(v * v == e0 + e1 * r + e2 * s + g * cube + h * (s * s)) by {
        lemma_square_of_sum(c0, c1, c2, r, s, cube);
    }
    assert(cube == 3 * r - b + p * t);
    let fourth = s * s;
    assert(fourth == 3 * s - b * r + p * (t * r)) by (nonlinear_arith)
        requires
            fourth == r * cube,
            cube == 3 * r - b + p * t,
            s == r * r,
    ;
    assert(g * cube == (3 * g) * r - b * g + p * (g * t)) by (nonlinear_arith)
        requires
            cube == 3 * r - b + p * t,
    ;
    assert(h * fourth == (3 * h) * s - (b * h) * r + p * (h * (t * r))) by (nonlinear_arith)
        requires
            fourth == 3 * s - b * r + p * (t * r),
    ;
    // The three coefficients.
    assert(v * v == (e0 - b * g) + (e1 + 3 * g - b * h) * r + (e2 + 3 * h) * s + p * (g * t)
        + p * (h * (t * r))) by (nonlinear_arith)
        requires
            v * v == e0 + e1 * r + e2 * s + ((3 * g) * r - b * g + p * (g * t)) + ((3 * h) * s
                - (b * h) * r + p * (h * (t * r))),
    ;
    let (n1, n2) = (e1 + 3 * g - b * h, e2 + 3 * h);
    assert(n1 * r == p * (k1 * r) + d1 * r) by (nonlinear_arith)
        requires
            n1 == k1 * p + d1,
    ;
    assert(n2 * s == p * (k2 * s) + d2 * s) by (nonlinear_arith)
        requires
            n2 == k2 * p + d2,
    ;
    let w = k0 + k1 * r + k2 * s + g * t + h * (t * r) + 2 * (v * m) + p * (m * m);
    assert(q * q == v * v + p * (2 * (v * m)) + p * (p * (m * m))) by (nonlinear_arith)
        requires
            q == v + p * m,
    ;
    assert(p * w == p * k0 + p * (k1 * r) + p * (k2 * s) + p * (g * t) + p * (h * (t * r)) + p * (2
        * (v * m)) + p * (p * (m * m))) by (nonlinear_arith)
        requires
            w == k0 + k1 * r + k2 * s + g * t + h * (t * r) + 2 * (v * m) + p * (m * m),
    ;
    assert(k0 * p == p * k0) by (nonlinear_arith);
    lemma_pow_adds(r, e, e);
    assert(pow(r, e + e) - (d0 + d1 * r + d2 * s) == p * w);
    lemma_mod_multiples_basic(w, p);
    assert(w * p == p * w) by (nonlinear_arith);
    e + e
}

/// `(c0 + c1 r + c2 s)^2` with `s = r^2`.
proof fn lemma_square_of_sum(c0: int, c1: int, c2: int, r: int, s: int, cube: int)
    requires
        s == r * r,
        cube == r * s,
    ensures
        (c0 + c1 * r + c2 * s) * (c0 + c1 * r + c2 * s) == c0 * c0 + (2 * (c0 * c1)) * r + (2 * (c0
            * c2) + c1 * c1) * s + (2 * (c1 * c2)) * cube + (c2 * c2) * (s * s),
{
    let (x, y) = (c1 * r, c2 * s);
    assert((c0 + x + y) * (c0 + x + y) == c0 * c0 + 2 * (c0 * x) + 2 * (c0 * y) + x * x + 2 * (x
        * y) + y * y) by (nonlinear_arith);
    assert(c0 * x == (c0 * c1) * r) by (nonlinear_arith)
        requires
            x == c1 * r,
    ;
    assert(c0 * y == (c0 * c2) * s) by (nonlinear_arith)
        requires
            y == c2 * s,
    ;
    assert(x * x == (c1 * c1) * s) by (nonlinear_arith)
        requires
            x == c1 * r,
            s == r * r,
    ;
    assert(x * y == (c1 * c2) * cube) by (nonlinear_arith)
        requires
            x == c1 * r,
            y == c2 * s,
            cube == r * s,
    ;
    assert(y * y == (c2 * c2) * (s * s)) by (nonlinear_arith)
        requires
            y == c2 * s,
    ;
    let (a, b, c) = (c0 * c1, c0 * c2, c1 * c2);
    assert((2 * a) * r == 2 * (a * r)) by (nonlinear_arith);
    let d = c1 * c1;
    assert((2 * b + d) * s == 2 * (b * s) + d * s) by (nonlinear_arith);
    assert((2 * c) * cube == 2 * (c * cube)) by (nonlinear_arith);
}

/// Adds one to the exponent.
pub proof fn lemma_reduces_next(
    r: int,
    e: nat,
    p: int,
    b: int,
    c0: int,
    c1: int,
    c2: int,
    k0: int,
    d0: int,
    k1: int,
    d1: int,
) -> (f: nat)
    requires
        root(r),
        p == field_p(),
        b == curve_b(),
        reduces(r, e, c0, c1, c2),
        -(b * c2) == k0 * p + d0,
        c0 + 3 * c2 == k1 * p + d1,
    ensures
        f == e + 1,
        reduces(r, f, d0, d1, c1),
{
    reveal(reduces);
    let s = r * r;
    let v = c0 + c1 * r + c2 * s;
    let q = pow(r, e);
    lemma_fundamental_div_mod(q - v, p);
    let m = (q - v) / p;
    lemma_fundamental_div_mod(r * s - 3 * r + b, p);
    let t = (r * s - 3 * r + b) / p;
    let cube = r * s;
    assert(cube == 3 * r - b + p * t);
    assert(v * r == c0 * r + c1 * s + c2 * cube) by (nonlinear_arith)
        requires
            v == c0 + c1 * r + c2 * s,
            s == r * r,
            cube == r * s,
    ;
    assert(c2 * cube == (3 * c2) * r - b * c2 + p * (c2 * t)) by (nonlinear_arith)
        requires
            cube == 3 * r - b + p * t,
    ;
    let n1 = c0 + 3 * c2;
    assert(n1 * r == c0 * r + (3 * c2) * r) by (nonlinear_arith)
        requires
            n1 == c0 + 3 * c2,
    ;
    assert(n1 * r == p * (k1 * r) + d1 * r) by (nonlinear_arith)
        requires
            n1 == k1 * p + d1,
    ;
    assert(q * r == v * r + p * (m * r)) by (nonlinear_arith)
        requires
            q == v + p * m,
    ;
    let w = k0 + k1 * r + c2 * t + m * r;
    assert(p * w == p * k0 + p * (k1 * r) + p * (c2 * t) + p * (m * r)) by (nonlinear_arith)
        requires
            w == k0 + k1 * r + c2 * t + m * r,
    ;
    assert(k0 * p == p * k0) by (nonlinear_arith);
    lemma_pow_adds(r, e, 1);
    lemma_pow1(r);
    assert(pow(r, e + 1) - (d0 + d1 * r + c1 * s) == p * w);
    lemma_mod_multiples_basic(w, p);
    assert(w * p == p * w) by (nonlinear_arith);
    e + 1
}

/// Where a root has `r^p = r`, a combination of the cubic and of what `r^p`
/// reduces to, less `r`, would be one. The coefficients of the combination are
/// given with their quotients.
pub proof fn lemma_no_common_root(
    r: int,
    p: int,
    b: int,
    a0: int,
    a1: int,
    a2: int,
    u0: int,
    u1: int,
    v0: int,
    v1: int,
    v2: int,
    k0: int,
    k1: int,
    k2: int,
    k3: int,
    k4: int,
)
    requires
        p == field_p(),
        b == curve_b(),
        reduces(r, p as nat, a0, a1, a2),
        u0 * b + v0 * a0 == k0 * p + 1,
        u1 * b - 3 * u0 + v0 * (a1 - 1) + v1 * a0 == k1 * p,
        v0 * a2 - 3 * u1 + v1 * (a1 - 1) + v2 * a0 == k2 * p,
        u0 + v1 * a2 + v2 * (a1 - 1) == k3 * p,
        u1 + v2 * a2 == k4 * p,
        0 <= r < p,
    ensures
        !root(r),
{
    if root(r) {
        lemma_power_is_itself(r);
        reveal(reduces);
        let s = r * r;
        let (l, n) = (r * s, s * s);
        let q = pow(r, p as nat);
        let f = l - 3 * r + b;
        let g = a0 + (a1 - 1) * r + a2 * s;
        // g is a multiple of p.
        let x = a0 + a1 * r + a2 * s;
        assert((a1 - 1) * r == a1 * r - r) by (nonlinear_arith);
        assert(g == x - r);
        lemma_fundamental_div_mod(q - x, p);
        lemma_fundamental_div_mod(q, p);
        let (i, j) = ((q - x) / p, q / p);
        assert(g == p * (j - i)) by (nonlinear_arith)
            requires
                g == x - r,
                q - x == p * i,
                q == p * j + r,
        ;
        lemma_fundamental_div_mod(f, p);
        let h = f / p;
        let y = j - i;
        // u f + v g = 1, modulo p.
        let (u, v) = (u0 + u1 * r, v0 + v1 * r + v2 * s);
        lemma_expand(r, s, l, n, b, a0, a1 - 1, a2, u0, u1, v0, v1, v2);
        let z = k0 + k1 * r + k2 * s + k3 * l + k4 * n;
        assert((k1 * p) * r == p * (k1 * r)) by (nonlinear_arith);
        assert((k2 * p) * s == p * (k2 * s)) by (nonlinear_arith);
        assert((k3 * p) * l == p * (k3 * l)) by (nonlinear_arith);
        assert((k4 * p) * n == p * (k4 * n)) by (nonlinear_arith);
        let (z1, z2, z3, z4) = (k1 * r, k2 * s, k3 * l, k4 * n);
        assert(p * z == k0 * p + p * z1 + p * z2 + p * z3 + p * z4) by (nonlinear_arith)
            requires
                z == k0 + z1 + z2 + z3 + z4,
        ;
        let o = u * h + v * y - z;
        assert(p * o == 1) by (nonlinear_arith)
            requires
                u * f + v * g == p * z + 1,
                f == p * h,
                g == p * y,
                o == u * h + v * y - z,
        ;
        lemma_mod_multiples_basic(o, p);
        assert(o * p == p * o) by (nonlinear_arith);
        lemma_small_mod(1, p as nat);
    }
}

/// `(u0 + u1 r) (r^3 - 3 r + b) + (v0 + v1 r + v2 r^2) (a0 + c1 r + a2 r^2)` by
/// powers of `r`.
proof fn lemma_expand(
    r: int,
    s: int,
    l: int,
    n: int,
    b: int,
    a0: int,
    c1: int,
    a2: int,
    u0: int,
    u1: int,
    v0: int,
    v1: int,
    v2: int,
)
    requires
        s == r * r,
        l == r * s,
        n == s * s,
    ensures
        (u0 + u1 * r) * (l - 3 * r + b) + (v0 + v1 * r + v2 * s) * (a0 + c1 * r + a2 * s) == (u0 * b
            + v0 * a0) + (u1 * b - 3 * u0 + v0 * c1 + v1 * a0) * r + (v0 * a2 - 3 * u1 + v1 * c1
            + v2 * a0) * s + (u0 + v1 * a2 + v2 * c1) * l + (u1 + v2 * a2) * n,
{
    let (x, y, z) = (v1 * r, v2 * s, u1 * r);
    let (c, d) = (c1 * r, a2 * s);
    assert(n == r * l) by (nonlinear_arith)
        requires
            s == r * r,
            l == r * s,
            n == s * s,
    ;
    assert((u0 + z) * (l - 3 * r + b) == u0 * l - (3 * u0) * r + u0 * b + z * l - 3 * (z * r) + z
        * b) by (nonlinear_arith);
    assert(z * l == u1 * n) by (nonlinear_arith)
        requires
            z == u1 * r,
            n == r * l,
    ;
    assert(z * r == u1 * s) by (nonlinear_arith)
        requires
            z == u1 * r,
            s == r * r,
    ;
    assert(z * b == (u1 * b) * r) by (nonlinear_arith)
        requires
            z == u1 * r,
    ;
    assert((v0 + x + y) * (a0 + c + d) == v0 * a0 + v0 * c + v0 * d + x * a0 + x * c + x * d + y
        * a0 + y * c + y * d) by (nonlinear_arith);
    assert(v0 * c == (v0 * c1) * r && x * a0 == (v1 * a0) * r) by (nonlinear_arith)
        requires
            c == c1 * r,
            x == v1 * r,
    ;
    assert(v0 * d == (v0 * a2) * s && y * a0 == (v2 * a0) * s) by (nonlinear_arith)
        requires
            d == a2 * s,
            y == v2 * s,
    ;
    assert(x * c == (v1 * c1) * s) by (nonlinear_arith)
        requires
            x == v1 * r,
            c == c1 * r,
            s == r * r,
    ;
    assert(x * d == (v1 * a2) * l) by (nonlinear_arith)
        requires
            x == v1 * r,
            d == a2 * s,
            l == r * s,
    ;
    assert(y * c == (v2 * c1) * l) by (nonlinear_arith)
        requires
            y == v2 * s,
            c == c1 * r,
            l == r * s,
    ;
    assert(y * d == (v2 * a2) * n) by (nonlinear_arith)
        requires
            y == v2 * s,
            d == a2 * s,
            n == s * s,
    ;
    let (p1, p2, p3) = (u1 * b, v0 * c1, v1 * a0);
    assert((p1 - 3 * u0 + p2 + p3) * r == p1 * r - (3 * u0) * r + p2 * r + p3 * r)
        by (nonlinear_arith);
    let (q1, q2, q3) = (v0 * a2, v1 * c1, v2 * a0);
    assert((q1 - 3 * u1 + q2 + q3) * s == q1 * s - 3 * (u1 * s) + q2 * s + q3 * s)
        by (nonlinear_arith);
    let (r1, r2) = (v1 * a2, v2 * c1);
    assert((u0 + r1 + r2) * l == u0 * l + r1 * l + r2 * l) by (nonlinear_arith);
    let s1 = v2 * a2;
    assert((u1 + s1) * n == u1 * n + s1 * n) by (nonlinear_arith);
}

/// Every residue is its own power `p`.
proof fn lemma_power_is_itself(r: int)
    requires
        0 <= r < field_p(),
    ensures
        pow(r, field_p() as nat) % field_p() == r,
{
    let p = field_p();
    crate::primes::field::lemma_prime_256_bits();
    lemma_pow_adds(r, (p - 1) as nat, 1);
    lemma_pow1(r);
    lemma_small_mod(r as nat, p as nat);
    if r == 0 {
        assert(pow(r, (p - 1) as nat) * 0 == 0);
    } else {
        law_fermat(r, p);
        lemma_mul_mod_noop_left(pow(r, (p - 1) as nat), r, p);
        assert(1 * r == r);
    }
}

/// Law: the cubic of the curve has no root.
pub proof fn law_cubic_has_no_root(r: int)
    requires
        0 <= r < field_p(),
    ensures
        (r * r * r - 3 * r + curve_b()) % field_p() != 0,
{
    if (r * r * r - 3 * r + curve_b()) % field_p() == 0 {
        assert(r * (r * r) == r * r * r) by (nonlinear_arith);
        assert(root(r));
        powers::lemma_no_root(r);
    }
}

} // verus!
