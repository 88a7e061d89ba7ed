//! Three points of the curve on one line: the symmetric form of the group law.
use crate::curve::{
    add_formula, additive_inverses, chord_slope, curve_b, double_formula, field_p, group_add,
    reflected, tangent_slope,
};
use crate::ecdsa::valid_public_key;
use crate::group_law::{
    cubic, law_field_modulus_is_prime, law_sums_lie_on_the_curve, lemma_chord_rest,
    lemma_different_x, lemma_equal, lemma_equation, lemma_not_own_reflection, lemma_slope,
    lemma_tangent_rest, lemma_twice_y, linear_rest,
};
use crate::primes::lemma_prime_factor;
use vstd::arithmetic::div_mod::{
    lemma_fundamental_div_mod, lemma_mod_multiples_basic, lemma_small_mod,
};
use vstd::prelude::*;

verus! {

/// A multiple of `p`.
pub open spec fn vanishes(x: int) -> bool {
    x % field_p() == 0
}

/// A multiple of a multiple.
pub proof fn lemma_scaled(e: int, k: int, h: int)
    requires
        vanishes(h),
        e == k * h,
    ensures
        vanishes(e),
{
    let p = field_p();
    lemma_fundamental_div_mod(h, p);
    let q = k * (h / p);
    assert(e == q * p) by (nonlinear_arith)
        requires
            e == k * h,
            h == p * (h / p),
            q == k * (h / p),
    ;
    lemma_mod_multiples_basic(q, p);
}

/// A sum of multiples.
pub proof fn lemma_sum(a: int, b: int)
    requires
        vanishes(a),
        vanishes(b),
    ensures
        vanishes(a + b),
{
    let p = field_p();
    lemma_fundamental_div_mod(a, p);
    lemma_fundamental_div_mod(b, p);
    let q = a / p + b / p;
    assert(a + b == q * p) by (nonlinear_arith)
        requires
            a == p * (a / p),
            b == p * (b / p),
            q == a / p + b / p,
    ;
    lemma_mod_multiples_basic(q, p);
}

/// A combination of two multiples.
pub proof fn lemma_combine2(e: int, k1: int, h1: int, k2: int, h2: int)
    requires
        vanishes(h1),
        vanishes(h2),
        e == k1 * h1 + k2 * h2,
    ensures
        vanishes(e),
{
    lemma_scaled(k1 * h1, k1, h1);
    lemma_scaled(k2 * h2, k2, h2);
    lemma_sum(k1 * h1, k2 * h2);
}

/// A combination of three multiples.
pub proof fn lemma_combine3(e: int, k1: int, h1: int, k2: int, h2: int, k3: int, h3: int)
    requires
        vanishes(h1),
        vanishes(h2),
        vanishes(h3),
        e == k1 * h1 + k2 * h2 + k3 * h3,
    ensures
        vanishes(e),
{
    lemma_combine2(k1 * h1 + k2 * h2, k1, h1, k2, h2);
    lemma_scaled(k3 * h3, k3, h3);
    lemma_sum(k1 * h1 + k2 * h2, k3 * h3);
}

/// A combination of four multiples.
pub proof fn lemma_combine4(
    e: int,
    k1: int,
    h1: int,
    k2: int,
    h2: int,
    k3: int,
    h3: int,
    k4: int,
    h4: int,
)
    requires
        vanishes(h1),
        vanishes(h2),
        vanishes(h3),
        vanishes(h4),
        e == k1 * h1 + k2 * h2 + k3 * h3 + k4 * h4,
    ensures
        vanishes(e),
{
    lemma_combine3(k1 * h1 + k2 * h2 + k3 * h3, k1, h1, k2, h2, k3, h3);
    lemma_scaled(k4 * h4, k4, h4);
    lemma_sum(k1 * h1 + k2 * h2 + k3 * h3, k4 * h4);
}

/// A factor of a multiple vanishes where the other does not.
pub proof fn lemma_cancel(k: int, h: int)
    requires
        vanishes(k * h),
        !vanishes(h),
    ensures
        vanishes(k),
{
    law_field_modulus_is_prime();
    lemma_prime_factor(k, h, field_p());
}

/// Reduced numbers whose difference vanishes are equal.
pub proof fn lemma_equal_residues(a: int, b: int)
    requires
        vanishes(a - b),
        0 <= a < field_p(),
        0 <= b < field_p(),
    ensures
        a == b,
{
    lemma_fundamental_div_mod(a - b, field_p());
    lemma_equal(a, b, (a - b) / field_p());
}

/// The line `y = l x + c` meets the curve in the three points, counted as often
/// as they are listed.
pub open spec fn joined(l: int, c: int, a: (int, int), b: (int, int), d: (int, int)) -> bool {
    &&& vanishes(a.1 - l * a.0 - c)
    &&& vanishes(b.1 - l * b.0 - c)
    &&& vanishes(d.1 - l * d.0 - c)
    &&& vanishes(l * l - a.0 - b.0 - d.0)
    &&& vanishes(2 * (l * c) + 3 + a.0 * b.0 + a.0 * d.0 + b.0 * d.0)
    &&& vanishes(c * c - curve_b() - a.0 * b.0 * d.0)
}

/// The order of the points does not matter.
pub proof fn lemma_joined_rotates(l: int, c: int, a: (int, int), b: (int, int), d: (int, int))
    requires
        joined(l, c, a, b, d),
    ensures
        joined(l, c, b, a, d),
        joined(l, c, b, d, a),
        joined(l, c, a, d, b),
        joined(l, c, d, a, b),
        joined(l, c, d, b, a),
{
    let (x, y, z) = (a.0, b.0, d.0);
    assert(x * y == y * x && x * z == z * x && y * z == z * y) by (nonlinear_arith);
    assert(x * y * z == y * x * z && x * y * z == y * z * x && x * y * z == x * z * y && x * y * z
        == z * x * y && x * y * z == z * y * x) by (nonlinear_arith);
}

/// The reflection of a reduced point: its y-coordinate is the opposite.
pub proof fn lemma_reflected(a: (int, int))
    requires
        valid_public_key(a),
    ensures
        valid_public_key(reflected(a)),
        reflected(reflected(a)) == a,
        vanishes(a.1 + reflected(a).1),
        reflected(a).1 == field_p() - a.1,
        additive_inverses(a, reflected(a)),
        additive_inverses(reflected(a), a),
{
    let p = field_p();
    lemma_not_own_reflection(a);
    lemma_small_mod((p - a.1) as nat, p as nat);
    lemma_small_mod(a.1 as nat, p as nat);
    let y = a.1;
    let n = p - y;
    assert(reflected(a) == (a.0, n));
    vstd::arithmetic::div_mod::lemma_mod_self_0(p);
    // (p - y)^2 = y^2 + p (p - 2 y).
    assert(n * n - y * y == p * (p - 2 * y)) by (nonlinear_arith)
        requires
            n == p - y,
    ;
    vstd::arithmetic::div_mod::lemma_mod_multiples_vanish(p - 2 * y, y * y, p);
}

/// Points cancel exactly where one is the reflection of the other.
pub proof fn lemma_inverse_is_reflection(a: (int, int), b: (int, int))
    requires
        valid_public_key(a),
        valid_public_key(b),
    ensures
        additive_inverses(a, b) <==> b == reflected(a),
{
    lemma_reflected(a);
    if additive_inverses(a, b) {
        let r = reflected(a);
        // b - r = (a + b) - (a + r).
        lemma_combine2(b.1 - r.1, 1, a.1 + b.1, -1, a.1 + r.1);
        lemma_equal_residues(b.1, r.1);
    }
}

/// Reflecting the points of a line.
pub proof fn lemma_joined_reflects(l: int, c: int, a: (int, int), b: (int, int), d: (int, int))
    requires
        valid_public_key(a),
        valid_public_key(b),
        valid_public_key(d),
        joined(l, c, a, b, d),
    ensures
        joined(-l, -c, reflected(a), reflected(b), reflected(d)),
{
    lemma_reflected_on_line(l, c, a);
    lemma_reflected_on_line(l, c, b);
    lemma_reflected_on_line(l, c, d);
    assert((-l) * (-l) == l * l && (-l) * (-c) == l * c && (-c) * (-c) == c * c)
        by (nonlinear_arith);
}

proof fn lemma_reflected_on_line(l: int, c: int, a: (int, int))
    requires
        valid_public_key(a),
        vanishes(a.1 - l * a.0 - c),
    ensures
        vanishes(reflected(a).1 - (-l) * a.0 - (-c)),
{
    lemma_reflected(a);
    let r = reflected(a);
    assert((-l) * a.0 == -(l * a.0)) by (nonlinear_arith);
    lemma_combine2(
        r.1 - (-l) * a.0 - (-c),
        1,
        a.1 + r.1,
        -1,
        a.1 - l * a.0 - c,
    );
}

/// Two points of a line with the same x-coordinate are the same.
pub proof fn lemma_same_on_line(l: int, c: int, a: (int, int), b: (int, int))
    requires
        valid_public_key(a),
        valid_public_key(b),
        a.0 == b.0,
        vanishes(a.1 - l * a.0 - c),
        vanishes(b.1 - l * b.0 - c),
    ensures
        a == b,
{
    lemma_combine2(a.1 - b.1, 1, a.1 - l * a.0 - c, -1, b.1 - l * b.0 - c);
    lemma_equal_residues(a.1, b.1);
}

/// Points of one line do not cancel.
pub proof fn lemma_joined_not_inverse(l: int, c: int, a: (int, int), b: (int, int))
    requires
        valid_public_key(a),
        valid_public_key(b),
        vanishes(a.1 - l * a.0 - c),
        vanishes(b.1 - l * b.0 - c),
    ensures
        !additive_inverses(a, b),
{
    if additive_inverses(a, b) {
        lemma_same_on_line(l, c, a, b);
        lemma_not_own_reflection(a);
        lemma_twice_y(a);
    }
}

/// The line through two points that do not cancel, and their sum.
pub proof fn lemma_sum_is_joined(a: (int, int), b: (int, int)) -> (r: (int, int))
    requires
        valid_public_key(a),
        valid_public_key(b),
        !additive_inverses(a, b),
    ensures
        group_add(Some(a), Some(b)) matches Some(d) && valid_public_key(d) && joined(
            r.0,
            r.1,
            a,
            b,
            reflected(d),
        ),
{
    let p = field_p();
    law_sums_lie_on_the_curve(Some(a), Some(b));
    let l = if a == b {
        tangent_slope(a)
    } else {
        chord_slope(a, b)
    };
    let c = a.1 - l * a.0;
    let (x1, y1) = a;
    let (x2, y2) = b;
    if a == b {
        lemma_not_own_reflection(a);
        lemma_tangent_rest(a);
    } else {
        lemma_different_x(a, b);
        lemma_chord_rest(a, b);
        let w = lemma_slope(x2 - x1, y2 - y1);
        assert(y2 - l * x2 - c == p * (-w)) by (nonlinear_arith)
            requires
                l * (x2 - x1) - (y2 - y1) == p * w,
                c == y1 - l * x1,
        ;
        lemma_mod_multiples_basic(-w, p);
        assert((-w) * p == p * (-w)) by (nonlinear_arith);
    }
    lemma_small_mod(0, p as nat);
    assert(vanishes(a.1 - l * a.0 - c));
    let d = if a == b {
        double_formula(a)
    } else {
        add_formula(a, b)
    };
    let big = l * l - x1 - x2;
    lemma_fundamental_div_mod(big, p);
    let h = big / p;
    let x3 = d.0;
    assert(big == p * h + x3);
    lemma_mod_multiples_basic(h, p);
    assert(h * p == p * h) by (nonlinear_arith);
    assert(vanishes(big - x3));
    let rest = linear_rest(l, x1, y1, x2);
    // The sum and the pairs of the x-coordinates.
    let s = 2 * (l * c) + 3 + x1 * x2 + x1 * x3 + x2 * x3;
    let t = x1 + x2;
    assert(s == (-1) * rest + (-t) * (big - x3)) by (nonlinear_arith)
        requires
            rest == -3 - 2 * (l * c) - (x1 * x2 + big * t),
            t == x1 + x2,
            s == 2 * (l * c) + 3 + x1 * x2 + x1 * x3 + x2 * x3,
    ;
    lemma_combine2(s, -1, rest, -t, big - x3);
    // The product, from the equation of the first point.
    let e = lemma_equation(a);
    lemma_mod_multiples_basic(e, p);
    assert(e * p == p * e) by (nonlinear_arith);
    let q = cubic(x1) - y1 * y1;
    assert(vanishes(q));
    let f = c * c - curve_b() - x1 * x2 * x3;
    lemma_constant_rest(l, c, x1, x2, x3);
    lemma_combine3(
        f,
        -1,
        q,
        -(x1 * x1),
        l * l - x1 - x2 - x3,
        -x1,
        s,
    );
    // The third point.
    let y3 = d.1;
    lemma_fundamental_div_mod(l * (x1 - x3) - y1, p);
    let k = (l * (x1 - x3) - y1) / p;
    lemma_reflected(d);
    let n = reflected(d);
    assert(n.1 - l * x3 - c == p * (k + 1)) by (nonlinear_arith)
        requires
            l * (x1 - x3) - y1 == p * k + y3,
            n.1 == p - y3,
            c == y1 - l * x1,
    ;
    lemma_mod_multiples_basic(k + 1, p);
    assert((k + 1) * p == p * (k + 1)) by (nonlinear_arith);
    (l, c)
}

/// The constant coefficient, from the value at `x1`.
proof fn lemma_constant_rest(l: int, c: int, x1: int, x2: int, x3: int)
    ensures
        ({
            let y1 = l * x1 + c;
            c * c - curve_b() - x1 * x2 * x3 == (-1) * (cubic(x1) - y1 * y1) + (-(x1 * x1)) * (l * l
                - x1 - x2 - x3) + (-x1) * (2 * (l * c) + 3 + x1 * x2 + x1 * x3 + x2 * x3)
        }),
{
    let b = curve_b();
    let y1 = l * x1 + c;
    let (ll, lc, xx) = (l * l, l * c, x1 * x1);
    assert(y1 * y1 == ll * xx + 2 * (lc * x1) + c * c) by (nonlinear_arith)
        requires
            y1 == l * x1 + c,
            ll == l * l,
            lc == l * c,
            xx == x1 * x1,
    ;
    assert((-xx) * (ll - x1 - x2 - x3) == -(ll * xx) + xx * x1 + xx * x2 + xx * x3)
        by (nonlinear_arith);
    let (m, n, o) = (x1 * x2, x1 * x3, x2 * x3);
    assert((-x1) * (2 * lc + 3 + m + n + o) == -2 * (lc * x1) - 3 * x1 - x1 * m - x1 * n - x1 * o)
        by (nonlinear_arith);
    assert(x1 * m == xx * x2 && x1 * n == xx * x3 && x1 * o == x1 * x2 * x3) by (nonlinear_arith)
        requires
            m == x1 * x2,
            n == x1 * x3,
            o == x2 * x3,
            xx == x1 * x1,
    ;
    assert(cubic(x1) == xx * x1 - 3 * x1 + b);
}

/// A line through a point twice is the tangent.
pub proof fn lemma_joined_twice(l: int, c: int, a: (int, int), d: (int, int))
    requires
        joined(l, c, a, a, d),
    ensures
        vanishes(l * (a.1 + a.1) - (3 * (a.0 * a.0) - 3)),
{
    let (x, y) = a;
    let z = d.0;
    let h1 = y - l * x - c;
    let h2 = l * l - x - x - z;
    let h3 = 2 * (l * c) + 3 + x * x + x * z + x * z;
    let e = l * (y + y) - (3 * (x * x) - 3);
    let ll = l * l;
    let lc = l * c;
    assert(e == (2 * l) * h1 + (2 * x) * h2 + 1 * h3) by (nonlinear_arith)
        requires
            e == l * (y + y) - (3 * (x * x) - 3),
            h1 == y - l * x - c,
            h2 == ll - x - x - z,
            h3 == 2 * lc + 3 + x * x + x * z + x * z,
            ll == l * l,
            lc == l * c,
    ;
    lemma_combine3(e, 2 * l, h1, 2 * x, h2, 1, h3);
}

/// Points on one line add up to the reflection of the third.
pub proof fn lemma_joined_sum(l: int, c: int, a: (int, int), b: (int, int), d: (int, int))
    requires
        valid_public_key(a),
        valid_public_key(b),
        valid_public_key(d),
        joined(l, c, a, b, d),
    ensures
        group_add(Some(a), Some(b)) == Some(reflected(d)),
{
    let p = field_p();
    let (x1, y1) = a;
    let (x2, y2) = b;
    lemma_joined_not_inverse(l, c, a, b);
    let m = if a == b {
        tangent_slope(a)
    } else {
        chord_slope(a, b)
    };
    // The slope is that of the formula.
    if a == b {
        lemma_not_own_reflection(a);
        lemma_twice_y(a);
        let w = lemma_slope(y1 + y1, 3 * (x1 * x1) - 3);
        lemma_mod_multiples_basic(w, p);
        assert(w * p == p * w) by (nonlinear_arith);
        lemma_joined_twice(l, c, a, d);
        let n = 3 * (x1 * x1) - 3;
        let t = y1 + y1;
        assert((l - m) * t == 1 * (l * t - n) + (-1) * (m * t - n)) by (nonlinear_arith);
        lemma_combine2((l - m) * t, 1, l * t - n, -1, m * t - n);
        lemma_cancel(l - m, t);
    } else {
        lemma_different_x(a, b);
        let w = lemma_slope(x2 - x1, y2 - y1);
        lemma_mod_multiples_basic(w, p);
        assert(w * p == p * w) by (nonlinear_arith);
        let t = x2 - x1;
        let n = y2 - y1;
        let (h1, h2) = (y1 - l * x1 - c, y2 - l * x2 - c);
        assert((l - m) * t == 1 * h1 + (-1) * h2 + (-1) * (m * t - n)) by (nonlinear_arith)
            requires
                h1 == y1 - l * x1 - c,
                h2 == y2 - l * x2 - c,
                t == x2 - x1,
                n == y2 - y1,
        ;
        lemma_combine3((l - m) * t, 1, h1, -1, h2, -1, m * t - n);
        lemma_cancel(l - m, t);
    }
    let s = if a == b {
        double_formula(a)
    } else {
        add_formula(a, b)
    };
    law_sums_lie_on_the_curve(Some(a), Some(b));
    assert(valid_public_key(s));
    // x-coordinates.
    let big = m * m - x1 - x2;
    lemma_fundamental_div_mod(big, p);
    let h = big / p;
    lemma_mod_multiples_basic(-h, p);
    assert((-h) * p == p * (-h)) by (nonlinear_arith);
    assert(s.0 - big == p * (-h)) by (nonlinear_arith)
        requires
            big == p * h + s.0,
    ;
    let third = l * l - x1 - x2 - d.0;
    assert(s.0 - d.0 == 1 * (s.0 - big) + (-(l + m)) * (l - m) + 1 * third) by (nonlinear_arith)
        requires
            big == m * m - x1 - x2,
            third == l * l - x1 - x2 - d.0,
    ;
    lemma_combine3(s.0 - d.0, 1, s.0 - big, -(l + m), l - m, 1, third);
    lemma_equal_residues(s.0, d.0);
    // y-coordinates.
    let v = m * (x1 - s.0) - y1;
    lemma_fundamental_div_mod(v, p);
    let k = v / p;
    lemma_mod_multiples_basic(-k, p);
    assert((-k) * p == p * (-k)) by (nonlinear_arith);
    assert(s.1 - v == p * (-k)) by (nonlinear_arith)
        requires
            v == p * k + s.1,
    ;
    lemma_reflected(d);
    let r = reflected(d).1;
    let (h1, h3) = (y1 - l * x1 - c, d.1 - l * d.0 - c);
    let x3 = d.0;
    // s.1 = m (x1 - x3) - y1 = -(l x3 + c) = -d.1 = r.
    let g = (m - l) * (x1 - x3);
    assert(v == l * (x1 - x3) + g - y1) by (nonlinear_arith)
        requires
            v == m * (x1 - x3) - y1,
            g == (m - l) * (x1 - x3),
    ;
    assert(g == (-(x1 - x3)) * (l - m)) by (nonlinear_arith)
        requires
            g == (m - l) * (x1 - x3),
    ;
    lemma_scaled(g, -(x1 - x3), l - m);
    let o = d.1 + r;
    assert(l * (x1 - x3) == l * x1 - l * x3) by (nonlinear_arith);
    lemma_combine4(
        (s.1 - v) + g - h1 + h3,
        1,
        s.1 - v,
        1,
        g,
        -1,
        h1,
        1,
        h3,
    );
    lemma_combine2(s.1 - r, 1, (s.1 - v) + g - h1 + h3, -1, o);
    lemma_equal_residues(s.1, r);
}

} // verus!
