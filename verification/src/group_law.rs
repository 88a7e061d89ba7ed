//! The group law on points of the curve: sums lie on the curve, and addition
//! commutes.
use crate::cubic::law_cubic_has_no_root;
use crate::curve::{
    add_formula, additive_inverses, chord_output, chord_slope, curve_b, double_formula, field_p,
    group_add, group_mul, is_mod_inverse, lemma_formula_reduced, mod_inv, tangent_slope,
};
use crate::ecdsa::valid_public_key;
use crate::primes::{law_residues_have_inverses, lemma_prime_factor, prime};
use vstd::arithmetic::div_mod::{
    lemma_fundamental_div_mod, lemma_mod_bound, lemma_mod_multiples_basic,
    lemma_mod_multiples_vanish, lemma_small_mod,
};
use vstd::prelude::*;

verus! {

/// Law: the field modulus is prime.
pub proof fn law_field_modulus_is_prime()
    ensures
        prime(field_p()),
{
    crate::primes::field::lemma_prime_256_bits();
}

/// Law: the order of the group is prime.
pub proof fn law_group_order_is_prime()
    ensures
        prime(crate::curve::group_n()),
{
    crate::primes::order::lemma_prime_256_bits();
}

/// The right-hand side of the curve equation.
pub open spec fn cubic(x: int) -> int {
    x * x * x - 3 * x + curve_b()
}

/// Numbers with the same remainder differ by a multiple.
pub proof fn lemma_difference(a: int, b: int) -> (k: int)
    requires
        a % field_p() == b % field_p(),
    ensures
        a - b == field_p() * k,
{
    let p = field_p();
    lemma_fundamental_div_mod(a, p);
    lemma_fundamental_div_mod(b, p);
    let k = a / p - b / p;
    assert(p * k == p * (a / p) - p * (b / p)) by (nonlinear_arith)
        requires
            k == a / p - b / p,
    ;
    k
}

/// Numbers that differ by a multiple have the same remainder.
proof fn lemma_same(a: int, b: int, k: int)
    requires
        a - b == field_p() * k,
    ensures
        a % field_p() == b % field_p(),
{
    lemma_mod_multiples_vanish(k, b, field_p());
}

/// Reduced numbers that differ by a multiple are equal.
pub proof fn lemma_equal(a: int, b: int, k: int)
    requires
        a - b == field_p() * k,
        0 <= a < field_p(),
        0 <= b < field_p(),
    ensures
        a == b,
{
    lemma_same(a, b, k);
    lemma_small_mod(a as nat, field_p() as nat);
    lemma_small_mod(b as nat, field_p() as nat);
}

/// A slope `dy / dx` satisfies its equation where `dx` is not zero: for some
/// `w`, `slope dx - dy = w p`.
pub proof fn lemma_slope(dx: int, dy: int) -> (w: int)
    requires
        dx % field_p() != 0,
    ensures
        ((dy * mod_inv(dx % field_p(), field_p())) % field_p()) * dx - dy == field_p() * w,
{
    let p = field_p();
    let r = dx % p;
    law_field_modulus_is_prime();
    lemma_mod_bound(dx, p);
    law_residues_have_inverses(r, p);
    let i = mod_inv(r, p);
    assert(is_mod_inverse(r, i, p));
    lemma_fundamental_div_mod(r * i, p);
    lemma_fundamental_div_mod(dx, p);
    lemma_fundamental_div_mod(dy * i, p);
    let (t, s, j) = ((r * i) / p, dx / p, (dy * i) / p);
    let slope = (dy * i) % p;
    // i dx = g p + 1, and slope = dy i - j p.
    let g = s * i + t;
    assert(i * dx == p * g + 1) by (nonlinear_arith)
        requires
            r * i == p * t + 1,
            dx == p * s + r,
            g == s * i + t,
    ;
    let n = i * dx;
    assert((dy * i) * dx == dy * n) by (nonlinear_arith)
        requires
            n == i * dx,
    ;
    assert(dy * n == p * (dy * g) + dy) by (nonlinear_arith)
        requires
            n == p * g + 1,
    ;
    let d = dy * i;
    assert(slope * dx == d * dx - p * (j * dx)) by (nonlinear_arith)
        requires
            d == p * j + slope,
    ;
    let w = dy * g - j * dx;
    assert(p * w == p * (dy * g) - p * (j * dx)) by (nonlinear_arith)
        requires
            w == dy * g - j * dx,
    ;
    w
}

/// The multiple by which the curve equation holds.
pub proof fn lemma_equation(a: (int, int)) -> (e: int)
    requires
        valid_public_key(a),
    ensures
        cubic(a.0) - a.1 * a.1 == field_p() * e,
{
    lemma_difference(cubic(a.0), a.1 * a.1)
}

/// The line through `(x1, y1)` with slope `l` meets the curve a third time where
/// the formulas say, if it meets it in `x1` and its linear coefficient vanishes.
proof fn lemma_third_point(l: int, x1: int, y1: int, x2: int, a: int, e: int)
    requires
        cubic(x1) - y1 * y1 == field_p() * e,
        -3 - 2 * (l * (y1 - l * x1)) - (x1 * x2 + (l * l - x1 - x2) * (x1 + x2)) == field_p() * a,
    ensures
        valid_public_key(chord_output(l, x1, y1, x2)),
{
    let p = field_p();
    let b = curve_b();
    let big = l * l - x1 - x2;
    let c = y1 - l * x1;
    let x3 = big % p;
    let y3 = (l * (x1 - x3) - y1) % p;
    lemma_formula_reduced(l, x1, y1, x2);
    lemma_fundamental_div_mod(big, p);
    lemma_fundamental_div_mod(l * (x1 - x3) - y1, p);
    let h = big / p;
    let u = (l * (x1 - x3) - y1) / p;
    let ca = -3 - 2 * (l * c) - (x1 * x2 + big * (x1 + x2));
    let cb = b - c * c + x1 * x2 * big;
    assert(ca == p * a);
    // cubic - line^2 = (x - x1) (x - x2) (x - big) + ca x + cb, at x1 and at x3.
    lemma_line_identity(l, x1, y1, x2, x1);
    lemma_line_identity(l, x1, y1, x2, x3);
    let line = l * (x3 - x1) + y1;
    assert(l * (x1 - x1) + y1 == y1) by (nonlinear_arith);
    assert((x1 - x1) * (x1 - x2) * (x1 - big) == 0) by (nonlinear_arith);
    assert(ca * x1 + cb == p * e);
    let product = (x3 - x1) * (x3 - x2);
    let z = a * (x3 - x1) + e - product * h;
    assert(product * (x3 - big) == -(p * (product * h))) by (nonlinear_arith)
        requires
            big == p * h + x3,
    ;
    assert(ca * x3 + cb == p * (a * (x3 - x1)) + p * e) by (nonlinear_arith)
        requires
            ca * x1 + cb == p * e,
            ca == p * a,
    ;
    assert(p * z == p * (a * (x3 - x1)) + p * e - p * (product * h)) by (nonlinear_arith)
        requires
            z == a * (x3 - x1) + e - product * h,
    ;
    // y3 = -line - u p.
    assert(y3 == -line - p * u) by (nonlinear_arith)
        requires
            l * (x1 - x3) - y1 == p * u + y3,
            line == l * (x3 - x1) + y1,
    ;
    let v = 2 * line * u + p * u * u - z;
    assert(y3 * y3 - cubic(x3) == p * v) by (nonlinear_arith)
        requires
            y3 == -line - p * u,
            cubic(x3) - line * line == p * z,
            v == 2 * line * u + p * u * u - z,
    ;
    lemma_same(y3 * y3, cubic(x3), v);
}

/// The cubic less the square of a line, as a product and a linear rest.
proof fn lemma_line_identity(l: int, x1: int, y1: int, x2: int, x: int)
    ensures
        ({
            let big = l * l - x1 - x2;
            let c = y1 - l * x1;
            let ca = -3 - 2 * (l * c) - (x1 * x2 + big * (x1 + x2));
            let cb = curve_b() - c * c + x1 * x2 * big;
            let line = l * (x - x1) + y1;
            cubic(x) - line * line == (x - x1) * (x - x2) * (x - big) + (ca * x + cb)
        }),
{
    let b = curve_b();
    let big = l * l - x1 - x2;
    let c = y1 - l * x1;
    let ca = -3 - 2 * (l * c) - (x1 * x2 + big * (x1 + x2));
    let cb = b - c * c + x1 * x2 * big;
    let line = l * (x - x1) + y1;
    // The product, expanded.
    let s1 = x1 + x2 + big;
    let s2 = x1 * x2 + big * (x1 + x2);
    let s3 = x1 * x2 * big;
    let (t1, t2) = (x1 + x2, x1 * x2);
    let two = (x - x1) * (x - x2);
    assert(two == x * x - t1 * x + t2) by (nonlinear_arith)
        requires
            two == (x - x1) * (x - x2),
            t1 == x1 + x2,
            t2 == x1 * x2,
    ;
    let sq = x * x;
    let (tx, bt) = (t1 * x, big * t1);
    assert(two * (x - big) == two * x - two * big) by (nonlinear_arith);
    assert(two * x == sq * x - tx * x + t2 * x) by (nonlinear_arith)
        requires
            two == sq - tx + t2,
    ;
    assert(two * big == sq * big - tx * big + t2 * big) by (nonlinear_arith)
        requires
            two == sq - tx + t2,
    ;
    assert(tx * x == t1 * sq) by (nonlinear_arith)
        requires
            tx == t1 * x,
            sq == x * x,
    ;
    assert(tx * big == bt * x) by (nonlinear_arith)
        requires
            tx == t1 * x,
            bt == big * t1,
    ;
    assert((t1 + big) * sq == t1 * sq + sq * big) by (nonlinear_arith);
    assert((t2 + bt) * x == t2 * x + bt * x) by (nonlinear_arith);
    assert(line == l * x + c) by (nonlinear_arith)
        requires
            line == l * (x - x1) + y1,
            c == y1 - l * x1,
    ;
    assert(line * line == (l * l) * (x * x) + 2 * (l * c) * x + c * c) by (nonlinear_arith)
        requires
            line == l * x + c,
    ;
    assert(s1 == l * l);
    assert(s1 * (x * x) == (l * l) * (x * x));
    assert(ca * x == -3 * x - 2 * (l * c) * x - s2 * x) by (nonlinear_arith)
        requires
            ca == -3 - 2 * (l * c) - s2,
    ;
}

/// Two points of the curve with the same x-coordinate are equal, or reflections
/// of each other.
pub proof fn lemma_same_x(a: (int, int), b: (int, int))
    requires
        valid_public_key(a),
        valid_public_key(b),
        a.0 == b.0,
    ensures
        a == b || additive_inverses(a, b),
{
    let p = field_p();
    law_field_modulus_is_prime();
    let k = lemma_difference(a.1 * a.1, b.1 * b.1);
    assert((a.1 - b.1) * (a.1 + b.1) == p * k) by (nonlinear_arith)
        requires
            a.1 * a.1 - b.1 * b.1 == p * k,
    ;
    lemma_mod_multiples_basic(k, p);
    assert(k * p == p * k) by (nonlinear_arith);
    lemma_prime_factor(a.1 - b.1, a.1 + b.1, p);
    if (a.1 - b.1) % p == 0 {
        lemma_fundamental_div_mod(a.1 - b.1, p);
        lemma_equal(a.1, b.1, (a.1 - b.1) / p);
    }
}

/// Points of the curve that are neither equal nor reflections have different
/// x-coordinates.
pub proof fn lemma_different_x(a: (int, int), b: (int, int))
    requires
        valid_public_key(a),
        valid_public_key(b),
        a != b,
        !additive_inverses(a, b),
    ensures
        (b.0 - a.0) % field_p() != 0,
{
    let p = field_p();
    if (b.0 - a.0) % p == 0 {
        lemma_fundamental_div_mod(b.0 - a.0, p);
        lemma_equal(b.0, a.0, (b.0 - a.0) / p);
        lemma_same_x(a, b);
    }
}

/// The linear coefficient that is left of the cubic, less the square of a line
/// and the product over the three points on it.
pub open spec fn linear_rest(l: int, x1: int, y1: int, x2: int) -> int {
    -3 - 2 * (l * (y1 - l * x1)) - (x1 * x2 + (l * l - x1 - x2) * (x1 + x2))
}

/// Nothing is left for a chord.
pub proof fn lemma_chord_rest(a: (int, int), b: (int, int))
    requires
        valid_public_key(a),
        valid_public_key(b),
        (b.0 - a.0) % field_p() != 0,
    ensures
        linear_rest(chord_slope(a, b), a.0, a.1, b.0) % field_p() == 0,
{
    let p = field_p();
    law_field_modulus_is_prime();
    let (x1, y1) = a;
    let (x2, y2) = b;
    let l = chord_slope(a, b);
    let w = lemma_slope(x2 - x1, y2 - y1);
    let e1 = lemma_equation(a);
    let e2 = lemma_equation(b);
    let big = l * l - x1 - x2;
    let c = y1 - l * x1;
    let ca = -3 - 2 * (l * c) - (x1 * x2 + big * (x1 + x2));
    let cb = curve_b() - c * c + x1 * x2 * big;
    lemma_line_identity(l, x1, y1, x2, x1);
    lemma_line_identity(l, x1, y1, x2, x2);
    assert(l * (x1 - x1) + y1 == y1) by (nonlinear_arith);
    assert((x1 - x1) * (x1 - x2) * (x1 - big) == 0) by (nonlinear_arith);
    assert((x2 - x1) * (x2 - x2) * (x2 - big) == 0) by (nonlinear_arith);
    assert(ca * x1 + cb == p * e1);
    let line = l * (x2 - x1) + y1;
    assert(line == y2 + p * w);
    let m = e2 - 2 * y2 * w - p * w * w;
    assert(ca * x2 + cb == p * m) by (nonlinear_arith)
        requires
            cubic(x2) - line * line == ca * x2 + cb,
            cubic(x2) - y2 * y2 == p * e2,
            line == y2 + p * w,
            m == e2 - 2 * y2 * w - p * w * w,
    ;
    let d = m - e1;
    assert(ca * (x2 - x1) == p * d) by (nonlinear_arith)
        requires
            ca * x1 + cb == p * e1,
            ca * x2 + cb == p * m,
            d == m - e1,
    ;
    lemma_mod_multiples_basic(d, p);
    assert(d * p == p * d) by (nonlinear_arith);
    lemma_prime_factor(ca, x2 - x1, p);
}

/// The sum of two points with different x-coordinates lies on the curve.
proof fn lemma_chord_on_curve(a: (int, int), b: (int, int))
    requires
        valid_public_key(a),
        valid_public_key(b),
        (b.0 - a.0) % field_p() != 0,
    ensures
        valid_public_key(add_formula(a, b)),
{
    lemma_chord_rest(a, b);
    let l = chord_slope(a, b);
    let rest = linear_rest(l, a.0, a.1, b.0);
    lemma_fundamental_div_mod(rest, field_p());
    let e = lemma_equation(a);
    lemma_third_point(l, a.0, a.1, b.0, rest / field_p(), e);
}

/// Nothing is left for the tangent at a point that is not its own reflection.
pub proof fn lemma_tangent_rest(a: (int, int))
    requires
        valid_public_key(a),
        a.1 != 0,
    ensures
        linear_rest(tangent_slope(a), a.0, a.1, a.0) % field_p() == 0,
{
    let p = field_p();
    let (x, y) = a;
    let l = tangent_slope(a);
    lemma_twice_y(a);
    let w = lemma_slope(y + y, 3 * (x * x) - 3);
    assert(-3 - 2 * (l * (y - l * x)) - (x * x + (l * l - x - x) * (x + x)) == p * (-w))
        by (nonlinear_arith)
        requires
            l * (y + y) - (3 * (x * x) - 3) == p * w,
    ;
    lemma_mod_multiples_basic(-w, p);
    assert((-w) * p == p * (-w)) by (nonlinear_arith);
}

/// Twice a y-coordinate is not zero.
pub proof fn lemma_twice_y(a: (int, int))
    requires
        valid_public_key(a),
        a.1 != 0,
    ensures
        (a.1 + a.1) % field_p() != 0,
{
    let p = field_p();
    let y = a.1;
    law_field_modulus_is_prime();
    if (y + y) % p == 0 {
        assert(2 * y == y + y);
        lemma_prime_factor(2, y, p);
        lemma_small_mod(2, p as nat);
        lemma_small_mod(y as nat, p as nat);
    }
}

/// The double of a point that is not its own reflection lies on the curve.
proof fn lemma_double_on_curve(a: (int, int))
    requires
        valid_public_key(a),
        a.1 != 0,
    ensures
        valid_public_key(double_formula(a)),
{
    lemma_tangent_rest(a);
    let l = tangent_slope(a);
    let rest = linear_rest(l, a.0, a.1, a.0);
    lemma_fundamental_div_mod(rest, field_p());
    let e = lemma_equation(a);
    lemma_third_point(l, a.0, a.1, a.0, rest / field_p(), e);
}

/// A point at infinity, or one of the curve.
pub open spec fn curve_point(a: Option<(int, int)>) -> bool {
    match a {
        None => true,
        Some(p) => valid_public_key(p),
    }
}

/// No point of the curve is its own reflection.
pub proof fn lemma_not_own_reflection(a: (int, int))
    requires
        valid_public_key(a),
    ensures
        a.1 != 0,
{
    if a.1 == 0 {
        law_cubic_has_no_root(a.0);
        assert(a.1 * a.1 == 0) by (nonlinear_arith)
            requires
                a.1 == 0,
        ;
        lemma_small_mod(0, field_p() as nat);
    }
}

/// Law: the sum of two points of the curve is a point of the curve.
pub proof fn law_sums_lie_on_the_curve(a: Option<(int, int)>, b: Option<(int, int)>)
    requires
        curve_point(a),
        curve_point(b),
    ensures
        curve_point(group_add(a, b)),
{
    if let (Some(p), Some(q)) = (a, b) {
        if p == q {
            lemma_not_own_reflection(p);
            lemma_double_on_curve(p);
        } else if !additive_inverses(p, q) {
            lemma_different_x(p, q);
            lemma_chord_on_curve(p, q);
        }
    }
}

/// Law: every multiple of a point of the curve is a point of the curve.
pub proof fn law_multiples_lie_on_the_curve(k: int, a: (int, int))
    requires
        valid_public_key(a),
    ensures
        curve_point(group_mul(k, a)),
    decreases k,
{
    if k > 0 {
        law_multiples_lie_on_the_curve(k / 2, a);
        let half = group_mul(k / 2, a);
        law_sums_lie_on_the_curve(half, half);
        law_sums_lie_on_the_curve(group_add(half, half), Some(a));
    }
}

/// The chord does not depend on which point comes first.
proof fn lemma_chord_commutes(a: (int, int), b: (int, int))
    requires
        valid_public_key(a),
        valid_public_key(b),
        (b.0 - a.0) % field_p() != 0,
    ensures
        add_formula(a, b) == add_formula(b, a),
{
    let p = field_p();
    law_field_modulus_is_prime();
    let (x1, y1) = a;
    let (x2, y2) = b;
    if (x1 - x2) % p == 0 {
        lemma_fundamental_div_mod(x1 - x2, p);
        let k = (x1 - x2) / p;
        assert(x2 - x1 == p * (-k)) by (nonlinear_arith)
            requires
                x1 - x2 == p * k,
        ;
        lemma_mod_multiples_basic(-k, p);
        assert((-k) * p == p * (-k)) by (nonlinear_arith);
    }
    let l = chord_slope(a, b);
    let m = chord_slope(b, a);
    let w = lemma_slope(x2 - x1, y2 - y1);
    let v = lemma_slope(x1 - x2, y1 - y2);
    // Both slopes satisfy the same equation.
    let t = w + v;
    assert((l - m) * (x2 - x1) == p * t) by (nonlinear_arith)
        requires
            l * (x2 - x1) - (y2 - y1) == p * w,
            m * (x1 - x2) - (y1 - y2) == p * v,
            t == w + v,
    ;
    lemma_mod_multiples_basic(t, p);
    assert(t * p == p * t) by (nonlinear_arith);
    lemma_prime_factor(l - m, x2 - x1, p);
    lemma_fundamental_div_mod(l - m, p);
    lemma_mod_bound((y2 - y1) * mod_inv((x2 - x1) % p, p), p);
    lemma_mod_bound((y1 - y2) * mod_inv((x1 - x2) % p, p), p);
    lemma_equal(l, m, (l - m) / p);
    let x3 = (l * l - x1 - x2) % p;
    assert(l * l - x1 - x2 == l * l - x2 - x1);
    let (s, r) = (l * (x1 - x3) - y1, l * (x2 - x3) - y2);
    assert(r - s == p * w) by (nonlinear_arith)
        requires
            l * (x2 - x1) - (y2 - y1) == p * w,
            s == l * (x1 - x3) - y1,
            r == l * (x2 - x3) - y2,
    ;
    lemma_same(r, s, w);
}

/// Law: addition of points of the curve commutes.
pub proof fn law_addition_commutes(a: Option<(int, int)>, b: Option<(int, int)>)
    requires
        curve_point(a),
        curve_point(b),
    ensures
        group_add(a, b) == group_add(b, a),
{
    if let (Some(p), Some(q)) = (a, b) {
        if p != q && !additive_inverses(p, q) {
            lemma_different_x(p, q);
            lemma_chord_commutes(p, q);
        }
    }
}

} // verus!
