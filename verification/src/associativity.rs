//! Addition of points of the curve is associative.
//!
//! Through three points `P`, `Q`, `R` there is one function of the form
//! `x^2 + alpha y + beta x + gamma`. Both ways to add the points give it, as the
//! product of two lines over a vertical; and it determines the sum.
use crate::collinear::{
    joined, lemma_cancel, lemma_combine2, lemma_combine3, lemma_combine4, lemma_equal_residues,
    lemma_inverse_is_reflection, lemma_joined_reflects, lemma_joined_rotates, lemma_joined_sum,
    lemma_joined_twice, lemma_reflected, lemma_same_on_line, lemma_scaled, lemma_sum,
    lemma_sum_is_joined, vanishes,
};
use crate::curve::{curve_b, field_p, group_add, reflected};
use crate::ecdsa::valid_public_key;
use crate::group_law::{
    cubic, curve_point, law_addition_commutes, law_field_modulus_is_prime,
    law_sums_lie_on_the_curve, lemma_equation,
};
use crate::primes::lemma_prime_factor;
use vstd::arithmetic::div_mod::lemma_mod_multiples_basic;
use vstd::prelude::*;

verus! {

/// Coefficients of a function `x^2 + alpha y + beta x + gamma`.
pub ghost struct Conic {
    pub alpha: int,
    pub beta: int,
    pub gamma: int,
}

/// The value of the function at a point.
spec fn at(f: Conic, a: (int, int)) -> int {
    a.0 * a.0 + f.alpha * a.1 + f.beta * a.0 + f.gamma
}

/// The product of the line of slope `l` through `(x, -y)` and the line of slope
/// `m` through `(x, y)`, over the vertical through both.
spec fn conic(l: int, m: int, o: (int, int)) -> Conic {
    let (x, y) = o;
    Conic {
        alpha: -(l + m),
        beta: x + l * m,
        gamma: x * x - 3 - (l * m) * x + y * (l - m),
    }
}

/// The function vanishes where the first line meets the curve.
proof fn lemma_conic_vanishes(
    l: int,
    c: int,
    m: int,
    a: (int, int),
    b: (int, int),
    n: (int, int),
    o: (int, int),
)
    requires
        joined(l, c, a, b, n),
        n.0 == o.0,
        vanishes(o.1 + n.1),
    ensures
        vanishes(at(conic(l, m, o), a)),
{
    let (x, y) = a;
    let x2 = b.0;
    let (x4, y4) = o;
    let h1 = y - l * x - c;
    let h0 = n.1 - l * x4 - c;
    let h2 = -y4 - l * x4 - c;
    lemma_combine2(h2, 1, h0, -1, y4 + n.1);
    let ll = l * l;
    let lc = l * c;
    let lm = l * m;
    let h3 = ll - x - x2 - x4;
    let h4 = 2 * lc + 3 + x * x2 + x * x4 + x2 * x4;
    let f = conic(l, m, o);
    let g = at(f, a);
    // With y = l x + c + h1 and y4 = -(l x4 + c + h2).
    let p1 = (l + m) * y;
    assert(p1 == ll * x + lc + lm * x + m * c + (l + m) * h1) by (nonlinear_arith)
        requires
            p1 == (l + m) * y,
            h1 == y - l * x - c,
            ll == l * l,
            lc == l * c,
            lm == l * m,
    ;
    let p2 = y4 * (l - m);
    assert(p2 == -(ll * x4) - lc + lm * x4 + m * c - (l - m) * h2) by (nonlinear_arith)
        requires
            p2 == y4 * (l - m),
            h2 == -y4 - l * x4 - c,
            ll == l * l,
            lc == l * c,
            lm == l * m,
    ;
    assert((-(l + m)) * y == -p1) by (nonlinear_arith)
        requires
            p1 == (l + m) * y,
    ;
    assert((x4 + lm) * x == x4 * x + lm * x) by (nonlinear_arith);
    assert(g == x * x - p1 + (x4 * x + lm * x) + (x4 * x4 - 3 - lm * x4 + p2));
    // What is left are the sum and the pairs of the x-coordinates.
    let s = (x + x4) * h3;
    assert(s == ll * x + ll * x4 - x * x - 2 * (x * x4) - x4 * x4 - x * x2 - x2 * x4)
        by (nonlinear_arith)
        requires
            s == (x + x4) * h3,
            h3 == ll - x - x2 - x4,
    ;
    assert(x4 * x == x * x4) by (nonlinear_arith);
    let (k1, k2) = (-(l + m), -(l - m));
    assert(k1 * h1 == -((l + m) * h1)) by (nonlinear_arith)
        requires
            k1 == -(l + m),
    ;
    assert(k2 * h2 == -((l - m) * h2)) by (nonlinear_arith)
        requires
            k2 == -(l - m),
    ;
    assert((-(x + x4)) * h3 == -s) by (nonlinear_arith)
        requires
            s == (x + x4) * h3,
    ;
    lemma_combine4(g, k1, h1, k2, h2, -(x + x4), h3, -1, h4);
}

/// The function does not depend on which line comes first.
proof fn lemma_conic_swaps(l: int, m: int, o: (int, int), n: (int, int), a: (int, int))
    requires
        n.0 == o.0,
        vanishes(o.1 + n.1),
        vanishes(at(conic(m, l, n), a)),
    ensures
        vanishes(at(conic(l, m, o), a)),
{
    let g = at(conic(l, m, o), a);
    let h = at(conic(m, l, n), a);
    let d = l - m;
    assert(l * m == m * l) by (nonlinear_arith);
    assert(n.1 * (m - l) == -(n.1 * d)) by (nonlinear_arith)
        requires
            d == l - m,
    ;
    assert(d * (o.1 + n.1) == o.1 * d + n.1 * d) by (nonlinear_arith);
    assert(g - h == d * (o.1 + n.1));
    lemma_combine2(g, 1, h, d, o.1 + n.1);
}

/// A point of the curve on the line is one of the three.
proof fn lemma_on_line(
    l: int,
    c: int,
    a: (int, int),
    b: (int, int),
    d: (int, int),
    r: (int, int),
)
    requires
        valid_public_key(a),
        valid_public_key(b),
        valid_public_key(d),
        valid_public_key(r),
        joined(l, c, a, b, d),
        vanishes(r.1 - l * r.0 - c),
    ensures
        r == a || r == b || r == d,
{
    let p = field_p();
    let (x, y) = r;
    let (x1, x2, x3) = (a.0, b.0, d.0);
    let e = lemma_equation(r);
    lemma_mod_multiples_basic(e, p);
    assert(e * p == p * e) by (nonlinear_arith);
    let q = cubic(x) - y * y;
    assert(vanishes(q));
    let h = y - l * x - c;
    let v = l * x + c;
    // cubic - v^2 = q + (y + v) h.
    let w = cubic(x) - v * v;
    assert(w == 1 * q + (y + v) * h) by (nonlinear_arith)
        requires
            q == cubic(x) - y * y,
            w == cubic(x) - v * v,
            h == y - v,
    ;
    lemma_combine2(w, 1, q, y + v, h);
    let (ll, lc, cc) = (l * l, l * c, c * c);
    let h3 = ll - x1 - x2 - x3;
    let h4 = 2 * lc + 3 + x1 * x2 + x1 * x3 + x2 * x3;
    let h0 = cc - curve_b() - x1 * x2 * x3;
    let product = (x - x1) * (x - x2) * (x - x3);
    let xx = x * x;
    assert(v * v == ll * xx + 2 * (lc * x) + cc) by (nonlinear_arith)
        requires
            v == l * x + c,
            ll == l * l,
            lc == l * c,
            cc == c * c,
            xx == x * x,
    ;
    lemma_product_of_three(x, x1, x2, x3);
    let (s1, s2, s3) = (x1 + x2 + x3, x1 * x2 + x1 * x3 + x2 * x3, x1 * x2 * x3);
    assert(xx * h3 == ll * xx - s1 * xx) by (nonlinear_arith)
        requires
            h3 == ll - s1,
    ;
    assert(x * h4 == 2 * (lc * x) + 3 * x + s2 * x) by (nonlinear_arith)
        requires
            h4 == 2 * lc + 3 + s2,
    ;
    lemma_combine4(product, 1, w, xx, h3, x, h4, 1, h0);
    // One of the factors vanishes.
    law_field_modulus_is_prime();
    lemma_prime_factor((x - x1) * (x - x2), x - x3, p);
    if vanishes(x - x3) {
        lemma_equal_residues(x, x3);
        lemma_same_on_line(l, c, r, d);
    } else {
        lemma_prime_factor(x - x1, x - x2, p);
        if vanishes(x - x1) {
            lemma_equal_residues(x, x1);
            lemma_same_on_line(l, c, r, a);
        } else {
            lemma_equal_residues(x, x2);
            lemma_same_on_line(l, c, r, b);
        }
    }
}

/// A product of three differences, by powers.
proof fn lemma_product_of_three(x: int, x1: int, x2: int, x3: int)
    ensures
        (x - x1) * (x - x2) * (x - x3) == (x * x) * x - (x1 + x2 + x3) * (x * x) + (x1 * x2 + x1 * x3
            + x2 * x3) * x - x1 * x2 * x3,
{
    let two = (x - x1) * (x - x2);
    let (t, u, xx) = (x1 + x2, x1 * x2, x * x);
    assert(two == xx - t * x + u) by (nonlinear_arith)
        requires
            two == (x - x1) * (x - x2),
            t == x1 + x2,
            u == x1 * x2,
            xx == x * x,
    ;
    let tx = t * x;
    assert(two * (x - x3) == two * x - two * x3) by (nonlinear_arith);
    assert(two * x == xx * x - tx * x + u * x) by (nonlinear_arith)
        requires
            two == xx - tx + u,
    ;
    assert(two * x3 == xx * x3 - tx * x3 + u * x3) by (nonlinear_arith)
        requires
            two == xx - tx + u,
    ;
    assert(tx * x == t * xx) by (nonlinear_arith)
        requires
            tx == t * x,
            xx == x * x,
    ;
    assert(tx * x3 == (x1 * x3 + x2 * x3) * x) by (nonlinear_arith)
        requires
            tx == t * x,
            t == x1 + x2,
    ;
    assert((t + x3) * xx == t * xx + xx * x3) by (nonlinear_arith);
    let (m, n) = (x1 * x3, x2 * x3);
    assert((u + m + n) * x == u * x + (m + n) * x) by (nonlinear_arith);
}

/// The slope at which a line leaves its third point.
proof fn lemma_slope_at_third(l: int, c: int, a: (int, int), b: (int, int), d: (int, int))
    requires
        joined(l, c, a, b, d),
    ensures
        vanishes(
            (d.0 - a.0) * (d.0 - b.0) - (3 * (d.0 * d.0) - 3 - l * (d.1 + d.1)),
        ),
{
    let (x, y) = d;
    let (x1, x2) = (a.0, b.0);
    let (ll, lc) = (l * l, l * c);
    let h1 = y - l * x - c;
    let h3 = ll - x1 - x2 - x;
    let h4 = 2 * lc + 3 + x1 * x2 + x1 * x + x2 * x;
    let e = (x - x1) * (x - x2) - (3 * (x * x) - 3 - l * (y + y));
    let ly = l * y;
    assert((2 * l) * h1 == 2 * ly - 2 * (ll * x) - 2 * lc) by (nonlinear_arith)
        requires
            h1 == y - l * x - c,
            ly == l * y,
            ll == l * l,
            lc == l * c,
    ;
    let (m, n, xx) = (x1 * x, x2 * x, x * x);
    assert((2 * x) * h3 == 2 * (ll * x) - 2 * m - 2 * n - 2 * xx) by (nonlinear_arith)
        requires
            h3 == ll - x1 - x2 - x,
            m == x1 * x,
            n == x2 * x,
            xx == x * x,
    ;
    assert((x - x1) * (x - x2) == xx - m - n + x1 * x2) by (nonlinear_arith)
        requires
            m == x1 * x,
            n == x2 * x,
            xx == x * x,
    ;
    assert(l * (y + y) == 2 * ly) by (nonlinear_arith)
        requires
            ly == l * y,
    ;
    lemma_combine3(e, 2 * l, h1, 2 * x, h3, 1, h4);
}

/// The two lines of a sum are not reflections of each other, unless the third
/// point reflects one of the first two.
proof fn lemma_alpha_not_zero(
    a: int,
    c: int,
    b: int,
    e: int,
    p1: (int, int),
    p2: (int, int),
    p3: (int, int),
    p4: (int, int),
    ns: (int, int),
)
    requires
        valid_public_key(p1),
        valid_public_key(p2),
        valid_public_key(p3),
        valid_public_key(p4),
        valid_public_key(ns),
        joined(a, c, p1, p2, reflected(p4)),
        joined(b, e, p4, p3, ns),
        p3 != reflected(p1),
        p3 != reflected(p2),
    ensures
        !vanishes(a + b),
{
    if vanishes(a + b) {
        lemma_reflected(p4);
        lemma_reflected(p3);
        let n4 = reflected(p4);
        let r = reflected(p3);
        let (x3, x4) = (p3.0, p4.0);
        // c + e vanishes.
        let (h1, h2) = (n4.1 - a * x4 - c, p4.1 - b * x4 - e);
        assert((a + b) * x4 == a * x4 + b * x4) by (nonlinear_arith);
        assert((-x4) * (a + b) == -((a + b) * x4)) by (nonlinear_arith);
        lemma_combine4(c + e, 1, p4.1 + n4.1, -1, h1, -1, h2, -x4, a + b);
        // The reflection of the third point lies on the first line.
        let h3 = p3.1 - b * x3 - e;
        assert((a + b) * x3 == a * x3 + b * x3) by (nonlinear_arith);
        assert((-x3) * (a + b) == -((a + b) * x3)) by (nonlinear_arith);
        lemma_combine4(
            r.1 - a * x3 - c,
            1,
            p3.1 + r.1,
            -1,
            h3,
            -x3,
            a + b,
            -1,
            c + e,
        );
        lemma_reflected(p1);
        lemma_reflected(p2);
        lemma_on_line(a, c, p1, p2, n4, r);
        assert(r == n4);
        assert(p3 == p4);
        // Both lines are tangent there.
        lemma_joined_twice(b, e, p4, ns);
        lemma_slope_at_third(a, c, p1, p2, n4);
        let (m, y, ny) = (3 * (x4 * x4) - 3, p4.1, n4.1);
        let product = (x4 - p1.0) * (x4 - p2.0);
        let (g1, g2) = (product - (m - a * (ny + ny)), b * (y + y) - m);
        let (u, v) = (y + ny, a + b);
        assert(product == 1 * g1 + (-1) * g2 + (-2 * a) * u + (2 * y) * v) by (nonlinear_arith)
            requires
                g1 == product - (m - a * (ny + ny)),
                g2 == b * (y + y) - m,
                u == y + ny,
                v == a + b,
        ;
        lemma_combine4(product, 1, g1, -1, g2, -2 * a, u, 2 * y, v);
        law_field_modulus_is_prime();
        lemma_prime_factor(x4 - p1.0, x4 - p2.0, field_p());
        if vanishes(x4 - p1.0) {
            lemma_equal_residues(x4, p1.0);
            lemma_same_on_line(a, c, n4, p1);
        } else {
            lemma_equal_residues(x4, p2.0);
            lemma_same_on_line(a, c, n4, p2);
        }
    }
}

/// The points that two ways of adding go through.
pub ghost struct Ways {
    pub p: (int, int),
    pub q: (int, int),
    pub r: (int, int),
    /// `p + q` and `(p + q) + r`.
    pub pq: (int, int),
    pub s: (int, int),
    /// `q + r` and `p + (q + r)`.
    pub qr: (int, int),
    pub t: (int, int),
    /// Slopes and constants of the four lines.
    pub a: int,
    pub c: int,
    pub b: int,
    pub e: int,
    pub u: int,
    pub v: int,
    pub d: int,
    pub w: int,
}

/// All points lie on the curve, and the lines go through them.
spec fn ways(k: Ways) -> bool {
    &&& valid_public_key(k.p) && valid_public_key(k.q) && valid_public_key(k.r)
    &&& valid_public_key(k.pq) && valid_public_key(k.s)
    &&& valid_public_key(k.qr) && valid_public_key(k.t)
    &&& joined(k.a, k.c, k.p, k.q, reflected(k.pq))
    &&& joined(k.b, k.e, k.pq, k.r, reflected(k.s))
    &&& joined(k.u, k.v, k.q, k.r, reflected(k.qr))
    &&& joined(k.d, k.w, k.p, k.qr, reflected(k.t))
}

/// The function of the first way.
spec fn first(k: Ways) -> Conic {
    conic(k.a, k.b, k.pq)
}

/// The function of the second way.
spec fn second(k: Ways) -> Conic {
    conic(k.u, k.d, k.qr)
}

/// Both functions vanish at the three points, and each at the reflection of its
/// sum.
proof fn lemma_both_vanish(k: Ways)
    requires
        ways(k),
    ensures
        vanishes(at(first(k), k.p)),
        vanishes(at(first(k), k.q)),
        vanishes(at(first(k), k.r)),
        vanishes(at(first(k), reflected(k.s))),
        vanishes(at(second(k), k.p)),
        vanishes(at(second(k), k.q)),
        vanishes(at(second(k), k.r)),
        vanishes(at(second(k), reflected(k.t))),
{
    let (n4, n5, ns, nt) = (reflected(k.pq), reflected(k.qr), reflected(k.s), reflected(k.t));
    lemma_reflected(k.pq);
    lemma_reflected(k.qr);
    // The first way.
    lemma_joined_rotates(k.a, k.c, k.p, k.q, n4);
    lemma_conic_vanishes(k.a, k.c, k.b, k.p, k.q, n4, k.pq);
    lemma_conic_vanishes(k.a, k.c, k.b, k.q, k.p, n4, k.pq);
    lemma_joined_rotates(k.b, k.e, k.pq, k.r, ns);
    lemma_conic_vanishes(k.b, k.e, k.a, k.r, ns, k.pq, n4);
    lemma_conic_vanishes(k.b, k.e, k.a, ns, k.r, k.pq, n4);
    lemma_conic_swaps(k.a, k.b, k.pq, n4, k.r);
    lemma_conic_swaps(k.a, k.b, k.pq, n4, ns);
    // The second way.
    lemma_joined_rotates(k.u, k.v, k.q, k.r, n5);
    lemma_conic_vanishes(k.u, k.v, k.d, k.q, k.r, n5, k.qr);
    lemma_conic_vanishes(k.u, k.v, k.d, k.r, k.q, n5, k.qr);
    lemma_joined_rotates(k.d, k.w, k.p, k.qr, nt);
    lemma_conic_vanishes(k.d, k.w, k.u, k.p, nt, k.qr, n5);
    lemma_conic_vanishes(k.d, k.w, k.u, nt, k.p, k.qr, n5);
    lemma_conic_swaps(k.u, k.d, k.qr, n5, k.p);
    lemma_conic_swaps(k.u, k.d, k.qr, n5, nt);
}

/// The difference of two functions at a point.
proof fn lemma_difference_at(f: Conic, g: Conic, a: (int, int))
    requires
        vanishes(at(f, a)),
        vanishes(at(g, a)),
    ensures
        vanishes((f.alpha - g.alpha) * a.1 + (f.beta - g.beta) * a.0 + (f.gamma - g.gamma)),
{
    let (x, y) = a;
    let e = (f.alpha - g.alpha) * y + (f.beta - g.beta) * x + (f.gamma - g.gamma);
    assert((f.alpha - g.alpha) * y == f.alpha * y - g.alpha * y) by (nonlinear_arith);
    assert((f.beta - g.beta) * x == f.beta * x - g.beta * x) by (nonlinear_arith);
    lemma_combine2(e, 1, at(f, a), -1, at(g, a));
}

/// Along the first line the difference of the functions does not change, where
/// the first two points differ.
proof fn lemma_along_chord(k: Ways)
    requires
        ways(k),
        k.p != k.q,
    ensures
        vanishes(
            (first(k).beta - second(k).beta) + k.a * (first(k).alpha - second(k).alpha),
        ),
{
    let (f, g) = (first(k), second(k));
    lemma_both_vanish(k);
    lemma_difference_at(f, g, k.p);
    lemma_difference_at(f, g, k.q);
    let (da, db, dc) = (f.alpha - g.alpha, f.beta - g.beta, f.gamma - g.gamma);
    let (x1, y1) = k.p;
    let (x2, y2) = k.q;
    let (e1, e2) = (da * y1 + db * x1 + dc, da * y2 + db * x2 + dc);
    let (h1, h2) = (y1 - k.a * x1 - k.c, y2 - k.a * x2 - k.c);
    let a = k.a;
    let z = (db + a * da) * (x1 - x2);
    let ad = a * da;
    let dc1 = da * k.c;
    assert(z == db * x1 - db * x2 + ad * x1 - ad * x2) by (nonlinear_arith)
        requires
            z == (db + ad) * (x1 - x2),
    ;
    assert((-da) * h1 == -(da * y1) + ad * x1 + dc1) by (nonlinear_arith)
        requires
            h1 == y1 - a * x1 - k.c,
            ad == a * da,
            dc1 == da * k.c,
    ;
    assert(da * h2 == da * y2 - ad * x2 - dc1) by (nonlinear_arith)
        requires
            h2 == y2 - a * x2 - k.c,
            ad == a * da,
            dc1 == da * k.c,
    ;
    lemma_combine4(z, 1, e1, -1, e2, -da, h1, da, h2);
    if vanishes(x1 - x2) {
        lemma_equal_residues(x1, x2);
        lemma_same_on_line(a, k.c, k.p, k.q);
    }
    lemma_cancel(db + a * da, x1 - x2);
}

/// The same where the first two points are one: the functions vanish there
/// twice.
proof fn lemma_along_tangent(k: Ways)
    requires
        ways(k),
        k.p == k.q,
        k.qr != reflected(k.p),
    ensures
        vanishes(
            (first(k).beta - second(k).beta) + k.a * (first(k).alpha - second(k).alpha),
        ),
{
    let (f, g) = (first(k), second(k));
    let (x1, y1) = k.p;
    let x3 = k.r.0;
    let x4 = k.pq.0;
    let (x5, y5) = k.qr;
    let (a, b, u, v, d, w) = (k.a, k.b, k.u, k.v, k.d, k.w);
    lemma_reflected(k.qr);
    lemma_reflected(k.p);
    let n5 = reflected(k.qr).1;
    // First: 2 x1 + beta + a alpha = 2 x1 + x4 - a^2.
    let h = a * a - x1 - x1 - x4;
    let one = 2 * x1 + f.beta + a * f.alpha;
    assert(one == (-1) * h) by (nonlinear_arith)
        requires
            h == a * a - x1 - x1 - x4,
            one == 2 * x1 + (x4 + a * b) + a * (-(a + b)),
    ;
    lemma_scaled(one, -1, h);
    // Second: the same sum, times x5 - x1.
    let two = 2 * x1 + g.beta + a * g.alpha;
    let z = two * (x5 - x1);
    lemma_joined_twice(a, k.c, k.p, reflected(k.pq));
    let t1 = a * (y1 + y1) - (3 * (x1 * x1) - 3);
    let l1 = y1 - u * x1 - v;
    let l5 = n5 - u * x5 - v;
    let m1 = y1 - d * x1 - w;
    let m5 = y5 - d * x5 - w;
    let o = y5 + n5;
    let s = u * u - x1 - x3 - x5;
    let q = 2 * (u * v) + 3 + x1 * x3 + x1 * x5 + x3 * x5;
    let j = m5 - m1;
    lemma_combine2(j, 1, m5, -1, m1);
    let n = l1 - l5 + o;
    lemma_combine3(n, 1, l1, -1, l5, 1, o);
    let i = l1 + l5 - o;
    lemma_combine3(i, 1, l1, 1, l5, -1, o);
    let dx = x5 - x1;
    let (ux, dd) = (u * dx, d * dx);
    assert(dd == (y5 - y1) - j) by (nonlinear_arith)
        requires
            dd == d * dx,
            dx == x5 - x1,
            j == (y5 - d * x5 - w) - (y1 - d * x1 - w),
    ;
    assert(ux == n - y1 - y5) by (nonlinear_arith)
        requires
            ux == u * dx,
            dx == x5 - x1,
            n == (y1 - u * x1 - v) - (n5 - u * x5 - v) + (y5 + n5),
    ;
    assert(z == (2 * x1 + x5) * dx + u * dd - a * (ux + dd)) by (nonlinear_arith)
        requires
            z == two * dx,
            two == 2 * x1 + (x5 + u * d) + a * (-(u + d)),
            ux == u * dx,
            dd == d * dx,
    ;
    let yy = y5 - y1;
    let sx = x5 + x1;
    let (uu, uv) = (u * u, u * v);
    let us = u * sx;
    assert(us == u * x5 + u * x1) by (nonlinear_arith)
        requires
            us == u * sx,
            sx == x5 + x1,
    ;
    assert(yy == -us - 2 * v - i);
    assert(u * yy == -(uu * sx) - 2 * uv - u * i) by (nonlinear_arith)
        requires
            yy == -us - 2 * v - i,
            us == u * sx,
            uu == u * u,
            uv == u * v,
    ;
    assert(u * dd == u * yy - u * j) by (nonlinear_arith)
        requires
            dd == yy - j,
    ;
    let ay = a * y1;
    assert(a * (ux + dd) == a * n - 2 * ay - a * j) by (nonlinear_arith)
        requires
            ux + dd == n - 2 * y1 - j,
            ay == a * y1,
    ;
    assert(a * (y1 + y1) == 2 * ay) by (nonlinear_arith)
        requires
            ay == a * y1,
    ;
    assert(uu * sx == s * sx + (x1 + x3 + x5) * sx) by (nonlinear_arith)
        requires
            uu == s + (x1 + x3 + x5),
    ;
    assert((2 * x1 + x5) * dx - (x1 + x3 + x5) * sx + x1 * x3 + x1 * x5 + x3 * x5 + 3 * (x1 * x1)
        == 0) by (nonlinear_arith)
        requires
            dx == x5 - x1,
            sx == x5 + x1,
    ;
    let part = t1 + (a - u) * j + (-a) * n + (-u) * i;
    assert((a - u) * j == a * j - u * j) by (nonlinear_arith);
    assert((-a) * n == -(a * n)) by (nonlinear_arith);
    assert((-u) * i == -(u * i)) by (nonlinear_arith);
    assert((-sx) * s == -(s * sx)) by (nonlinear_arith);
    lemma_combine4(part, 1, t1, a - u, j, -a, n, -u, i);
    lemma_combine3(z, 1, part, -sx, s, -1, q);
    if vanishes(dx) {
        lemma_equal_residues(x5, x1);
        lemma_same_on_line(u, v, reflected(k.qr), k.p);
    }
    lemma_cancel(two, dx);
    let (da, db) = (f.alpha - g.alpha, f.beta - g.beta);
    assert(a * da == a * f.alpha - a * g.alpha) by (nonlinear_arith)
        requires
            da == f.alpha - g.alpha,
    ;
    lemma_combine2(db + a * da, 1, one, -1, two);
}

/// Both ways give the same function.
proof fn lemma_one_function(k: Ways)
    requires
        ways(k),
        k.p != k.r,
        k.q != k.r,
        k.r != reflected(k.pq),
        k.qr != reflected(k.p),
    ensures
        vanishes(first(k).alpha - second(k).alpha),
        vanishes(first(k).beta - second(k).beta),
        vanishes(first(k).gamma - second(k).gamma),
{
    let (f, g) = (first(k), second(k));
    if k.p == k.q {
        lemma_along_tangent(k);
    } else {
        lemma_along_chord(k);
    }
    lemma_both_vanish(k);
    lemma_difference_at(f, g, k.p);
    lemma_difference_at(f, g, k.r);
    let (da, db, dc) = (f.alpha - g.alpha, f.beta - g.beta, f.gamma - g.gamma);
    let (x1, y1) = k.p;
    let (x3, y3) = k.r;
    let (a, c) = (k.a, k.c);
    let (e1, e3) = (da * y1 + db * x1 + dc, da * y3 + db * x3 + dc);
    let h = y1 - a * x1 - c;
    let t = y3 - a * x3 - c;
    let m = db + a * da;
    let ad = a * da;
    let dac = da * c;
    assert(da * t == da * y3 - ad * x3 - dac) by (nonlinear_arith)
        requires
            t == y3 - a * x3 - c,
            ad == a * da,
            dac == da * c,
    ;
    assert(da * h == da * y1 - ad * x1 - dac) by (nonlinear_arith)
        requires
            h == y1 - a * x1 - c,
            ad == a * da,
            dac == da * c,
    ;
    assert((-(x3 - x1)) * m == -(db * x3) + db * x1 - ad * x3 + ad * x1) by (nonlinear_arith)
        requires
            m == db + ad,
    ;
    lemma_combine4(da * t, 1, e3, -1, e1, -(x3 - x1), m, da, h);
    lemma_reflected(k.pq);
    if vanishes(t) {
        lemma_on_line(a, c, k.p, k.q, reflected(k.pq), k.r);
    }
    lemma_cancel(da, t);
    assert(db == 1 * m + (-a) * da) by (nonlinear_arith)
        requires
            m == db + a * da,
    ;
    lemma_combine2(db, 1, m, -a, da);
    assert(dc == 1 * e1 + (-y1) * da + (-x1) * db) by (nonlinear_arith)
        requires
            e1 == da * y1 + db * x1 + dc,
    ;
    lemma_combine3(dc, 1, e1, -y1, da, -x1, db);
}

/// The sum of the x-coordinates where the function vanishes.
proof fn lemma_sum_of_x(l: int, m: int, o: (int, int), s: int, ha: int, hb: int, x12: int, x3: int)
    requires
        ha == l * l - x12 - o.0,
        hb == m * m - o.0 - x3 - s,
    ensures
        ({
            let f = conic(l, m, o);
            s == f.alpha * f.alpha - 2 * f.beta - x12 - x3 - (ha + hb)
        }),
{
    let n = -(l + m);
    assert(n * n == l * l + m * m + 2 * (l * m)) by (nonlinear_arith)
        requires
            n == -(l + m),
    ;
}

/// Both ways give the same sum.
proof fn lemma_same_sum(k: Ways)
    requires
        ways(k),
        k.p != k.r,
        k.q != k.r,
        k.r != reflected(k.pq),
        k.qr != reflected(k.p),
        k.r != reflected(k.p),
        k.r != reflected(k.q),
    ensures
        k.s == k.t,
{
    let (f, g) = (first(k), second(k));
    lemma_one_function(k);
    lemma_both_vanish(k);
    lemma_reflected(k.s);
    lemma_reflected(k.t);
    let (x1, x2, x3) = (k.p.0, k.q.0, k.r.0);
    let (xs, xt) = (k.s.0, k.t.0);
    let ha = k.a * k.a - (x1 + x2) - k.pq.0;
    let hb = k.b * k.b - k.pq.0 - x3 - xs;
    let hu = k.u * k.u - (x2 + x3) - k.qr.0;
    let hd = k.d * k.d - k.qr.0 - x1 - xt;
    assert(vanishes(ha)) by {
        assert(ha == k.a * k.a - x1 - x2 - k.pq.0);
    }
    assert(vanishes(hb));
    assert(vanishes(hu)) by {
        assert(hu == k.u * k.u - x2 - x3 - k.qr.0);
    }
    assert(vanishes(hd)) by {
        assert(hd == k.d * k.d - x1 - k.qr.0 - xt);
    }
    lemma_sum_of_x(k.a, k.b, k.pq, xs, ha, hb, x1 + x2, x3);
    lemma_sum_of_x(k.u, k.d, k.qr, xt, hu, hd, x2 + x3, x1);
    let (da, db, dc) = (f.alpha - g.alpha, f.beta - g.beta, f.gamma - g.gamma);
    let m = f.alpha + g.alpha;
    assert(m * da == f.alpha * f.alpha - g.alpha * g.alpha) by (nonlinear_arith)
        requires
            m == f.alpha + g.alpha,
            da == f.alpha - g.alpha,
    ;
    lemma_combine2(m * da - 2 * db, m, da, -2, db);
    let left = ha + hb;
    let right = hu + hd;
    lemma_sum(ha, hb);
    lemma_sum(hu, hd);
    lemma_combine3(xs - xt, 1, m * da - 2 * db, -1, left, 1, right);
    lemma_equal_residues(xs, xt);
    // y-coordinates.
    let (ns, nt) = (reflected(k.s), reflected(k.t));
    let (ys, yt) = (ns.1, nt.1);
    let (u, v) = (at(f, ns), at(g, nt));
    let z = f.alpha * (ys - yt);
    let x = xs;
    let rest = yt * da + x * db + dc;
    lemma_combine3(rest, yt, da, x, db, 1, dc);
    assert(z == 1 * u + (-1) * v + (-1) * rest) by (nonlinear_arith)
        requires
            z == f.alpha * (ys - yt),
            u == x * x + f.alpha * ys + f.beta * x + f.gamma,
            v == x * x + g.alpha * yt + g.beta * x + g.gamma,
            rest == yt * da + x * db + dc,
            da == f.alpha - g.alpha,
            db == f.beta - g.beta,
            dc == f.gamma - g.gamma,
    ;
    lemma_combine3(z, 1, u, -1, v, -1, rest);
    lemma_alpha_not_zero(k.a, k.c, k.b, k.e, k.p, k.q, k.r, k.pq, ns);
    if vanishes(f.alpha) {
        lemma_scaled(k.a + k.b, -1, f.alpha);
    }
    assert((ys - yt) * f.alpha == z) by (nonlinear_arith)
        requires
            z == f.alpha * (ys - yt),
    ;
    lemma_cancel(ys - yt, f.alpha);
    lemma_equal_residues(ys, yt);
}

/// A point and its reflection differ.
proof fn lemma_reflection_differs(a: (int, int))
    requires
        valid_public_key(a),
    ensures
        reflected(a) != a,
        group_add(Some(a), Some(reflected(a))) is None,
        group_add(Some(reflected(a)), Some(a)) is None,
{
    lemma_reflected(a);
    let y = a.1;
    assert(field_p() - y != y) by {
        assert(field_p() % 2 == 1);
    }
}

/// Taking a summand off again.
pub proof fn lemma_subtract(a: (int, int), b: (int, int))
    requires
        valid_public_key(a),
        valid_public_key(b),
        b != reflected(a),
    ensures
        group_add(group_add(Some(a), Some(b)), Some(reflected(b))) == Some(a),
{
    lemma_inverse_is_reflection(a, b);
    let (l, c) = lemma_sum_is_joined(a, b);
    let d = group_add(Some(a), Some(b))->0;
    lemma_reflected(a);
    lemma_reflected(b);
    lemma_reflected(d);
    lemma_joined_reflects(l, c, a, b, reflected(d));
    lemma_joined_rotates(-l, -c, reflected(a), reflected(b), d);
    lemma_joined_sum(-l, -c, d, reflected(b), reflected(a));
}

/// Associativity where no two of the points are opposite, the third differs
/// from both others, and no partial sum is opposite to the point added to it.
proof fn lemma_associates(p: (int, int), q: (int, int), r: (int, int))
    requires
        valid_public_key(p),
        valid_public_key(q),
        valid_public_key(r),
        p != r,
        q != r,
        q != reflected(p),
        r != reflected(q),
        r != reflected(p),
        group_add(Some(p), Some(q)) != Some(reflected(r)),
        group_add(Some(q), Some(r)) != Some(reflected(p)),
    ensures
        group_add(group_add(Some(p), Some(q)), Some(r)) == group_add(
            Some(p),
            group_add(Some(q), Some(r)),
        ),
{
    lemma_inverse_is_reflection(p, q);
    lemma_inverse_is_reflection(q, r);
    let (a, c) = lemma_sum_is_joined(p, q);
    let (u, v) = lemma_sum_is_joined(q, r);
    let pq = group_add(Some(p), Some(q))->0;
    let qr = group_add(Some(q), Some(r))->0;
    lemma_reflected(pq);
    lemma_reflected(qr);
    lemma_reflected(p);
    lemma_reflected(r);
    lemma_inverse_is_reflection(pq, r);
    lemma_inverse_is_reflection(p, qr);
    let (b, e) = lemma_sum_is_joined(pq, r);
    let (d, w) = lemma_sum_is_joined(p, qr);
    let s = group_add(Some(pq), Some(r))->0;
    let t = group_add(Some(p), Some(qr))->0;
    lemma_same_sum(Ways { p, q, r, pq, s, qr, t, a, c, b, e, u, v, d, w });
}

/// Law: addition of points of the curve is associative.
pub proof fn law_addition_associates(
    a: Option<(int, int)>,
    b: Option<(int, int)>,
    c: Option<(int, int)>,
)
    requires
        curve_point(a),
        curve_point(b),
        curve_point(c),
    ensures
        group_add(group_add(a, b), c) == group_add(a, group_add(b, c)),
{
    if let (Some(p), Some(q), Some(r)) = (a, b, c) {
        lemma_reflected(p);
        lemma_reflected(q);
        lemma_reflected(r);
        lemma_reflection_differs(p);
        lemma_reflection_differs(q);
        lemma_reflection_differs(r);
        law_sums_lie_on_the_curve(a, b);
        law_sums_lie_on_the_curve(b, c);
        law_addition_commutes(a, b);
        law_addition_commutes(b, c);
        law_addition_commutes(a, c);
        law_addition_commutes(group_add(a, b), c);
        law_addition_commutes(a, group_add(b, c));
        if q == reflected(p) {
            if r != p {
                lemma_subtract(r, q);
            }
        } else if r == reflected(q) {
            lemma_subtract(p, q);
        } else if r == reflected(p) {
            lemma_subtract(q, p);
            lemma_subtract(q, r);
        } else if p == r {
        } else if group_add(a, b) == Some(reflected(r)) {
            lemma_inverse_is_reflection(p, q);
            let (l, k) = lemma_sum_is_joined(p, q);
            lemma_joined_rotates(l, k, p, q, r);
            lemma_joined_sum(l, k, q, r, p);
        } else if group_add(b, c) == Some(reflected(p)) {
            lemma_inverse_is_reflection(q, r);
            let (l, k) = lemma_sum_is_joined(q, r);
            lemma_joined_rotates(l, k, q, r, p);
            lemma_joined_sum(l, k, p, q, r);
        } else if q == r {
            lemma_associates(q, q, p);
        } else {
            lemma_associates(p, q, r);
        }
    }
}

} // verus!
