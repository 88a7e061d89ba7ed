//! Multiples of points of the curve: they add up, and the group is generated by
//! the generator, which has order `n`.
pub mod chain;

use crate::associativity::law_addition_associates;
use crate::collinear::{lemma_cancel, lemma_equal_residues, lemma_reflected, vanishes};
use crate::curve::{
    chord_slope, field_p, generator, group_add, group_mul, group_n, is_mod_inverse, mod_inv,
    reflected, tangent_slope,
};
use crate::ecdsa::{law_generator_on_curve, valid_public_key};
use crate::group_law::{
    curve_point, law_addition_commutes, law_group_order_is_prime, law_sums_lie_on_the_curve,
    lemma_not_own_reflection, lemma_slope, lemma_twice_y,
};
use crate::primes::law_residues_have_inverses;
use vstd::arithmetic::div_mod::{
    lemma_fundamental_div_mod, lemma_mod_bound, lemma_mod_multiples_basic,
    lemma_mod_multiples_vanish, lemma_small_mod,
};
use vstd::prelude::*;

verus! {

/// `k` times a point: infinity, with the point added `k` times.
pub open spec fn times(k: nat, a: (int, int)) -> Option<(int, int)>
    decreases k,
{
    if k == 0 {
        None
    } else {
        group_add(times((k - 1) as nat, a), Some(a))
    }
}

/// `k` times a point that may be infinite.
pub open spec fn times_of(k: nat, a: Option<(int, int)>) -> Option<(int, int)> {
    match a {
        None => None,
        Some(p) => times(k, p),
    }
}

/// The opposite point.
pub open spec fn opposite(a: Option<(int, int)>) -> Option<(int, int)> {
    match a {
        None => None,
        Some(p) => Some(reflected(p)),
    }
}

/// Multiples lie on the curve.
pub proof fn lemma_times_on_curve(k: nat, a: (int, int))
    requires
        valid_public_key(a),
    ensures
        curve_point(times(k, a)),
    decreases k,
{
    if k > 0 {
        lemma_times_on_curve((k - 1) as nat, a);
        law_sums_lie_on_the_curve(times((k - 1) as nat, a), Some(a));
    }
}

/// Multiples add up.
pub proof fn lemma_times_add(i: nat, j: nat, a: (int, int))
    requires
        valid_public_key(a),
    ensures
        times(i + j, a) == group_add(times(i, a), times(j, a)),
    decreases j,
{
    lemma_times_on_curve(i, a);
    lemma_times_on_curve(j, a);
    if j > 0 {
        let m = (j - 1) as nat;
        lemma_times_add(i, m, a);
        lemma_times_on_curve(m, a);
        law_addition_associates(times(i, a), times(m, a), Some(a));
        assert((i + j - 1) as nat == i + m);
    }
}

/// Multiples of multiples.
pub proof fn lemma_times_multiply(i: nat, j: nat, a: (int, int))
    requires
        valid_public_key(a),
    ensures
        times(i * j, a) == times_of(i, times(j, a)),
    decreases i,
{
    if i == 0 {
        assert(i * j == 0) by (nonlinear_arith)
            requires
                i == 0,
        ;
    } else {
        let m = (i - 1) as nat;
        lemma_times_multiply(m, j, a);
        lemma_times_add(m * j, j, a);
        assert(i * j == m * j + j) by (nonlinear_arith)
            requires
                i == m + 1,
        ;
    }
}

/// The multiple by doubling is the multiple by adding.
pub proof fn lemma_group_mul_is_times(k: nat, a: (int, int))
    requires
        valid_public_key(a),
    ensures
        group_mul(k as int, a) == times(k, a),
    decreases k,
{
    if k > 0 {
        let h = k / 2;
        lemma_group_mul_is_times(h, a);
        lemma_times_add(h, h, a);
        if k % 2 == 1 {
            assert((k - 1) as nat == h + h);
        } else {
            assert(k == h + h);
        }
    }
}

/// The opposite of a point of the curve is one, and cancels it.
pub proof fn lemma_opposite(a: Option<(int, int)>)
    requires
        curve_point(a),
    ensures
        curve_point(opposite(a)),
        group_add(a, opposite(a)) is None,
        group_add(opposite(a), a) is None,
        opposite(opposite(a)) == a,
{
    if let Some(p) = a {
        lemma_reflected(p);
        let y = p.1;
        assert(field_p() - y != y) by {
            assert(field_p() % 2 == 1);
        }
    }
}

/// A common summand on the left can be cancelled.
pub proof fn lemma_left_cancel(a: Option<(int, int)>, b: Option<(int, int)>, c: Option<(int, int)>)
    requires
        curve_point(a),
        curve_point(b),
        curve_point(c),
        group_add(a, b) == group_add(a, c),
    ensures
        b == c,
{
    lemma_opposite(a);
    law_addition_associates(opposite(a), a, b);
    law_addition_associates(opposite(a), a, c);
}

/// What cancels a point is its opposite.
pub proof fn lemma_opposite_unique(a: Option<(int, int)>, b: Option<(int, int)>)
    requires
        curve_point(a),
        curve_point(b),
        group_add(a, b) is None,
    ensures
        b == opposite(a),
{
    lemma_opposite(a);
    lemma_left_cancel(a, b, opposite(a));
}

/// The opposite of a sum is the sum of the opposites.
pub proof fn lemma_opposite_of_sum(a: Option<(int, int)>, b: Option<(int, int)>)
    requires
        curve_point(a),
        curve_point(b),
    ensures
        opposite(group_add(a, b)) == group_add(opposite(a), opposite(b)),
{
    lemma_opposite(a);
    lemma_opposite(b);
    let (x, y) = (opposite(a), opposite(b));
    law_sums_lie_on_the_curve(a, b);
    law_sums_lie_on_the_curve(x, y);
    law_addition_commutes(x, y);
    // (a + b) + (y + x) = a + ((b + y) + x) = a + x.
    law_addition_associates(a, b, group_add(y, x));
    law_addition_associates(b, y, x);
    lemma_opposite_unique(group_add(a, b), group_add(x, y));
}

/// Only infinity is its own opposite.
pub proof fn lemma_no_double_vanishes(a: Option<(int, int)>)
    requires
        curve_point(a),
        group_add(a, a) is None,
    ensures
        a is None,
{
}

/// The sum of two points with different x-coordinates, by its slope: each line
/// of the computation is given with its quotient.
pub proof fn lemma_chord_step(
    p: int,
    x1: int,
    y1: int,
    x2: int,
    y2: int,
    l: int,
    q1: int,
    x3: int,
    q2: int,
    y3: int,
    q3: int,
)
    requires
        p == field_p(),
        valid_public_key((x1, y1)),
        valid_public_key((x2, y2)),
        x1 != x2,
        0 <= l < p,
        l * (x2 - x1) == q1 * p + (y2 - y1),
        l * l - x1 - x2 == q2 * p + x3,
        l * (x1 - x3) - y1 == q3 * p + y3,
        0 <= x3 < p,
        0 <= y3 < p,
    ensures
        group_add(Some((x1, y1)), Some((x2, y2))) == Some((x3, y3)),
{
    let (a, b) = ((x1, y1), (x2, y2));
    let m = chord_slope(a, b);
    let t = x2 - x1;
    if vanishes(t) {
        lemma_equal_residues(x2, x1);
    }
    let w = lemma_slope(t, y2 - y1);
    lemma_slope_is(p, l, m, t, y2 - y1, q1, w);
    lemma_mod_bound((y2 - y1) * mod_inv(t % p, p), p);
    lemma_equal_residues(l, m);
    lemma_remainder(l * l - x1 - x2, p, q2, x3);
    lemma_remainder(l * (x1 - x3) - y1, p, q3, y3);
}

/// The double of a point, by its slope.
pub proof fn lemma_tangent_step(
    p: int,
    x: int,
    y: int,
    l: int,
    q1: int,
    x3: int,
    q2: int,
    y3: int,
    q3: int,
)
    requires
        p == field_p(),
        valid_public_key((x, y)),
        0 <= l < p,
        l * (y + y) == q1 * p + (3 * (x * x) - 3),
        l * l - x - x == q2 * p + x3,
        l * (x - x3) - y == q3 * p + y3,
        0 <= x3 < p,
        0 <= y3 < p,
    ensures
        group_add(Some((x, y)), Some((x, y))) == Some((x3, y3)),
{
    let a = (x, y);
    let m = tangent_slope(a);
    let t = y + y;
    let n = 3 * (x * x) - 3;
    lemma_not_own_reflection(a);
    lemma_twice_y(a);
    let w = lemma_slope(t, n);
    lemma_slope_is(p, l, m, t, n, q1, w);
    lemma_mod_bound(n * mod_inv(t % p, p), p);
    lemma_equal_residues(l, m);
    lemma_remainder(l * l - x - x, p, q2, x3);
    lemma_remainder(l * (x - x3) - y, p, q3, y3);
}

/// Two slopes with the same equation differ by a multiple.
proof fn lemma_slope_is(p: int, l: int, m: int, t: int, n: int, q: int, w: int)
    requires
        p == field_p(),
        !vanishes(t),
        l * t == q * p + n,
        m * t - n == p * w,
    ensures
        vanishes(l - m),
{
    let k = q - w;
    assert((l - m) * t == k * p) by (nonlinear_arith)
        requires
            l * t == q * p + n,
            m * t - n == p * w,
            k == q - w,
    ;
    lemma_mod_multiples_basic(k, p);
    lemma_cancel(l - m, t);
}

proof fn lemma_remainder(v: int, p: int, q: int, r: int)
    requires
        p == field_p(),
        v == q * p + r,
        0 <= r < p,
    ensures
        v % p == r,
{
    assert(q * p + r == p * q + r) by (nonlinear_arith);
    lemma_mod_multiples_vanish(q, r, p);
    lemma_small_mod(r as nat, p as nat);
}

/// `k` times the generator is the point `(x, y)`.
#[verifier::opaque]
pub open spec fn leads(k: nat, x: int, y: int) -> bool {
    times(k, generator()) == Some((x, y)) && valid_public_key((x, y))
}

/// The generator itself.
pub proof fn lemma_leads_first()
    ensures
        leads(1, generator().0, generator().1),
{
    reveal(leads);
    reveal_with_fuel(times, 2);
    law_generator_on_curve();
}

/// Doubles the multiple.
pub proof fn lemma_leads_double(
    k: nat,
    p: int,
    x: int,
    y: int,
    l: int,
    q1: int,
    x3: int,
    q2: int,
    y3: int,
    q3: int,
) -> (r: nat)
    requires
        leads(k, x, y),
        p == field_p(),
        0 <= l < p,
        l * (y + y) == q1 * p + (3 * (x * x) - 3),
        l * l - x - x == q2 * p + x3,
        l * (x - x3) - y == q3 * p + y3,
        0 <= x3 < p,
        0 <= y3 < p,
    ensures
        r == 2 * k,
        leads(r, x3, y3),
{
    reveal(leads);
    law_generator_on_curve();
    lemma_tangent_step(p, x, y, l, q1, x3, q2, y3, q3);
    lemma_times_add(k, k, generator());
    lemma_times_on_curve(k + k, generator());
    k + k
}

/// Adds the generator.
pub proof fn lemma_leads_next(
    k: nat,
    p: int,
    x: int,
    y: int,
    gx: int,
    gy: int,
    l: int,
    q1: int,
    x3: int,
    q2: int,
    y3: int,
    q3: int,
) -> (r: nat)
    requires
        leads(k, x, y),
        p == field_p(),
        (gx, gy) == generator(),
        x != gx,
        0 <= l < p,
        l * (gx - x) == q1 * p + (gy - y),
        l * l - x - gx == q2 * p + x3,
        l * (x - x3) - y == q3 * p + y3,
        0 <= x3 < p,
        0 <= y3 < p,
    ensures
        r == k + 1,
        leads(r, x3, y3),
{
    reveal(leads);
    law_generator_on_curve();
    lemma_chord_step(p, x, y, gx, gy, l, q1, x3, q2, y3, q3);
    lemma_times_on_curve(k + 1, generator());
    k + 1
}

/// Takes the generator off.
pub proof fn lemma_leads_previous(
    k: nat,
    p: int,
    x: int,
    y: int,
    gx: int,
    ny: int,
    l: int,
    q1: int,
    x3: int,
    q2: int,
    y3: int,
    q3: int,
) -> (r: nat)
    requires
        k >= 1,
        leads(k, x, y),
        p == field_p(),
        gx == generator().0,
        ny == p - generator().1,
        x != gx,
        0 <= l < p,
        l * (gx - x) == q1 * p + (ny - y),
        l * l - x - gx == q2 * p + x3,
        l * (x - x3) - y == q3 * p + y3,
        0 <= x3 < p,
        0 <= y3 < p,
    ensures
        r == k - 1,
        leads(r, x3, y3),
{
    reveal(leads);
    let g = generator();
    let m = (k - 1) as nat;
    law_generator_on_curve();
    lemma_reflected(g);
    lemma_chord_step(p, x, y, gx, ny, l, q1, x3, q2, y3, q3);
    lemma_times_on_curve(m, g);
    lemma_opposite(Some(g));
    law_addition_associates(times(m, g), Some(g), Some(reflected(g)));
    m
}

/// The multiple before the order is the reflected generator.
pub proof fn lemma_order_from_chain(k: nat, gx: int, ny: int)
    requires
        leads(k, gx, ny),
        gx == generator().0,
        ny == field_p() - generator().1,
    ensures
        times(k + 1, generator()) is None,
{
    reveal(leads);
    law_generator_on_curve();
    lemma_reflected(generator());
    lemma_opposite(Some(generator()));
}

/// Law: the generator has order `n`: `n` times the generator is infinity.
pub proof fn law_generator_has_order_n()
    ensures
        times(group_n() as nat, generator()) is None,
        group_mul(group_n(), generator()) is None,
{
    chain::lemma_last_multiple();
    lemma_order_from_chain(
        (group_n() - 1) as nat,
        generator().0,
        field_p() - generator().1,
    );
    law_generator_on_curve();
    lemma_group_mul_is_times(group_n() as nat, generator());
}

/// A point that vanishes `n` times vanishes for multiples of `n` only.
proof fn lemma_order_of(q: (int, int), u: nat)
    requires
        valid_public_key(q),
        times(group_n() as nat, q) is None,
        0 < u < group_n(),
    ensures
        times(u, q) is Some,
{
    let n = group_n();
    if times(u, q) is None {
        law_group_order_is_prime();
        law_residues_have_inverses(u as int, n);
        let w = choose|w: int| is_mod_inverse(u as int, w, n);
        let t = (u * w) / n;
        lemma_fundamental_div_mod(u * w, n);
        assert(t >= 0) by (nonlinear_arith)
            requires
                u * w == n * t + 1,
                u > 0,
                w >= 0,
                n > 1,
        ;
        assert(w * u == u * w && t * n == n * t) by (nonlinear_arith);
        lemma_times_multiply(w as nat, u, q);
        lemma_times_multiply(t as nat, n as nat, q);
        assert(w as nat * u == (u * w) as nat);
        assert(t as nat * n as nat == (n * t) as nat);
        lemma_times_add((n * t) as nat, 1, q);
        reveal_with_fuel(times, 2);
        assert((u * w) as nat == (n * t) as nat + 1);
    }
}

/// Multiples of a point that vanishes `n` times depend on the remainder alone.
pub proof fn lemma_times_remainder(k: nat, q: (int, int))
    requires
        valid_public_key(q),
        times(group_n() as nat, q) is None,
    ensures
        times(k, q) == times((k as int % group_n()) as nat, q),
{
    let n = group_n();
    let (t, r) = (k as int / n, k as int % n);
    lemma_fundamental_div_mod(k as int, n);
    lemma_mod_bound(k as int, n);
    assert(t >= 0) by (nonlinear_arith)
        requires
            k as int == n * t + r,
            0 <= r < n,
            k >= 0,
    ;
    assert(t * n == n * t && n * t >= 0) by (nonlinear_arith)
        requires
            t >= 0,
            n > 0,
    ;
    lemma_times_multiply(t as nat, n as nat, q);
    assert(t as nat * n as nat == (n * t) as nat);
    lemma_times_add((n * t) as nat, r as nat, q);
    lemma_times_on_curve(r as nat, q);
    assert((n * t) as nat + r as nat == k);
}

/// The opposite of a multiple is the multiple of the opposite number.
pub proof fn lemma_opposite_multiple(u: nat, q: (int, int))
    requires
        valid_public_key(q),
        times(group_n() as nat, q) is None,
        u <= group_n(),
    ensures
        opposite(times(u, q)) == times((group_n() - u) as nat, q),
{
    let v = (group_n() - u) as nat;
    lemma_times_on_curve(u, q);
    lemma_times_on_curve(v, q);
    lemma_times_add(u, v, q);
    lemma_opposite_unique(times(u, q), times(v, q));
}

/// Different multiples of the generator are different points.
proof fn lemma_multiples_differ(i: nat, j: nat)
    requires
        i < j < group_n(),
    ensures
        times(i, generator()) != times(j, generator()),
{
    let g = generator();
    law_generator_on_curve();
    law_generator_has_order_n();
    if times(i, g) == times(j, g) {
        let d = (j - i) as nat;
        lemma_times_add(i, d, g);
        lemma_times_on_curve(i, g);
        lemma_times_on_curve(d, g);
        lemma_left_cancel(times(i, g), times(d, g), None);
        lemma_order_of(g, d);
    }
}

/// The point is a multiple of the generator.
pub open spec fn generated(a: Option<(int, int)>) -> bool {
    exists|k: nat| k < group_n() && a == #[trigger] times(k, generator())
}

/// Any multiple of the generator is one below the order.
proof fn lemma_generated(k: nat)
    ensures
        generated(times(k, generator())),
{
    law_generator_on_curve();
    law_generator_has_order_n();
    lemma_times_remainder(k, generator());
    lemma_mod_bound(k as int, group_n());
    let r = (k as int % group_n()) as nat;
    assert(times(k, generator()) == times(r, generator()));
}

/// Sums and opposites of multiples of the generator are multiples.
proof fn lemma_generated_closed(a: Option<(int, int)>, b: Option<(int, int)>)
    requires
        generated(a),
        generated(b),
    ensures
        generated(opposite(a)),
        generated(group_add(a, b)),
        curve_point(a),
        curve_point(b),
{
    let g = generator();
    let i = choose|k: nat| k < group_n() && a == #[trigger] times(k, g);
    let j = choose|k: nat| k < group_n() && b == #[trigger] times(k, g);
    law_generator_on_curve();
    law_generator_has_order_n();
    lemma_opposite_multiple(i, g);
    lemma_generated((group_n() - i) as nat);
    lemma_times_add(i, j, g);
    lemma_generated(i + j);
    lemma_times_on_curve(i, g);
    lemma_times_on_curve(j, g);
}

/// What is left when a summand is taken off.
proof fn lemma_difference_of(a: Option<(int, int)>, b: Option<(int, int)>, c: Option<(int, int)>)
    requires
        curve_point(a),
        curve_point(b),
        curve_point(c),
        group_add(a, b) == c,
    ensures
        a == group_add(c, opposite(b)),
{
    lemma_opposite(b);
    law_addition_associates(a, b, opposite(b));
}

/// A point whose double is a multiple of the generator is a multiple.
proof fn lemma_half(q: Option<(int, int)>)
    requires
        curve_point(q),
        generated(group_add(q, q)),
    ensures
        generated(q),
{
    let g = generator();
    let n = group_n();
    law_generator_on_curve();
    law_generator_has_order_n();
    let m = choose|k: nat| k < group_n() && group_add(q, q) == #[trigger] times(k, g);
    // h = m (n + 1) / 2 has the double m (n + 1) = m.
    let half = ((n + 1) / 2) as nat;
    let h = (m * half) as nat;
    assert(m * half >= 0) by (nonlinear_arith)
        requires
            m >= 0,
            half >= 0,
    ;
    assert(n % 2 == 1);
    assert(h + h == m * (n as nat) + m) by (nonlinear_arith)
        requires
            h as int == m * half,
            2 * half == n + 1,
            n > 0,
    ;
    let p = times(h, g);
    lemma_times_on_curve(h, g);
    lemma_times_add(h, h, g);
    lemma_times_multiply(m, n as nat, g);
    lemma_times_add(m * (n as nat), m, g);
    lemma_times_on_curve(m, g);
    assert(group_add(p, p) == group_add(q, q));
    // (q - p) + (q - p) = (q + q) - (p + p).
    let o = opposite(p);
    lemma_opposite(p);
    let d = group_add(q, o);
    law_sums_lie_on_the_curve(q, o);
    law_addition_commutes(q, o);
    law_addition_associates(q, o, d);
    law_addition_associates(o, q, o);
    law_addition_associates(o, o, q);
    law_sums_lie_on_the_curve(o, o);
    law_sums_lie_on_the_curve(q, q);
    lemma_opposite_of_sum(p, p);
    // o + (q + o) = o + (o + q) = (o + o) + q.
    law_addition_commutes(group_add(o, o), q);
    law_addition_associates(q, q, group_add(o, o));
    lemma_opposite(group_add(q, q));
    lemma_no_double_vanishes(d);
    lemma_opposite_unique(q, o);
    assert(opposite(q) == o);
    lemma_opposite(q);
    assert(q == p);
    lemma_generated(h);
}

/// A number for every point of the curve.
spec fn code(a: Option<(int, int)>) -> int {
    match a {
        None => 2 * field_p(),
        Some(p) => 2 * p.0 + p.1 % 2,
    }
}

/// Different points have different numbers.
proof fn lemma_code(a: Option<(int, int)>, b: Option<(int, int)>)
    requires
        curve_point(a),
        curve_point(b),
        code(a) == code(b),
    ensures
        a == b,
{
    if let (Some(p), Some(q)) = (a, b) {
        assert(p.0 == q.0 && p.1 % 2 == q.1 % 2);
        crate::group_law::lemma_same_x(p, q);
        if p != q {
            crate::collinear::lemma_inverse_is_reflection(p, q);
            lemma_reflected(p);
            assert(q.1 == field_p() - p.1);
            assert(field_p() % 2 == 1);
        }
    }
}

/// The points of the three cosets of a point.
spec fn coset_point(q: Option<(int, int)>, i: int) -> Option<(int, int)> {
    let n = group_n();
    if i < n {
        times(i as nat, generator())
    } else if i < 2 * n {
        group_add(q, times((i - n) as nat, generator()))
    } else {
        group_add(opposite(q), times((i - 2 * n) as nat, generator()))
    }
}

/// Points of the cosets of a point that is no multiple are different.
proof fn lemma_cosets_differ(q: Option<(int, int)>, i: int, j: int)
    requires
        curve_point(q),
        !generated(q),
        0 <= i < j < 3 * group_n(),
    ensures
        coset_point(q, i) != coset_point(q, j),
{
    let n = group_n();
    let g = generator();
    law_generator_on_curve();
    lemma_opposite(q);
    if coset_point(q, i) == coset_point(q, j) {
        let o = opposite(q);
        if j < n {
            lemma_multiples_differ(i as nat, j as nat);
        } else {
            let v = if j < 2 * n {
                (j - n) as nat
            } else {
                (j - 2 * n) as nat
            };
            lemma_times_on_curve(v, g);
            lemma_generated(v);
            let b = times(v, g);
            if i < n {
                // A multiple is q + b or -q + b.
                lemma_generated(i as nat);
                let c = times(i as nat, g);
                lemma_times_on_curve(i as nat, g);
                lemma_generated_closed(b, b);
                lemma_generated_closed(c, opposite(b));
                if j < 2 * n {
                    lemma_difference_of(q, b, c);
                } else {
                    lemma_difference_of(o, b, c);
                    lemma_generated_closed(o, o);
                }
            } else {
                let u = if i < 2 * n {
                    (i - n) as nat
                } else {
                    (i - 2 * n) as nat
                };
                let c = times(u, g);
                lemma_times_on_curve(u, g);
                lemma_generated(u);
                if j < 2 * n {
                    lemma_left_cancel(q, c, b);
                    lemma_multiples_differ(u, v);
                } else if i >= 2 * n {
                    lemma_left_cancel(o, c, b);
                    lemma_multiples_differ(u, v);
                } else {
                    // q + c = -q + b, so q + q = b - c.
                    lemma_generated_closed(c, c);
                    lemma_generated_closed(b, opposite(c));
                    law_addition_associates(q, q, c);
                    law_addition_associates(q, o, b);
                    law_sums_lie_on_the_curve(q, q);
                    lemma_difference_of(group_add(q, q), c, b);
                    lemma_half(q);
                }
            }
        }
    }
}

/// Law: every point of the curve is a multiple of the generator. The cosets of a
/// point that is none would hold more points than there are residues for.
pub proof fn law_generator_generates(q: Option<(int, int)>)
    requires
        curve_point(q),
    ensures
        generated(q),
{
    let n = group_n();
    let p = field_p();
    if !generated(q) {
        let codes = Seq::new((3 * n) as nat, |i: int| code(coset_point(q, i)));
        assert forall|i: int| 0 <= i < 3 * n implies curve_point(#[trigger] coset_point(q, i)) by {
            lemma_coset_on_curve(q, i);
        }
        assert forall|i: int, j: int| 0 <= i < j < 3 * n implies codes[i] != codes[j] by {
            lemma_cosets_differ(q, i, j);
            assert(curve_point(coset_point(q, i)) && curve_point(coset_point(q, j)));
            if codes[i] == codes[j] {
                lemma_code(coset_point(q, i), coset_point(q, j));
            }
        }
        assert(codes.no_duplicates());
        codes.unique_seq_to_set();
        let range = vstd::set_lib::set_int_range(0, 2 * p + 1);
        vstd::set_lib::lemma_int_range(0, 2 * p + 1);
        assert forall|x: int| codes.to_set().contains(x) implies range.contains(x) by {
            let i = choose|i: int| 0 <= i < codes.len() && codes[i] == x;
            assert(curve_point(coset_point(q, i)));
        }
        vstd::set_lib::lemma_len_subset(codes.to_set(), range);
        assert(3 * n > 2 * p + 1);
    }
}

proof fn lemma_coset_on_curve(q: Option<(int, int)>, i: int)
    requires
        curve_point(q),
        0 <= i < 3 * group_n(),
    ensures
        curve_point(coset_point(q, i)),
{
    let n = group_n();
    let g = generator();
    law_generator_on_curve();
    lemma_opposite(q);
    if i < n {
        lemma_times_on_curve(i as nat, g);
    } else if i < 2 * n {
        lemma_times_on_curve((i - n) as nat, g);
        law_sums_lie_on_the_curve(q, times((i - n) as nat, g));
    } else {
        lemma_times_on_curve((i - 2 * n) as nat, g);
        law_sums_lie_on_the_curve(opposite(q), times((i - 2 * n) as nat, g));
    }
}

/// Every point of the curve vanishes `n` times.
pub proof fn lemma_order(q: (int, int))
    requires
        valid_public_key(q),
    ensures
        times(group_n() as nat, q) is None,
{
    let n = group_n() as nat;
    let g = generator();
    law_generator_generates(Some(q));
    let k = choose|k: nat| k < group_n() && Some(q) == #[trigger] times(k, g);
    law_generator_on_curve();
    law_generator_has_order_n();
    lemma_times_multiply(n, k, g);
    lemma_times_multiply(k, n, g);
    assert(n * k == k * n) by (nonlinear_arith);
}

/// Law: of the multiples below the group order, only the zeroth is infinite.
pub proof fn law_multiples_are_finite_below_the_order(u: int, q: (int, int))
    requires
        valid_public_key(q),
        0 <= u < group_n(),
    ensures
        group_mul(u, q) is None <==> u == 0,
{
    lemma_group_mul_is_times(u as nat, q);
    lemma_order(q);
    if u > 0 {
        lemma_order_of(q, u as nat);
    }
}

/// Law: multiples add up, and depend on the number modulo the group order.
pub proof fn law_multiples_add_up(i: int, j: int, q: (int, int))
    requires
        valid_public_key(q),
        i >= 0,
        j >= 0,
    ensures
        group_add(group_mul(i, q), group_mul(j, q)) == group_mul(i + j, q),
        group_mul(i, q) == group_mul(i % group_n(), q),
{
    lemma_group_mul_is_times(i as nat, q);
    lemma_group_mul_is_times(j as nat, q);
    lemma_group_mul_is_times((i + j) as nat, q);
    lemma_times_add(i as nat, j as nat, q);
    lemma_order(q);
    lemma_times_remainder(i as nat, q);
    lemma_mod_bound(i, group_n());
    lemma_group_mul_is_times((i % group_n()) as nat, q);
}

} // verus!
