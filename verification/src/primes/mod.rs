//! Prime numbers: every nonzero residue modulo a prime has an inverse, and a
//! number is shown to be prime by elements of large order.
pub mod fermat;
pub mod field;
pub mod order;
pub mod small;

use crate::curve::is_mod_inverse;
use vstd::arithmetic::div_mod::{
    lemma_fundamental_div_mod, lemma_mod_bound, lemma_mod_multiples_basic,
    lemma_mod_multiples_vanish, lemma_mul_mod_noop, lemma_mul_mod_noop_left,
    lemma_mul_mod_noop_right, lemma_small_mod,
};
use vstd::arithmetic::power::{
    lemma1_pow, lemma_pow1, lemma_pow_adds, lemma_pow_distributes, lemma_pow_mod_noop,
    lemma_pow_multiplies, pow,
};
use vstd::prelude::*;

verus! {

/// No number between one and `n` divides `n`.
pub open spec fn prime(n: int) -> bool {
    n > 1 && forall|d: int| 1 < d < n ==> #[trigger] (n % d) != 0
}

/// Law: modulo a prime, every residue but zero has an inverse.
pub proof fn law_residues_have_inverses(a: int, p: int)
    requires
        prime(p),
        0 < a < p,
    ensures
        exists|b: int| is_mod_inverse(a, b, p),
    decreases a,
{
    if a == 1 {
        lemma_small_mod(1, p as nat);
        assert(is_mod_inverse(1, 1, p));
    } else {
        // p = q a + r with 0 < r < a, so a (-q c) = 1 for the inverse c of r.
        let q = p / a;
        let r = p % a;
        lemma_fundamental_div_mod(p, a);
        lemma_mod_bound(p, a);
        law_residues_have_inverses(r, p);
        let c = choose|c: int| is_mod_inverse(r, c, p);
        let k = (r * c) / p;
        lemma_fundamental_div_mod(r * c, p);
        let b = (-q * c) % p;
        let t = -c + k;
        assert(a * (-q * c) == p * t + 1) by (nonlinear_arith)
            requires
                p == a * q + r,
                r * c == p * k + 1,
                t == -c + k,
        ;
        lemma_mod_multiples_vanish(t, 1, p);
        lemma_small_mod(1, p as nat);
        lemma_mul_mod_noop_right(a, -q * c, p);
        lemma_mod_bound(-q * c, p);
        assert(is_mod_inverse(a, b, p));
    }
}

/// A factor of a multiple of a prime is a multiple, or the other one is.
pub proof fn lemma_prime_factor(a: int, b: int, p: int)
    requires
        prime(p),
        (a * b) % p == 0,
    ensures
        a % p == 0 || b % p == 0,
{
    if a % p != 0 {
        let r = a % p;
        lemma_mod_bound(a, p);
        law_residues_have_inverses(r, p);
        let c = choose|c: int| is_mod_inverse(r, c, p);
        // b = (c r) b = c (r b) = 0.
        lemma_mul_mod_noop_left(a, b, p);
        lemma_mul_mod_noop_right(c, r * b, p);
        assert(c * (r * b) == (r * c) * b) by (nonlinear_arith);
        lemma_mul_mod_noop_left(r * c, b, p);
        assert(c * 0 == 0);
        assert(1 * b == b);
        lemma_small_mod(0, p as nat);
    }
}

/// Powers of a power that is one are one.
proof fn lemma_one_power(b: int, k: nat, j: nat, m: int)
    requires
        m > 1,
        pow(b, k) % m == 1,
    ensures
        pow(b, k * j) % m == 1,
{
    lemma_pow_multiplies(b, k, j);
    lemma_pow_mod_noop(pow(b, k), j, m);
    lemma1_pow(j);
    lemma_small_mod(1, m as nat);
}

/// Where `b^q` is one for a prime `q` and `b` is not, only multiples of `q` give
/// one.
proof fn lemma_prime_order(b: int, q: int, k: nat, m: int)
    requires
        m > 1,
        prime(q),
        pow(b, q as nat) % m == 1,
        b % m != 1,
        pow(b, k) % m == 1,
    ensures
        k as int % q == 0,
{
    let d = k as int % q;
    let s = k as int / q;
    lemma_fundamental_div_mod(k as int, q);
    lemma_mod_bound(k as int, q);
    if d != 0 {
        assert(s >= 0) by (nonlinear_arith)
            requires
                k as int == q * s + d,
                d < q,
                q > 1,
                k >= 0,
        ;
        assert(q * s >= 0) by (nonlinear_arith)
            requires
                q > 1,
                s >= 0,
        ;
        // b^d = 1.
        lemma_one_power(b, q as nat, s as nat, m);
        lemma_pow_adds(b, (q * s) as nat, d as nat);
        lemma_mul_mod_noop_left(pow(b, (q * s) as nat), pow(b, d as nat), m);
        assert(1 * pow(b, d as nat) == pow(b, d as nat));
        assert(pow(b, d as nat) % m == 1);
        // d e = 1 + q t, so b = b^(d e) / b^(q t) = 1.
        law_residues_have_inverses(d, q);
        let e = choose|e: int| is_mod_inverse(d, e, q);
        let t = (d * e) / q;
        lemma_fundamental_div_mod(d * e, q);
        assert(t >= 0 && q * t >= 0) by (nonlinear_arith)
            requires
                d * e == q * t + 1,
                d > 0,
                e >= 0,
                q > 1,
        ;
        lemma_one_power(b, d as nat, e as nat, m);
        lemma_one_power(b, q as nat, t as nat, m);
        lemma_pow_adds(b, (q * t) as nat, 1);
        lemma_pow1(b);
        lemma_mul_mod_noop_left(pow(b, (q * t) as nat), b, m);
        assert(1 * b == b);
        assert(d as nat * e as nat == (q * t) as nat + 1);
    }
}

/// `c^n` is one, and no smaller power is.
pub open spec fn has_order(c: int, n: int, m: int) -> bool {
    &&& n > 0
    &&& pow(c, n as nat) % m == 1
    &&& forall|k: nat| 0 < k < n ==> #[trigger] pow(c, k) % m != 1
}

/// There are no more powers than residues.
proof fn lemma_order_bound(c: int, n: int, m: int)
    requires
        m > 1,
        has_order(c, n, m),
    ensures
        n <= m,
{
    let powers = Seq::new(n as nat, |i: int| pow(c, i as nat) % m);
    assert forall|i: int, j: int| 0 <= i < j < n implies powers[i] != powers[j] by {
        if powers[i] == powers[j] {
            // c^n = c^i c^(n - i) = c^j c^(n - i) = c^n c^(j - i).
            let u = (n - i) as nat;
            let w = (j - i) as nat;
            lemma_pow_adds(c, i as nat, u);
            lemma_pow_adds(c, j as nat, u);
            lemma_pow_adds(c, n as nat, w);
            lemma_mul_mod_noop_left(pow(c, i as nat), pow(c, u), m);
            lemma_mul_mod_noop_left(pow(c, j as nat), pow(c, u), m);
            lemma_mul_mod_noop_left(pow(c, n as nat), pow(c, w), m);
            assert(1 * pow(c, w) == pow(c, w));
            assert(pow(c, w) % m == 1);
        }
    }
    assert(powers.no_duplicates());
    powers.unique_seq_to_set();
    vstd::set_lib::lemma_int_range(0, m);
    assert forall|x: int| powers.to_set().contains(x) implies vstd::set_lib::set_int_range(
        0,
        m,
    ).contains(x) by {
        let i = choose|i: int| 0 <= i < powers.len() && powers[i] == x;
        lemma_mod_bound(pow(c, i as nat), m);
    }
    vstd::set_lib::lemma_len_subset(powers.to_set(), vstd::set_lib::set_int_range(0, m));
}

/// A number that is one modulo `n` is one modulo a divisor of `n`.
proof fn lemma_one_modulo_divisor(x: int, n: int, d: int)
    requires
        d > 1,
        n > 1,
        n % d == 0,
        x % n == 1,
    ensures
        x % d == 1,
{
    lemma_fundamental_div_mod(x, n);
    lemma_fundamental_div_mod(n, d);
    let t = (n / d) * (x / n);
    assert(x == d * t + 1) by (nonlinear_arith)
        requires
            x == n * (x / n) + 1,
            n == d * (n / d),
            t == (n / d) * (x / n),
    ;
    lemma_mod_multiples_vanish(t, 1, d);
    lemma_small_mod(1, d as nat);
}

/// An element of prime order: `b^q` is one, and `b - 1` has the inverse `inv`.
pub open spec fn of_prime_order(b: int, q: int, inv: int, n: int) -> bool {
    &&& prime(q)
    &&& pow(b, q as nat) % n == 1
    &&& ((b - 1) * inv) % n == 1
}

/// An element of prime order has that order modulo every divisor.
proof fn lemma_order_modulo_divisor(b: int, q: int, inv: int, n: int, d: int)
    requires
        n > 1,
        of_prime_order(b, q, inv, n),
        d > 1,
        n % d == 0,
    ensures
        pow(b, q as nat) % d == 1,
        b % d != 1,
{
    lemma_one_modulo_divisor(pow(b, q as nat), n, d);
    lemma_one_modulo_divisor((b - 1) * inv, n, d);
    if b % d == 1 {
        lemma_fundamental_div_mod(b, d);
        let t = (b / d) * inv;
        assert((b - 1) * inv == d * t) by (nonlinear_arith)
            requires
                b == d * (b / d) + 1,
                t == (b / d) * inv,
        ;
        lemma_mod_multiples_basic(t, d);
        assert(t * d == d * t) by (nonlinear_arith);
    }
}

/// A number without a divisor up to its square root is prime.
proof fn lemma_prime_if_no_small_divisor(n: int)
    requires
        n > 1,
        forall|e: int| 1 < e && e * e <= n ==> #[trigger] (n % e) != 0,
    ensures
        prime(n),
{
    assert forall|d: int| 1 < d < n implies #[trigger] (n % d) != 0 by {
        if n % d == 0 {
            let e = n / d;
            lemma_fundamental_div_mod(n, d);
            assert(n == d * e);
            assert(1 < e) by (nonlinear_arith)
                requires
                    n == d * e,
                    1 < d < n,
            ;
            lemma_mod_multiples_basic(d, e);
            if d <= e {
                assert(d * d <= n) by (nonlinear_arith)
                    requires
                        n == d * e,
                        1 < d <= e,
                ;
            } else {
                assert(e * e <= n) by (nonlinear_arith)
                    requires
                        n == d * e,
                        1 < e <= d,
                ;
                assert(n % e != 0);
            }
        }
    }
}

/// An element of prime order above the square root shows that `n` is prime.
pub proof fn lemma_prime_by_one(n: int, b: int, q: int, inv: int)
    requires
        n > 1,
        of_prime_order(b, q, inv, n),
        q * q > n,
    ensures
        prime(n),
{
    assert forall|e: int| 1 < e && e * e <= n implies #[trigger] (n % e) != 0 by {
        if n % e == 0 {
            lemma_order_modulo_divisor(b, q, inv, n, e);
            assert forall|k: nat| 0 < k < q implies #[trigger] pow(b, k) % e != 1 by {
                if pow(b, k) % e == 1 {
                    lemma_prime_order(b, q, k, e);
                    lemma_small_mod(k, q as nat);
                }
            }
            lemma_order_bound(b, q, e);
            assert(q * q <= e * e) by (nonlinear_arith)
                requires
                    0 < q <= e,
            ;
        }
    }
    lemma_prime_if_no_small_divisor(n);
}

/// The product of two elements of different prime orders has the product as its
/// order.
proof fn lemma_product_order(b: int, q: int, c: int, s: int, m: int)
    requires
        m > 1,
        prime(q),
        prime(s),
        q < s,
        pow(b, q as nat) % m == 1,
        b % m != 1,
        pow(c, s as nat) % m == 1,
        c % m != 1,
    ensures
        has_order(b * c, q * s, m),
{
    let z = b * c;
    let n = q * s;
    assert(n > 0 && n == s * q) by (nonlinear_arith)
        requires
            q > 1,
            s > 1,
            n == q * s,
    ;
    lemma_one_power(b, q as nat, s as nat, m);
    lemma_one_power(c, s as nat, q as nat, m);
    lemma_pow_distributes(b, c, n as nat);
    lemma_mul_mod_noop(pow(b, n as nat), pow(c, n as nat), m);
    lemma_small_mod(1, m as nat);
    assert(q as nat * s as nat == n as nat);
    assert(s as nat * q as nat == n as nat);
    assert forall|k: nat| 0 < k < n implies #[trigger] pow(z, k) % m != 1 by {
        if pow(z, k) % m == 1 {
            lemma_factor_divides(b, q, c, s, k, m);
            lemma_pow_distributes(c, b, k);
            assert(c * b == z) by (nonlinear_arith)
                requires
                    z == b * c,
            ;
            lemma_factor_divides(c, s, b, q, k, m);
            // k = s t, and q divides t.
            let t = k as int / s;
            lemma_fundamental_div_mod(k as int, s);
            lemma_prime_factor(s, t, q);
            if s % q == 0 {
                lemma_mod_bound(s, q);
                assert(s % q != 0);
            }
            lemma_fundamental_div_mod(t, q);
            let v = t / q;
            assert(k as int == n * v) by (nonlinear_arith)
                requires
                    k as int == s * t,
                    t == q * v,
                    n == q * s,
            ;
            assert(v >= 1) by (nonlinear_arith)
                requires
                    k as int == n * v,
                    k > 0,
                    n > 0,
            ;
            assert(k as int >= n) by (nonlinear_arith)
                requires
                    k as int == n * v,
                    v >= 1,
                    n > 0,
            ;
        }
    }
}

/// Where `(b c)^k` is one, the order of `c` divides `k`, for different prime
/// orders.
proof fn lemma_factor_divides(b: int, q: int, c: int, s: int, k: nat, m: int)
    requires
        m > 1,
        prime(q),
        prime(s),
        q != s,
        pow(b, q as nat) % m == 1,
        pow(c, s as nat) % m == 1,
        c % m != 1,
        pow(b * c, k) % m == 1,
    ensures
        k as int % s == 0,
{
    // 1 = (b c)^(k q) = b^(q k) c^(k q) = c^(k q).
    let e = (k * q) as nat;
    assert(k * q == q * k) by (nonlinear_arith);
    assert(k * q >= 0) by (nonlinear_arith)
        requires
            k >= 0,
            q > 1,
    ;
    lemma_one_power(b * c, k, q as nat, m);
    lemma_one_power(b, q as nat, k, m);
    assert(k * q as nat == e && q as nat * k == e);
    lemma_pow_distributes(b, c, e);
    lemma_mul_mod_noop_left(pow(b, e), pow(c, e), m);
    assert(1 * pow(c, e) == pow(c, e));
    lemma_prime_order(c, s, e, m);
    lemma_prime_factor(k as int, q, s);
    if q % s == 0 {
        if q < s {
            lemma_small_mod(q as nat, s as nat);
        } else {
            assert(q % s != 0);
        }
    }
}

/// Two elements of different prime orders, whose product is above the square
/// root, show that `n` is prime.
pub proof fn lemma_prime_by_two(n: int, b: int, q: int, i: int, c: int, s: int, j: int)
    requires
        n > 1,
        of_prime_order(b, q, i, n),
        of_prime_order(c, s, j, n),
        q < s,
        (q * s) * (q * s) > n,
    ensures
        prime(n),
{
    assert forall|e: int| 1 < e && e * e <= n implies #[trigger] (n % e) != 0 by {
        if n % e == 0 {
            lemma_order_modulo_divisor(b, q, i, n, e);
            lemma_order_modulo_divisor(c, s, j, n, e);
            lemma_product_order(b, q, c, s, e);
            lemma_order_bound(b * c, q * s, e);
            let o = q * s;
            assert(o * o <= e * e) by (nonlinear_arith)
                requires
                    0 < o <= e,
            ;
        }
    }
    lemma_prime_if_no_small_divisor(n);
}

/// No number from two to `k` divides `n`.
pub open spec fn undivided(n: int, k: nat) -> bool
    decreases k,
{
    k <= 1 || (n % (k as int) != 0 && undivided(n, (k - 1) as nat))
}

/// One more number does not divide `n`: `n = q d + r`.
pub proof fn lemma_undivided_next(n: int, d: int, q: int, r: int)
    requires
        d > 1,
        undivided(n, (d - 1) as nat),
        n == q * d + r,
        0 < r < d,
    ensures
        undivided(n, d as nat),
{
    assert(q * d + r == d * q + r) by (nonlinear_arith);
    lemma_mod_multiples_vanish(q, r, d);
    lemma_small_mod(r as nat, d as nat);
}

/// What is not divided up to `k` has no divisor up to `k`.
proof fn lemma_undivided(n: int, k: nat, d: int)
    requires
        undivided(n, k),
        1 < d <= k,
    ensures
        n % d != 0,
    decreases k,
{
    if d < k {
        lemma_undivided(n, (k - 1) as nat, d);
    }
}

/// Trial division up to the square root.
pub proof fn lemma_prime_by_trial(n: int, k: nat, next: int)
    requires
        n > 1,
        undivided(n, k),
        next == k + 1,
        next * next > n,
    ensures
        prime(n),
{
    assert forall|e: int| 1 < e && e * e <= n implies #[trigger] (n % e) != 0 by {
        if e > k {
            assert(e * e >= next * next) by (nonlinear_arith)
                requires
                    e >= next,
                    next > 0,
            ;
        }
        lemma_undivided(n, k, e);
    }
    lemma_prime_if_no_small_divisor(n);
}

/// `b^e` leaves `v` modulo `m`.
#[verifier::opaque]
pub open spec fn leaves(b: int, e: nat, v: int, m: int) -> bool {
    pow(b, e) % m == v
}

/// The first power.
pub proof fn lemma_leaves_first(b: int, m: int)
    requires
        0 <= b < m,
    ensures
        leaves(b, 1, b, m),
{
    reveal(leaves);
    lemma_pow1(b);
    lemma_small_mod(b as nat, m as nat);
}

/// Doubles the exponent: `v^2 = k m + w`.
pub proof fn lemma_leaves_square(b: int, e: nat, v: int, m: int, k: int, w: int) -> (r: nat)
    requires
        leaves(b, e, v, m),
        v * v == k * m + w,
        0 <= w < m,
    ensures
        r == 2 * e,
        leaves(b, r, w, m),
{
    reveal(leaves);
    lemma_pow_adds(b, e, e);
    lemma_mul_mod_noop(pow(b, e), pow(b, e), m);
    assert(k * m + w == m * k + w) by (nonlinear_arith);
    lemma_mod_multiples_vanish(k, w, m);
    lemma_small_mod(w as nat, m as nat);
    e + e
}

/// Adds one to the exponent: `v b = k m + w`.
pub proof fn lemma_leaves_next(b: int, e: nat, v: int, m: int, k: int, w: int) -> (r: nat)
    requires
        leaves(b, e, v, m),
        v * b == k * m + w,
        0 <= w < m,
    ensures
        r == e + 1,
        leaves(b, r, w, m),
{
    reveal(leaves);
    lemma_pow_adds(b, e, 1);
    lemma_pow1(b);
    lemma_mul_mod_noop_left(pow(b, e), b, m);
    assert(k * m + w == m * k + w) by (nonlinear_arith);
    lemma_mod_multiples_vanish(k, w, m);
    lemma_small_mod(w as nat, m as nat);
    e + 1
}

/// What a chain of squares and products shows of an element.
pub proof fn lemma_of_prime_order(b: int, q: int, inv: int, n: int, k: int)
    requires
        n > 1,
        prime(q),
        leaves(b, q as nat, 1, n),
        (b - 1) * inv == k * n + 1,
    ensures
        of_prime_order(b, q, inv, n),
{
    reveal(leaves);
    assert(k * n + 1 == n * k + 1) by (nonlinear_arith);
    lemma_mod_multiples_vanish(k, 1, n);
    lemma_small_mod(1, n as nat);
}

} // verus!
