//! What it means that a signature is accepted.
use crate::curve::{
    curve_b, field_p, generator, group_add, group_mul, group_n, is_mod_inverse,
    lemma_mod_inverse_unique, mod_inv,
};
use crate::ecdsa::{
    ecdsa_r_point, ecdsa_u1, ecdsa_u2, ecdsa_valid, law_generator_on_curve, valid_public_key, x_of,
};
use crate::group_law::{law_group_order_is_prime, law_multiples_lie_on_the_curve};
use crate::multiples::{
    law_multiples_add_up, law_multiples_are_finite_below_the_order, lemma_group_mul_is_times,
    lemma_times_multiply, times,
};
use crate::primes::law_residues_have_inverses;
use vstd::arithmetic::div_mod::{
    lemma_add_mod_noop, lemma_mod_bound, lemma_mod_twice, lemma_mul_mod_noop_left, lemma_small_mod,
};
use vstd::prelude::*;

verus! {

/// The quotient `a / s` modulo the group order is the only residue that `s` takes
/// to `a`.
proof fn lemma_quotient(a: int, s: int, u: int)
    requires
        1 <= s < group_n(),
        0 <= u < group_n(),
        (s * u) % group_n() == a % group_n(),
    ensures
        (a * mod_inv(s, group_n())) % group_n() == u,
{
    let n = group_n();
    law_group_order_is_prime();
    law_residues_have_inverses(s, n);
    let w = mod_inv(s, n);
    // a w = (s u) w = (s w) u = u.
    lemma_mul_mod_noop_left(a, w, n);
    lemma_mul_mod_noop_left(s * u, w, n);
    assert((s * u) * w == (s * w) * u) by (nonlinear_arith);
    lemma_mul_mod_noop_left(s * w, u, n);
    assert(1 * u == u);
    lemma_small_mod(u as nat, n as nat);
}

/// Law: a signature is accepted exactly where both scalars are in range, the key
/// is a point of the curve, and `u1 G + u2 Q` is a finite point whose
/// x-coordinate is `r` modulo `n`, for the residues with `s u1 = z` and
/// `s u2 = r`.
pub proof fn law_acceptance_is_the_verification_equation(
    z: int,
    r: int,
    s: int,
    q: (int, int),
    u1: int,
    u2: int,
)
    requires
        0 <= u1 < group_n(),
        0 <= u2 < group_n(),
        (s * u1) % group_n() == z % group_n(),
        (s * u2) % group_n() == r % group_n(),
    ensures
        ecdsa_valid(z, r, s, q) <==> {
            &&& 1 <= r < group_n()
            &&& 1 <= s < group_n()
            &&& 0 <= q.0 < field_p()
            &&& 0 <= q.1 < field_p()
            &&& (q.1 * q.1) % field_p() == (q.0 * q.0 * q.0 - 3 * q.0 + curve_b()) % field_p()
            &&& group_add(group_mul(u1, generator()), group_mul(u2, q)) is Some
            &&& x_of(group_add(group_mul(u1, generator()), group_mul(u2, q))) % group_n() == r
        },
{
    if 1 <= s < group_n() {
        lemma_quotient(z, s, u1);
        lemma_quotient(r, s, u2);
    }
}

/// Law: a signature that is accepted under the key `d G` was made with the key
/// `d`: the nonce `k = (z + r d) / s` is not zero, and `r` is the x-coordinate of
/// `k G` modulo `n`. The converse holds too, so the key, the message and both
/// scalars all count.
pub proof fn law_acceptance_fixes_the_nonce_point(z: int, r: int, s: int, d: int, k: int)
    requires
        1 <= d < group_n(),
        0 <= k < group_n(),
        1 <= s < group_n(),
        (s * k) % group_n() == (z + r * d) % group_n(),
    ensures
        group_mul(d, generator()) is Some,
        ecdsa_valid(z, r, s, group_mul(d, generator())->0) <==> {
            &&& 1 <= r < group_n()
            &&& k != 0
            &&& x_of(group_mul(k, generator())) % group_n() == r
        },
{
    let n = group_n();
    let g = generator();
    law_generator_on_curve();
    law_multiples_are_finite_below_the_order(d, g);
    law_multiples_are_finite_below_the_order(k, g);
    law_multiples_lie_on_the_curve(d, g);
    let q = group_mul(d, g)->0;
    let w = mod_inv(s, n);
    let (u1, u2) = (ecdsa_u1(z, s), ecdsa_u2(r, s));
    lemma_mod_bound(z * w, n);
    lemma_mod_bound(r * w, n);
    // u1 + u2 d = (z + r d) w = k.
    let m = z + r * d;
    lemma_quotient(m, s, k);
    lemma_mul_mod_noop_left(r * w, d, n);
    lemma_add_mod_noop(u1, u2 * d, n);
    lemma_mod_twice(z * w, n);
    lemma_add_mod_noop(z * w, (r * w) * d, n);
    assert(z * w + (r * w) * d == m * w) by (nonlinear_arith)
        requires
            m == z + r * d,
    ;
    assert((u1 + u2 * d) % n == k);
    assert(u2 * d >= 0) by (nonlinear_arith)
        requires
            u2 >= 0,
            d >= 1,
    ;
    lemma_group_mul_is_times(d as nat, g);
    lemma_group_mul_is_times(u2 as nat, q);
    lemma_times_multiply(u2 as nat, d as nat, g);
    lemma_group_mul_is_times((u2 * d) as nat, g);
    assert(u2 as nat * d as nat == (u2 * d) as nat);
    law_multiples_add_up(u1, u2 * d, g);
    law_multiples_add_up(u1 + u2 * d, 0, g);
    assert(ecdsa_r_point(z, r, s, q) == group_mul(k, g));
}

/// Law: a signature that is accepted under `d G` is accepted under the reflected
/// key `(n - d) G` only if the nonce that it would have there has the same
/// x-coordinate.
pub proof fn law_reflected_key_needs_its_own_nonce(
    z: int,
    r: int,
    s: int,
    d: int,
    k: int,
    reflected_k: int,
)
    requires
        1 <= d < group_n(),
        0 <= k < group_n(),
        0 <= reflected_k < group_n(),
        1 <= s < group_n(),
        (s * k) % group_n() == (z + r * d) % group_n(),
        (s * reflected_k) % group_n() == (z - r * d) % group_n(),
        ecdsa_valid(z, r, s, group_mul(d, generator())->0),
        x_of(group_mul(reflected_k, generator())) % group_n() != x_of(
            group_mul(k, generator()),
        ) % group_n(),
    ensures
        group_mul(group_n() - d, generator()) is Some,
        !ecdsa_valid(z, r, s, group_mul(group_n() - d, generator())->0),
{
    let n = group_n();
    law_acceptance_fixes_the_nonce_point(z, r, s, d, k);
    assert(z + r * (n - d) == n * r + (z - r * d)) by (nonlinear_arith);
    vstd::arithmetic::div_mod::lemma_mod_multiples_vanish(r, z - r * d, n);
    law_acceptance_fixes_the_nonce_point(z, r, s, n - d, reflected_k);
}

/// Law: multiples start at infinity and grow by the point itself.
pub proof fn law_multiples_count_the_point(k: int, q: (int, int))
    requires
        valid_public_key(q),
        k >= 0,
    ensures
        group_mul(0, q) is None,
        group_mul(1, q) == Some(q),
        group_mul(k + 1, q) == group_add(group_mul(k, q), Some(q)),
{
    lemma_group_mul_is_times(0, q);
    lemma_group_mul_is_times(1, q);
    lemma_group_mul_is_times(k as nat, q);
    lemma_group_mul_is_times((k + 1) as nat, q);
    reveal_with_fuel(times, 2);
}

/// Law: the modular inverse is the residue whose product with the number is one;
/// a number without such a residue gets zero.
pub proof fn law_mod_inv(a: int, b: int, m: int)
    requires
        m > 1,
    ensures
        0 <= b < m && (a * b) % m == 1 ==> mod_inv(a, m) == b,
        (forall|c: int| 0 <= c < m ==> #[trigger] (a * c) % m != 1) ==> mod_inv(a, m) == 0,
{
    if 0 <= b < m && (a * b) % m == 1 {
        lemma_mod_inverse_unique(a, b, m);
    }
    if forall|c: int| 0 <= c < m ==> #[trigger] (a * c) % m != 1 {
        assert forall|c: int| !is_mod_inverse(a, c, m) by {
            if 0 <= c < m {
                assert((a * c) % m != 1);
            }
        }
    }
}

} // verus!
