//! Native verification of P-256 ECDSA signatures.
use crate::constants::{P256_B, P256_GX, P256_GY, P256_MODULUS, P256_ORDER};
use crate::curve::{
    additive_inverses, curve_b, field_p, generator, group_add, group_mul, group_n, is_mod_inverse,
    law_group_add_reduced, law_group_mul_reduced, lemma_constants, lemma_mod_inverse_unique,
    mod_inv, mod_inverse, optional_xy, point_add, point_double, scalar_mul,
};
use crate::field_ops::{add_mod_witness, mul_mod_witness, sub_mod_witness};
use crate::group_law::{law_group_order_is_prime, law_multiples_lie_on_the_curve};
use crate::multiples::{
    law_multiples_add_up, law_multiples_are_finite_below_the_order, lemma_group_mul_is_times,
    lemma_opposite_multiple, lemma_opposite_of_sum, lemma_order, lemma_times_multiply, opposite,
};
use crate::primes::law_residues_have_inverses;
use crate::types::{AffinePoint, EcdsaVerifyInput, U256};
use crate::words::{words_eq, words_lt, words_sub};
use vstd::arithmetic::div_mod::{
    lemma_add_mod_noop, lemma_fundamental_div_mod, lemma_fundamental_div_mod_converse,
    lemma_mod_bound, lemma_mod_multiples_vanish, lemma_mod_twice, lemma_mul_mod_noop_left,
    lemma_small_mod, lemma_sub_mod_noop,
};
use vstd::prelude::*;

verus! {

/// `y^2 = x^3 - 3x + b` modulo `p`.
pub open spec fn on_curve_equation(x: int, y: int) -> bool {
    (y * y) % field_p() == (x * x * x - 3 * x + curve_b()) % field_p()
}

/// Both coordinates are field elements and satisfy the curve equation.
pub open spec fn valid_public_key(a: (int, int)) -> bool {
    0 <= a.0 < field_p() && 0 <= a.1 < field_p() && on_curve_equation(a.0, a.1)
}

/// A scalar in `[1, n - 1]`.
pub open spec fn valid_scalar(v: int) -> bool {
    1 <= v < group_n()
}

/// `u1 = z / s mod n`.
pub open spec fn ecdsa_u1(z: int, s: int) -> int {
    (z * mod_inv(s, group_n())) % group_n()
}

/// `u2 = r / s mod n`.
pub open spec fn ecdsa_u2(r: int, s: int) -> int {
    (r * mod_inv(s, group_n())) % group_n()
}

/// `R = u1 * G + u2 * Q`.
pub open spec fn ecdsa_r_point(z: int, r: int, s: int, q: (int, int)) -> Option<(int, int)> {
    group_add(group_mul(ecdsa_u1(z, s), generator()), group_mul(ecdsa_u2(r, s), q))
}

/// The signature `(r, s)` on the hash `z` is valid under the key `q`.
pub open spec fn ecdsa_valid(z: int, r: int, s: int, q: (int, int)) -> bool {
    &&& valid_scalar(r)
    &&& valid_scalar(s)
    &&& valid_public_key(q)
    &&& match ecdsa_r_point(z, r, s, q) {
        None => false,
        Some(point) => point.0 % group_n() == r,
    }
}

impl EcdsaVerifyInput {
    /// The statement that this input makes is true.
    pub open spec fn spec_valid(&self) -> bool {
        ecdsa_valid(
            self.message_hash.spec_value(),
            self.signature.r.spec_value(),
            self.signature.s.spec_value(),
            self.public_key.spec_xy(),
        )
    }
}

/// Verify an ECDSA P-256 signature.
///
/// 1. `r` and `s` are in `[1, n - 1]`, and the key is a point of the curve.
/// 2. `u1 = z / s` and `u2 = r / s` modulo `n`.
/// 3. `R = u1 G + u2 Q` is finite, and its x-coordinate is `r` modulo `n`.
pub fn ecdsa_verify(input: &EcdsaVerifyInput) -> (valid: bool)
    ensures
        valid == input.spec_valid(),
{
    if !is_scalar_nonzero_and_below_order(&input.signature.r)
        || !is_scalar_nonzero_and_below_order(&input.signature.s) || !is_point_on_curve(
        &input.public_key,
    ) {
        return false;
    }
    let n: U256 = U256::from_le_u64s(&P256_ORDER);
    let g: AffinePoint = AffinePoint {
        x: U256::from_le_u64s(&P256_GX),
        y: U256::from_le_u64s(&P256_GY),
    };
    proof {
        lemma_constants();
    }
    let s_inv: U256 = mod_inverse(&input.signature.s, &n);
    let u1: U256 = mul_mod_witness(&input.message_hash, &s_inv, &n).result.to_u256();
    let u2: U256 = mul_mod_witness(&input.signature.r, &s_inv, &n).result.to_u256();
    let r1: Option<AffinePoint> = scalar_mul(&u1, &g);
    let r2: Option<AffinePoint> = scalar_mul(&u2, &input.public_key);
    proof {
        assert(g.spec_xy() == generator());
        law_group_mul_reduced(u1.spec_value(), generator());
        law_group_mul_reduced(u2.spec_value(), input.public_key.spec_xy());
        law_group_add_reduced(optional_xy(r1), optional_xy(r2));
    }
    match add_optional_points(r1, r2) {
        None => false,
        Some(r_point) => x_matches_r(&r_point.x, &input.signature.r),
    }
}

/// Whether `x mod n` is `r`, for `x` below `p` and `r` below `n`. As
/// `p < 2n`, the residue is `x` or `x - n`.
pub fn x_matches_r(x: &U256, r: &U256) -> (matches_r: bool)
    requires
        x.spec_value() < field_p(),
        r.spec_value() < group_n(),
    ensures
        matches_r == (x.spec_value() % group_n() == r.spec_value()),
{
    let x_le: [u64; 4] = x.to_le_u64s();
    let r_le: [u64; 4] = r.to_le_u64s();
    let n_le: [u64; 4] = P256_ORDER;
    let (diff, borrow) = words_sub(&x_le, &n_le);
    proof {
        lemma_constants();
        x.lemma_value_facts();
        r.lemma_value_facts();
        crate::words::lemma_words_range(diff@);
    }
    if borrow == 1 {
        proof {
            lemma_small_mod(x.spec_value() as nat, group_n() as nat);
        }
        words_eq(&x_le, &r_le)
    } else {
        proof {
            lemma_fundamental_div_mod_converse(
                x.spec_value(),
                group_n(),
                1,
                x.spec_value() - group_n(),
            );
        }
        words_eq(&diff, &r_le)
    }
}

/// Whether a value lies in `[1, n - 1]`.
pub fn is_scalar_nonzero_and_below_order(value: &U256) -> (r: bool)
    ensures
        r == valid_scalar(value.spec_value()),
{
    proof {
        lemma_constants();
        value.lemma_value_facts();
    }
    *value != U256::zero() && matches!(
        cmp_u256(value, &U256::from_le_u64s(&P256_ORDER)),
        core::cmp::Ordering::Less
    )
}

/// Whether a value is below the field modulus.
pub fn is_field_element(value: &U256) -> (r: bool)
    ensures
        r == (value.spec_value() < field_p()),
{
    proof {
        lemma_constants();
    }
    matches!(
        cmp_u256(value, &U256::from_le_u64s(&P256_MODULUS)),
        core::cmp::Ordering::Less
    )
}

/// Whether both coordinates are field elements that satisfy the curve
/// equation.
pub fn is_point_on_curve(point: &AffinePoint) -> (r: bool)
    ensures
        r == valid_public_key(point.spec_xy()),
{
    if !is_field_element(&point.x) || !is_field_element(&point.y) {
        return false;
    }
    let p: U256 = U256::from_le_u64s(&P256_MODULUS);
    proof {
        lemma_constants();
        point.x.lemma_value_facts();
        point.y.lemma_value_facts();
    }
    let y2: U256 = mul_mod_witness(&point.y, &point.y, &p).result.to_u256();
    let x2: U256 = mul_mod_witness(&point.x, &point.x, &p).result.to_u256();
    let x3: U256 = mul_mod_witness(&x2, &point.x, &p).result.to_u256();
    let three: U256 = U256::from_le_u64s(&[3u64, 0, 0, 0]);
    let three_x: U256 = mul_mod_witness(&three, &point.x, &p).result.to_u256();
    let x3_minus_3x: U256 = sub_mod_witness(&x3, &three_x, &p).result.to_u256();
    let rhs: U256 = add_mod_witness(
        &x3_minus_3x,
        &U256::from_le_u64s(&P256_B),
        &p,
    ).result.to_u256();
    proof {
        lemma_curve_rhs(point.x.spec_value());
    }
    y2 == rhs
}

/// The right-hand side of the curve equation, computed with a reduction after
/// every operation.
pub open spec fn stepwise_rhs(x: int) -> int {
    let p = field_p();
    let x3 = (((x * x) % p) * x) % p;
    let three_x = (3 * x) % p;
    ((x3 - three_x) % p + curve_b()) % p
}

/// Reducing after every operation does not change the right-hand side.
pub proof fn lemma_curve_rhs(x: int)
    ensures
        stepwise_rhs(x) == (x * x * x - 3 * x + curve_b()) % field_p(),
{
    let p = field_p();
    lemma_mul_mod_noop_left(x * x, x, p);
    lemma_sub_mod_noop(x * x * x, 3 * x, p);
    let d = x * x * x - 3 * x;
    lemma_add_mod_noop(d, curve_b(), p);
    lemma_add_mod_noop(d % p, curve_b(), p);
    lemma_mod_twice(d, p);
}

/// Adds two optional points; `None` is the point at infinity.
pub fn add_optional_points(lhs: Option<AffinePoint>, rhs: Option<AffinePoint>) -> (r: Option<
    AffinePoint,
>)
    ensures
        optional_xy(r) == group_add(optional_xy(lhs), optional_xy(rhs)),
{
    match (lhs, rhs) {
        (None, None) => None,
        (Some(point), None) => Some(point),
        (None, Some(point)) => Some(point),
        (Some(a), Some(b)) => if a == b {
            Some(point_double(&a).output)
        } else if is_additive_inverse(&a, &b) {
            None
        } else {
            Some(point_add(&a, &b).output)
        },
    }
}

/// Whether two points have the same x and cancelling y.
pub fn is_additive_inverse(lhs: &AffinePoint, rhs: &AffinePoint) -> (r: bool)
    ensures
        r == additive_inverses(lhs.spec_xy(), rhs.spec_xy()),
{
    proof {
        lemma_constants();
    }
    lhs.x == rhs.x && add_mod_witness(
        &lhs.y,
        &rhs.y,
        &U256::from_le_u64s(&P256_MODULUS),
    ).result.to_u256() == U256::zero()
}

/// Compares two integers, word by word from the top.
pub fn cmp_u256(lhs: &U256, rhs: &U256) -> (r: core::cmp::Ordering)
    ensures
        r == core::cmp::Ordering::Less <==> lhs.spec_value() < rhs.spec_value(),
        r == core::cmp::Ordering::Equal <==> lhs.spec_value() == rhs.spec_value(),
        r == core::cmp::Ordering::Greater <==> lhs.spec_value() > rhs.spec_value(),
{
    let a: [u64; 4] = lhs.to_le_u64s();
    let b: [u64; 4] = rhs.to_le_u64s();
    if words_lt(&a, &b) {
        core::cmp::Ordering::Less
    } else if words_eq(&a, &b) {
        core::cmp::Ordering::Equal
    } else {
        core::cmp::Ordering::Greater
    }
}

/// Every intermediate value of one verification.
#[derive(Clone, Copy, Debug)]
pub struct EcdsaVerifyWitness {
    pub input: EcdsaVerifyInput,
    pub s_inv: U256,
    pub u1: U256,
    pub u2: U256,
    /// `u1 * G`, or infinity.
    pub r1: Option<AffinePoint>,
    /// `u2 * Q`, or infinity.
    pub r2: Option<AffinePoint>,
    pub r_point: Option<AffinePoint>,
    pub valid: bool,
}

/// Compute the full verification witness, for valid and invalid inputs alike.
pub fn ecdsa_verify_witness(input: &EcdsaVerifyInput) -> (w: EcdsaVerifyWitness)
    ensures
        w.input == *input,
        w.s_inv.spec_value() == mod_inv(input.signature.s.spec_value(), group_n()),
        w.u1.spec_value() == ecdsa_u1(
            input.message_hash.spec_value(),
            input.signature.s.spec_value(),
        ),
        w.u2.spec_value() == ecdsa_u2(
            input.signature.r.spec_value(),
            input.signature.s.spec_value(),
        ),
        optional_xy(w.r1) == group_mul(w.u1.spec_value(), generator()),
        optional_xy(w.r2) == group_mul(w.u2.spec_value(), input.public_key.spec_xy()),
        optional_xy(w.r_point) == group_add(optional_xy(w.r1), optional_xy(w.r2)),
        w.valid == input.spec_valid(),
{
    let n: U256 = U256::from_le_u64s(&P256_ORDER);
    let g: AffinePoint = AffinePoint {
        x: U256::from_le_u64s(&P256_GX),
        y: U256::from_le_u64s(&P256_GY),
    };
    proof {
        lemma_constants();
        assert(g.spec_xy() == generator());
    }
    let s_inv: U256 = mod_inverse(&input.signature.s, &n);
    let u1: U256 = mul_mod_witness(&input.message_hash, &s_inv, &n).result.to_u256();
    let u2: U256 = mul_mod_witness(&input.signature.r, &s_inv, &n).result.to_u256();
    let r1: Option<AffinePoint> = scalar_mul(&u1, &g);
    let r2: Option<AffinePoint> = scalar_mul(&u2, &input.public_key);
    let r_point: Option<AffinePoint> = add_optional_points(r1, r2);
    let valid = ecdsa_verify(input);
    EcdsaVerifyWitness { input: *input, s_inv, u1, u2, r1, r2, r_point, valid }
}

/// Law: the generator is a point of the curve.
pub proof fn law_generator_on_curve()
    ensures
        valid_public_key(generator()),
{
}

/// Law: an accepted signature has both scalars in range and a key on the
/// curve.
pub proof fn law_accepted_inputs_are_well_formed(input: EcdsaVerifyInput)
    requires
        input.spec_valid(),
    ensures
        1 <= input.signature.r.spec_value() < group_n(),
        1 <= input.signature.s.spec_value() < group_n(),
        valid_public_key(input.public_key.spec_xy()),
{
}

/// Law: the message hash matters only modulo the group order.
pub proof fn law_hash_is_taken_mod_order(z: int, r: int, s: int, q: (int, int))
    ensures
        ecdsa_valid(z, r, s, q) == ecdsa_valid(z % group_n(), r, s, q),
{
    lemma_mul_mod_noop_left(z, mod_inv(s, group_n()), group_n());
}

/// The inverse of a scalar in range, modulo the group order.
proof fn lemma_scalar_inverse(s: int)
    requires
        valid_scalar(s),
    ensures
        is_mod_inverse(s, mod_inv(s, group_n()), group_n()),
{
    law_group_order_is_prime();
    law_residues_have_inverses(s, group_n());
}

/// Law: the two scalars of an honestly made signature recombine to its nonce.
/// Where `s k = z + r d` for the key `d` and the nonce `k`, `u1 + u2 d` is `k`
/// modulo the group order.
pub proof fn law_honest_scalars_recombine(z: int, r: int, s: int, d: int, k: int)
    requires
        valid_scalar(s),
        valid_scalar(k),
        (s * k) % group_n() == (z + r * d) % group_n(),
    ensures
        (ecdsa_u1(z, s) + ecdsa_u2(r, s) * d) % group_n() == k,
{
    let n = group_n();
    let w = mod_inv(s, n);
    lemma_scalar_inverse(s);
    let (u1, u2) = (ecdsa_u1(z, s), ecdsa_u2(r, s));
    // u1 + u2 d = z w + (r w) d = (z + r d) w.
    lemma_mul_mod_noop_left(r * w, d, n);
    lemma_add_mod_noop(u1, u2 * d, n);
    lemma_mod_twice(z * w, n);
    lemma_add_mod_noop(z * w, (r * w) * d, n);
    let m = z + r * d;
    assert(z * w + (r * w) * d == m * w) by (nonlinear_arith)
        requires
            m == z + r * d,
    ;
    // m w = (s k) w = (s w) k = k.
    lemma_mul_mod_noop_left(m, w, n);
    lemma_mul_mod_noop_left(s * k, w, n);
    assert((s * k) * w == (s * w) * k) by (nonlinear_arith);
    lemma_mul_mod_noop_left(s * w, k, n);
    assert(1 * k == k);
    lemma_small_mod(k as nat, n as nat);
}

/// Law: the opposite `s` gives the opposite scalars.
pub proof fn law_opposite_s_gives_opposite_scalars(z: int, r: int, s: int)
    requires
        valid_scalar(s),
    ensures
        ecdsa_u1(z, group_n() - s) == (-ecdsa_u1(z, s)) % group_n(),
        ecdsa_u2(r, group_n() - s) == (-ecdsa_u2(r, s)) % group_n(),
{
    let n = group_n();
    let w = mod_inv(s, n);
    lemma_scalar_inverse(s);
    lemma_fundamental_div_mod(s * w, n);
    let q = (s * w) / n;
    if w == 0 {
        assert(s * w == 0) by (nonlinear_arith)
            requires
                w == 0,
        ;
        lemma_small_mod(0, n as nat);
    }
    let t = n - s - w + q;
    assert((n - s) * (n - w) == n * t + 1) by (nonlinear_arith)
        requires
            s * w == n * q + 1,
            t == n - s - w + q,
    ;
    lemma_mod_multiples_vanish(t, 1, n);
    lemma_small_mod(1, n as nat);
    assert(is_mod_inverse(n - s, n - w, n));
    lemma_mod_inverse_unique(n - s, n - w, n);
    lemma_opposite_product(z, w);
    lemma_opposite_product(r, w);
}

/// `a (n - w) = -(a w)` modulo the group order.
proof fn lemma_opposite_product(a: int, w: int)
    ensures
        (a * (group_n() - w)) % group_n() == (-((a * w) % group_n())) % group_n(),
{
    let n = group_n();
    lemma_fundamental_div_mod(a * w, n);
    let q = (a * w) / n;
    let m = (a * w) % n;
    let t = a - q;
    assert(a * (n - w) == n * t + (-m)) by (nonlinear_arith)
        requires
            a * w == n * q + m,
            t == a - q,
    ;
    lemma_mod_multiples_vanish(t, -m, n);
}

/// The x-coordinate of a finite point.
pub open spec fn x_of(a: Option<(int, int)>) -> int {
    match a {
        None => 0,
        Some(p) => p.0,
    }
}

/// Law: every honestly made signature is accepted. For a key `d` and a nonce
/// `k`, both in `[1, n - 1]`, the signature with `r` the x-coordinate of `k G`
/// modulo `n` and `s = (z + r d) / k`, neither of them zero, is valid under the
/// public key `d G`.
pub proof fn law_honest_signatures_are_accepted(z: int, d: int, k: int, r: int, s: int)
    requires
        valid_scalar(d),
        valid_scalar(k),
        r == x_of(group_mul(k, generator())) % group_n(),
        r != 0,
        s == (mod_inv(k, group_n()) * (z + r * d)) % group_n(),
        s != 0,
    ensures
        group_mul(d, generator()) matches Some(q) && ecdsa_valid(z, r, s, q),
{
    let n = group_n();
    let g = generator();
    law_generator_on_curve();
    law_multiples_are_finite_below_the_order(d, g);
    law_multiples_are_finite_below_the_order(k, g);
    law_multiples_lie_on_the_curve(d, g);
    let q = group_mul(d, g)->0;
    lemma_mod_bound(x_of(group_mul(k, g)), n);
    let m = z + r * d;
    let i = mod_inv(k, n);
    lemma_mod_bound(i * m, n);
    // s k = (i m) k = (k i) m = m.
    lemma_scalar_inverse(k);
    lemma_mul_mod_noop_left(i * m, k, n);
    assert((i * m) * k == (k * i) * m) by (nonlinear_arith);
    lemma_mul_mod_noop_left(k * i, m, n);
    assert(1 * m == m);
    law_honest_scalars_recombine(z, r, s, d, k);
    // u1 G + u2 (d G) = (u1 + u2 d) G = k G.
    let (u1, u2) = (ecdsa_u1(z, s), ecdsa_u2(r, s));
    lemma_mod_bound(z * mod_inv(s, n), n);
    lemma_mod_bound(r * mod_inv(s, n), n);
    assert(u2 * d >= 0) by (nonlinear_arith)
        requires
            u2 >= 0,
            d >= 1,
    ;
    lemma_group_mul_is_times(d as nat, g);
    lemma_group_mul_is_times(u2 as nat, q);
    lemma_times_multiply(u2 as nat, d as nat, g);
    lemma_group_mul_is_times((u2 * d) as nat, g);
    assert(u2 as nat * d as nat == (u2 * d) as nat);
    law_multiples_add_up(u1, u2 * d, g);
    law_multiples_add_up(u1 + u2 * d, 0, g);
    assert(ecdsa_r_point(z, r, s, q) == group_mul(k, g));
}

/// The multiple by the opposite scalar is the opposite point.
proof fn lemma_opposite_scalar(u: int, q: (int, int))
    requires
        valid_public_key(q),
        0 <= u < group_n(),
    ensures
        group_mul((-u) % group_n(), q) == opposite(group_mul(u, q)),
{
    let n = group_n();
    lemma_order(q);
    lemma_group_mul_is_times(u as nat, q);
    if u == 0 {
        lemma_small_mod(0, n as nat);
    } else {
        lemma_mod_multiples_vanish(-1, n - u, n);
        lemma_small_mod((n - u) as nat, n as nat);
        assert((-u) % n == n - u);
        lemma_opposite_multiple(u as nat, q);
        lemma_group_mul_is_times((n - u) as nat, q);
    }
}

/// Law: `s` and `n - s` get the same answer: the point `R` becomes its
/// reflection, which has the same x-coordinate.
pub proof fn law_opposite_s_gets_the_same_answer(z: int, r: int, s: int, q: (int, int))
    requires
        valid_scalar(s),
    ensures
        ecdsa_valid(z, r, s, q) == ecdsa_valid(z, r, group_n() - s, q),
{
    if valid_public_key(q) {
        let n = group_n();
        let g = generator();
        law_generator_on_curve();
        law_opposite_s_gives_opposite_scalars(z, r, s);
        let (u1, u2) = (ecdsa_u1(z, s), ecdsa_u2(r, s));
        lemma_mod_bound(z * mod_inv(s, n), n);
        lemma_mod_bound(r * mod_inv(s, n), n);
        lemma_opposite_scalar(u1, g);
        lemma_opposite_scalar(u2, q);
        law_multiples_lie_on_the_curve(u1, g);
        law_multiples_lie_on_the_curve(u2, q);
        lemma_opposite_of_sum(group_mul(u1, g), group_mul(u2, q));
    }
}

} // verus!
