//! The Mersenne-31 field and its degree-four extension, as plain values.
//!
//! The field operations themselves are those of the `stwo` crate; the
//! contracts here say what they compute in terms of integers modulo
//! `2^31 - 1`.
use vstd::arithmetic::div_mod::{
    lemma_add_mod_noop, lemma_fundamental_div_mod, lemma_mod_bound, lemma_mod_multiples_vanish,
    lemma_small_mod,
};
use vstd::prelude::*;

verus! {

/// The Mersenne prime `2^31 - 1`.
pub const M31_P: u32 = 2_147_483_647;

/// An element of the field of integers modulo `2^31 - 1`.
#[derive(Clone, Copy, Debug, PartialEq, Eq, Structural)]
pub struct M31(pub u32);

/// An element of the degree-four extension: `(c0 + c1 i) + (c2 + c3 i) u`
/// with `i^2 = -1` and `u^2 = 2 + i`.
#[derive(Clone, Copy, Debug, PartialEq, Eq, Structural)]
pub struct SecureField {
    pub c0: M31,
    pub c1: M31,
    pub c2: M31,
    pub c3: M31,
}

/// The field element congruent to an integer.
pub open spec fn m31_of(v: int) -> M31 {
    M31((v % 2_147_483_647) as u32)
}

/// The extension element whose coordinates are congruent to four integers.
#[verifier::opaque]
pub open spec fn sf_of(a: int, b: int, c: int, d: int) -> SecureField {
    SecureField { c0: m31_of(a), c1: m31_of(b), c2: m31_of(c), c3: m31_of(d) }
}

pub open spec fn sf_zero() -> SecureField {
    SecureField { c0: M31(0), c1: M31(0), c2: M31(0), c3: M31(0) }
}

pub open spec fn sf_one() -> SecureField {
    SecureField { c0: M31(1), c1: M31(0), c2: M31(0), c3: M31(0) }
}

/// The base-field element `a`, seen in the extension.
pub open spec fn sf_of_base(a: M31) -> SecureField {
    SecureField { c0: a, c1: M31(0), c2: M31(0), c3: M31(0) }
}

pub open spec fn m31_sum(a: M31, b: M31) -> M31 {
    m31_of(a.0 + b.0)
}

pub open spec fn sf_sum(x: SecureField, y: SecureField) -> SecureField {
    sf_of(x.c0.0 + y.c0.0, x.c1.0 + y.c1.0, x.c2.0 + y.c2.0, x.c3.0 + y.c3.0)
}

pub open spec fn sf_difference(x: SecureField, y: SecureField) -> SecureField {
    sf_of(x.c0.0 - y.c0.0, x.c1.0 - y.c1.0, x.c2.0 - y.c2.0, x.c3.0 - y.c3.0)
}

pub open spec fn sf_negation(x: SecureField) -> SecureField {
    sf_difference(sf_zero(), x)
}

/// A Gaussian integer `a + b i`.
pub ghost struct Pair {
    pub a: int,
    pub b: int,
}

/// An element `lo + hi u` of `Z[i][u] / (u^2 - (2 + i))`, not reduced.
pub ghost struct Quad {
    pub lo: Pair,
    pub hi: Pair,
}

pub open spec fn pair_add(x: Pair, y: Pair) -> Pair {
    Pair { a: x.a + y.a, b: x.b + y.b }
}

/// `(a + bi)(c + di) = (ac - bd) + (ad + bc)i`.
#[verifier::opaque]
pub open spec fn pair_mul(x: Pair, y: Pair) -> Pair {
    Pair { a: x.a * y.a - x.b * y.b, b: x.a * y.b + x.b * y.a }
}

/// The square of `u`.
pub open spec fn pair_r() -> Pair {
    Pair { a: 2, b: 1 }
}

pub open spec fn quad_add(x: Quad, y: Quad) -> Quad {
    Quad { lo: pair_add(x.lo, y.lo), hi: pair_add(x.hi, y.hi) }
}

/// `(a + bu)(c + du) = (ac + (2 + i)bd) + (ad + bc)u`.
pub open spec fn quad_mul(x: Quad, y: Quad) -> Quad {
    Quad {
        lo: pair_add(pair_mul(x.lo, y.lo), pair_mul(pair_r(), pair_mul(x.hi, y.hi))),
        hi: pair_add(pair_mul(x.lo, y.hi), pair_mul(x.hi, y.lo)),
    }
}

/// The extension element that a quadruple reduces to.
pub open spec fn quad_reduce(x: Quad) -> SecureField {
    sf_of(x.lo.a, x.lo.b, x.hi.a, x.hi.b)
}

pub open spec fn quad_of(x: SecureField) -> Quad {
    Quad {
        lo: Pair { a: x.c0.0 as int, b: x.c1.0 as int },
        hi: Pair { a: x.c2.0 as int, b: x.c3.0 as int },
    }
}

pub open spec fn sf_product(x: SecureField, y: SecureField) -> SecureField {
    quad_reduce(quad_mul(quad_of(x), quad_of(y)))
}

/// `y` is the multiplicative inverse of `x`.
pub open spec fn sf_is_inverse(x: SecureField, y: SecureField) -> bool {
    y.wf() && sf_product(x, y) == sf_one()
}

/// The multiplicative inverse of an invertible element.
pub open spec fn sf_inverse(x: SecureField) -> SecureField {
    choose|y: SecureField| sf_is_inverse(x, y)
}

/// Sum of a sequence of extension elements, from the left.
pub open spec fn sf_sum_of(s: Seq<SecureField>) -> SecureField
    decreases s.len(),
{
    if s.len() == 0 {
        sf_zero()
    } else {
        sf_sum(sf_sum_of(s.drop_last()), s.last())
    }
}

impl M31 {
    /// The stored representative is reduced.
    pub open spec fn wf(self) -> bool {
        self.0 < M31_P
    }

    /// The element stored as `arg`, which callers keep below the modulus.
    pub fn from_u32_unchecked(arg: u32) -> (r: M31)
        ensures
            r == M31(arg),
    {
        M31(arg)
    }

    pub fn zero() -> (r: M31)
        ensures
            r == M31(0),
            r.wf(),
    {
        M31(0)
    }

    pub fn one() -> (r: M31)
        ensures
            r == M31(1),
            r.wf(),
    {
        M31(1)
    }

    /// Field addition.
    pub fn plus(self, other: M31) -> (r: M31)
        requires
            self.wf(),
            other.wf(),
        ensures
            r == m31_sum(self, other),
            r.wf(),
    {
        proof {
            lemma_mod_bound(self.0 + other.0, 2_147_483_647);
        }
        M31(m31_add_words(self.0, other.0))
    }
}

/// `stwo`'s addition of two `M31` elements, on their representatives: the sum
/// of two reduced representatives, reduced modulo `2^31 - 1`.
#[verifier::external_body]
fn m31_add_words(a: u32, b: u32) -> (r: u32)
    requires
        a < M31_P,
        b < M31_P,
    ensures
        r == (a + b) % 2_147_483_647,
{
    (stwo::core::fields::m31::M31(a) + stwo::core::fields::m31::M31(b)).0
}

impl SecureField {
    /// All four coordinates are reduced.
    pub open spec fn wf(self) -> bool {
        self.c0.wf() && self.c1.wf() && self.c2.wf() && self.c3.wf()
    }

    /// The element with the given coordinates, which callers keep reduced.
    pub fn from_u32_unchecked(a: u32, b: u32, c: u32, d: u32) -> (r: SecureField)
        ensures
            r == (SecureField { c0: M31(a), c1: M31(b), c2: M31(c), c3: M31(d) }),
    {
        SecureField { c0: M31(a), c1: M31(b), c2: M31(c), c3: M31(d) }
    }

    /// The base-field element `a`, seen in the extension.
    pub fn from_base(a: M31) -> (r: SecureField)
        ensures
            r == sf_of_base(a),
            a.wf() ==> r.wf(),
    {
        SecureField { c0: a, c1: M31(0), c2: M31(0), c3: M31(0) }
    }

    pub fn zero() -> (r: SecureField)
        ensures
            r == sf_zero(),
            r.wf(),
    {
        SecureField { c0: M31(0), c1: M31(0), c2: M31(0), c3: M31(0) }
    }

    pub fn one() -> (r: SecureField)
        ensures
            r == sf_one(),
            r.wf(),
    {
        SecureField { c0: M31(1), c1: M31(0), c2: M31(0), c3: M31(0) }
    }

    /// Field addition.
    pub fn plus(self, other: SecureField) -> (r: SecureField)
        requires
            self.wf(),
            other.wf(),
        ensures
            r == sf_sum(self, other),
            r.wf(),
    {
        qm31_add(self, other)
    }

    /// Field subtraction.
    pub fn minus(self, other: SecureField) -> (r: SecureField)
        requires
            self.wf(),
            other.wf(),
        ensures
            r == sf_difference(self, other),
            r.wf(),
    {
        qm31_sub(self, other)
    }

    /// Additive inverse.
    pub fn negated(self) -> (r: SecureField)
        requires
            self.wf(),
        ensures
            r == sf_negation(self),
            r.wf(),
    {
        qm31_neg(self)
    }

    /// Field multiplication.
    pub fn times(self, other: SecureField) -> (r: SecureField)
        requires
            self.wf(),
            other.wf(),
        ensures
            r == sf_product(self, other),
            r.wf(),
    {
        qm31_mul(self, other)
    }
}

/// `stwo`'s addition of two `QM31` elements: each coordinate of the sum is the
/// sum of the two coordinates modulo `2^31 - 1`.
#[verifier::external_body]
fn qm31_add(x: SecureField, y: SecureField) -> (r: SecureField)
    requires
        x.wf(),
        y.wf(),
    ensures
        r == sf_sum(x, y),
        r.wf(),
{
    let a = stwo::core::fields::qm31::QM31::from_u32_unchecked(x.c0.0, x.c1.0, x.c2.0, x.c3.0);
    let b = stwo::core::fields::qm31::QM31::from_u32_unchecked(y.c0.0, y.c1.0, y.c2.0, y.c3.0);
    let [c0, c1, c2, c3] = (a + b).to_m31_array();
    SecureField { c0: M31(c0.0), c1: M31(c1.0), c2: M31(c2.0), c3: M31(c3.0) }
}

/// `stwo`'s subtraction of two `QM31` elements: each coordinate of the result
/// is the difference of the two coordinates modulo `2^31 - 1`.
#[verifier::external_body]
fn qm31_sub(x: SecureField, y: SecureField) -> (r: SecureField)
    requires
        x.wf(),
        y.wf(),
    ensures
        r == sf_difference(x, y),
        r.wf(),
{
    let a = stwo::core::fields::qm31::QM31::from_u32_unchecked(x.c0.0, x.c1.0, x.c2.0, x.c3.0);
    let b = stwo::core::fields::qm31::QM31::from_u32_unchecked(y.c0.0, y.c1.0, y.c2.0, y.c3.0);
    let [c0, c1, c2, c3] = (a - b).to_m31_array();
    SecureField { c0: M31(c0.0), c1: M31(c1.0), c2: M31(c2.0), c3: M31(c3.0) }
}

/// `stwo`'s negation of a `QM31` element: each coordinate is negated modulo
/// `2^31 - 1`.
#[verifier::external_body]
fn qm31_neg(x: SecureField) -> (r: SecureField)
    requires
        x.wf(),
    ensures
        r == sf_negation(x),
        r.wf(),
{
    let a = stwo::core::fields::qm31::QM31::from_u32_unchecked(x.c0.0, x.c1.0, x.c2.0, x.c3.0);
    let [c0, c1, c2, c3] = (-a).to_m31_array();
    SecureField { c0: M31(c0.0), c1: M31(c1.0), c2: M31(c2.0), c3: M31(c3.0) }
}

/// `stwo`'s multiplication of two `QM31` elements: the product of
/// `a + bu` and `c + du` is `(ac + (2 + i)bd) + (ad + bc)u` over the Gaussian
/// integers modulo `2^31 - 1`.
#[verifier::external_body]
fn qm31_mul(x: SecureField, y: SecureField) -> (r: SecureField)
    requires
        x.wf(),
        y.wf(),
    ensures
        r == sf_product(x, y),
        r.wf(),
{
    let a = stwo::core::fields::qm31::QM31::from_u32_unchecked(x.c0.0, x.c1.0, x.c2.0, x.c3.0);
    let b = stwo::core::fields::qm31::QM31::from_u32_unchecked(y.c0.0, y.c1.0, y.c2.0, y.c3.0);
    let [c0, c1, c2, c3] = (a * b).to_m31_array();
    SecureField { c0: M31(c0.0), c1: M31(c1.0), c2: M31(c2.0), c3: M31(c3.0) }
}

/// `stwo`'s batch inversion of `QM31` elements: for nonzero elements, the
/// `i`-th result times the `i`-th element is one. The crate panics on a zero.
#[verifier::external_body]
pub(crate) fn qm31_batch_inverse(column: &Vec<SecureField>) -> (r: Vec<SecureField>)
    requires
        forall|i: int|
            0 <= i < column@.len() ==> (#[trigger] column@[i]).wf() && column@[i] != sf_zero(),
    ensures
        r@.len() == column@.len(),
        forall|i: int| 0 <= i < r@.len() ==> sf_is_inverse(column@[i], #[trigger] r@[i]),
{
    let qs: Vec<stwo::core::fields::qm31::QM31> = column
        .iter()
        .map(|x| stwo::core::fields::qm31::QM31::from_u32_unchecked(x.c0.0, x.c1.0, x.c2.0, x.c3.0))
        .collect();
    stwo::core::fields::batch_inverse(&qs)
        .into_iter()
        .map(|q| q.to_m31_array())
        .map(|[a, b, c, d]| SecureField { c0: M31(a.0), c1: M31(b.0), c2: M31(c.0), c3: M31(d.0) })
        .collect()
}

proof fn lemma_pair_commutes(x: Pair, y: Pair)
    ensures
        pair_mul(x, y) == pair_mul(y, x),
{
    reveal(pair_mul);
    assert(x.a * y.a == y.a * x.a) by (nonlinear_arith);
    assert(x.b * y.b == y.b * x.b) by (nonlinear_arith);
    assert(x.a * y.b == y.b * x.a) by (nonlinear_arith);
    assert(x.b * y.a == y.a * x.b) by (nonlinear_arith);
}

proof fn lemma_pair_distributes(x: Pair, y: Pair, z: Pair)
    ensures
        pair_mul(x, pair_add(y, z)) == pair_add(pair_mul(x, y), pair_mul(x, z)),
        pair_mul(pair_add(y, z), x) == pair_add(pair_mul(y, x), pair_mul(z, x)),
{
    reveal(pair_mul);
    lemma_int_distributes(x.a, y.a, z.a);
    lemma_int_distributes(x.b, y.b, z.b);
    lemma_int_distributes(x.a, y.b, z.b);
    lemma_int_distributes(x.b, y.a, z.a);
}

proof fn lemma_int_distributes(a: int, b: int, c: int)
    ensures
        a * (b + c) == a * b + a * c,
        (b + c) * a == b * a + c * a,
{
    assert(a * (b + c) == a * b + a * c) by (nonlinear_arith);
    assert((b + c) * a == b * a + c * a) by (nonlinear_arith);
}

proof fn lemma_int_associates(a: int, b: int, c: int)
    ensures
        (a * b) * c == a * (b * c),
{
    assert((a * b) * c == a * (b * c)) by (nonlinear_arith);
}

proof fn lemma_int_distributes_sub(a: int, b: int, c: int)
    ensures
        a * (b - c) == a * b - a * c,
        (b - c) * a == b * a - c * a,
{
    assert(a * (b - c) == a * b - a * c) by (nonlinear_arith);
    assert((b - c) * a == b * a - c * a) by (nonlinear_arith);
}

proof fn lemma_pair_associates(x: Pair, y: Pair, z: Pair)
    ensures
        pair_mul(pair_mul(x, y), z) == pair_mul(x, pair_mul(y, z)),
{
    reveal(pair_mul);
    lemma_int_distributes_sub(z.a, x.a * y.a, x.b * y.b);
    lemma_int_distributes(z.b, x.a * y.b, x.b * y.a);
    lemma_int_distributes_sub(z.b, x.a * y.a, x.b * y.b);
    lemma_int_distributes(z.a, x.a * y.b, x.b * y.a);
    lemma_int_distributes_sub(x.a, y.a * z.a, y.b * z.b);
    lemma_int_distributes(x.b, y.a * z.b, y.b * z.a);
    lemma_int_distributes(x.a, y.a * z.b, y.b * z.a);
    lemma_int_distributes_sub(x.b, y.a * z.a, y.b * z.b);
    lemma_int_associates(x.a, y.a, z.a);
    lemma_int_associates(x.b, y.b, z.a);
    lemma_int_associates(x.a, y.b, z.b);
    lemma_int_associates(x.b, y.a, z.b);
    lemma_int_associates(x.a, y.a, z.b);
    lemma_int_associates(x.b, y.b, z.b);
    lemma_int_associates(x.a, y.b, z.a);
    lemma_int_associates(x.b, y.a, z.a);
}

/// Multiplication of quadruples is commutative.
pub proof fn lemma_quad_commutes(x: Quad, y: Quad)
    ensures
        quad_mul(x, y) == quad_mul(y, x),
{
    lemma_pair_commutes(x.lo, y.lo);
    lemma_pair_commutes(x.hi, y.hi);
    lemma_pair_commutes(x.lo, y.hi);
    lemma_pair_commutes(x.hi, y.lo);
}

/// Multiplication of quadruples distributes over addition.
pub proof fn lemma_quad_distributes(x: Quad, y: Quad, z: Quad)
    ensures
        quad_mul(x, quad_add(y, z)) == quad_add(quad_mul(x, y), quad_mul(x, z)),
{
    lemma_pair_distributes(x.lo, y.lo, z.lo);
    lemma_pair_distributes(x.hi, y.hi, z.hi);
    lemma_pair_distributes(pair_r(), pair_mul(x.hi, y.hi), pair_mul(x.hi, z.hi));
    lemma_pair_distributes(x.lo, y.hi, z.hi);
    lemma_pair_distributes(x.hi, y.lo, z.lo);
}

/// `r (x y) == x (r y)` for Gaussian integers.
proof fn lemma_pair_hoist(r: Pair, x: Pair, y: Pair)
    ensures
        pair_mul(r, pair_mul(x, y)) == pair_mul(x, pair_mul(r, y)),
{
    lemma_pair_associates(r, x, y);
    lemma_pair_commutes(r, x);
    lemma_pair_associates(x, r, y);
}

/// Multiplication of quadruples is associative.
pub proof fn lemma_quad_associates(x: Quad, y: Quad, z: Quad)
    ensures
        quad_mul(quad_mul(x, y), z) == quad_mul(x, quad_mul(y, z)),
{
    let r = pair_r();
    let (a, b) = (x.lo, x.hi);
    let (c, d) = (y.lo, y.hi);
    let (e, f) = (z.lo, z.hi);
    // Low half.
    lemma_pair_distributes(e, pair_mul(a, c), pair_mul(r, pair_mul(b, d)));
    lemma_pair_distributes(f, pair_mul(a, d), pair_mul(b, c));
    lemma_pair_distributes(r, pair_mul(pair_mul(a, d), f), pair_mul(pair_mul(b, c), f));
    lemma_pair_distributes(a, pair_mul(c, e), pair_mul(r, pair_mul(d, f)));
    lemma_pair_distributes(b, pair_mul(c, f), pair_mul(d, e));
    lemma_pair_distributes(r, pair_mul(b, pair_mul(c, f)), pair_mul(b, pair_mul(d, e)));
    lemma_pair_associates(a, c, e);
    lemma_pair_associates(r, pair_mul(b, d), e);
    lemma_pair_associates(b, d, e);
    lemma_pair_associates(a, d, f);
    lemma_pair_hoist(r, a, pair_mul(d, f));
    lemma_pair_associates(b, c, f);
    // High half.
    lemma_pair_distributes(f, pair_mul(a, c), pair_mul(r, pair_mul(b, d)));
    lemma_pair_distributes(e, pair_mul(a, d), pair_mul(b, c));
    lemma_pair_distributes(a, pair_mul(c, f), pair_mul(d, e));
    lemma_pair_distributes(b, pair_mul(c, e), pair_mul(r, pair_mul(d, f)));
    lemma_pair_associates(a, c, f);
    lemma_pair_associates(r, pair_mul(b, d), f);
    lemma_pair_associates(b, d, f);
    lemma_pair_hoist(r, b, pair_mul(d, f));
    lemma_pair_associates(a, d, e);
    lemma_pair_associates(b, c, e);
}

pub open spec fn pair_scale(k: int, x: Pair) -> Pair {
    Pair { a: k * x.a, b: k * x.b }
}

pub open spec fn quad_scale(k: int, x: Quad) -> Quad {
    Quad { lo: pair_scale(k, x.lo), hi: pair_scale(k, x.hi) }
}

proof fn lemma_pair_scale(k: int, x: Pair, y: Pair)
    ensures
        pair_mul(pair_scale(k, x), y) == pair_scale(k, pair_mul(x, y)),
{
    reveal(pair_mul);
    lemma_int_associates(k, x.a, y.a);
    lemma_int_associates(k, x.b, y.b);
    lemma_int_associates(k, x.a, y.b);
    lemma_int_associates(k, x.b, y.a);
    lemma_int_distributes_sub(k, x.a * y.a, x.b * y.b);
    lemma_int_distributes(k, x.a * y.b, x.b * y.a);
}

proof fn lemma_quad_scale(k: int, x: Quad, y: Quad)
    ensures
        quad_mul(quad_scale(k, x), y) == quad_scale(k, quad_mul(x, y)),
{
    let r = pair_r();
    lemma_pair_scale(k, x.lo, y.lo);
    lemma_pair_scale(k, x.hi, y.hi);
    lemma_pair_commutes(r, pair_scale(k, pair_mul(x.hi, y.hi)));
    lemma_pair_scale(k, pair_mul(x.hi, y.hi), r);
    lemma_pair_commutes(r, pair_mul(x.hi, y.hi));
    lemma_pair_scale(k, x.lo, y.hi);
    lemma_pair_scale(k, x.hi, y.lo);
    let p = pair_mul(x.lo, y.lo);
    let q = pair_mul(r, pair_mul(x.hi, y.hi));
    lemma_int_distributes(k, p.a, q.a);
    lemma_int_distributes(k, p.b, q.b);
    let s = pair_mul(x.lo, y.hi);
    let t = pair_mul(x.hi, y.lo);
    lemma_int_distributes(k, s.a, t.a);
    lemma_int_distributes(k, s.b, t.b);
}

/// The representative of `m31_of(v)` is `v` reduced.
pub proof fn lemma_m31_of(v: int)
    ensures
        m31_of(v).0 == v % 2_147_483_647,
        m31_of(v).wf(),
{
    lemma_mod_bound(v, 2_147_483_647);
}

/// A reduced representative is left as it is.
pub proof fn lemma_m31_of_small(a: M31)
    requires
        a.wf(),
    ensures
        m31_of(a.0 as int) == a,
{
    lemma_small_mod(a.0 as nat, 2_147_483_647);
}

/// A reduced element is what its coordinates reduce to.
pub proof fn lemma_quad_round_trip(x: SecureField)
    requires
        x.wf(),
    ensures
        quad_reduce(quad_of(x)) == x,
{
    reveal(sf_of);
    lemma_m31_of_small(x.c0);
    lemma_m31_of_small(x.c1);
    lemma_m31_of_small(x.c2);
    lemma_m31_of_small(x.c3);
}

proof fn lemma_reduce_drops_multiple(v: int, k: int)
    ensures
        m31_of(v + 2_147_483_647 * k) == m31_of(v),
{
    lemma_mod_multiples_vanish(k, v, 2_147_483_647);
    assert(2_147_483_647 * k + v == v + 2_147_483_647 * k);
}

/// Adding a multiple of the modulus to every coordinate changes nothing.
proof fn lemma_quad_reduce_drops(x: Quad, k: Quad)
    ensures
        quad_reduce(quad_add(x, quad_scale(2_147_483_647, k))) == quad_reduce(x),
{
    reveal(sf_of);
    lemma_reduce_drops_multiple(x.lo.a, k.lo.a);
    lemma_reduce_drops_multiple(x.lo.b, k.lo.b);
    lemma_reduce_drops_multiple(x.hi.a, k.hi.a);
    lemma_reduce_drops_multiple(x.hi.b, k.hi.b);
}

/// The quotient of a quadruple by the modulus.
spec fn quad_quotient(x: Quad) -> Quad {
    Quad {
        lo: Pair { a: x.lo.a / 2_147_483_647, b: x.lo.b / 2_147_483_647 },
        hi: Pair { a: x.hi.a / 2_147_483_647, b: x.hi.b / 2_147_483_647 },
    }
}

/// A quadruple is its reduction plus a multiple of the modulus.
proof fn lemma_quad_split(x: Quad)
    ensures
        x == quad_add(
            quad_of(quad_reduce(x)),
            quad_scale(2_147_483_647, quad_quotient(x)),
        ),
{
    reveal(sf_of);
    lemma_m31_of(x.lo.a);
    lemma_m31_of(x.lo.b);
    lemma_m31_of(x.hi.a);
    lemma_m31_of(x.hi.b);
    lemma_fundamental_div_mod(x.lo.a, 2_147_483_647);
    lemma_fundamental_div_mod(x.lo.b, 2_147_483_647);
    lemma_fundamental_div_mod(x.hi.a, 2_147_483_647);
    lemma_fundamental_div_mod(x.hi.b, 2_147_483_647);
}

/// Reducing the left factor first does not change a product.
proof fn lemma_product_reduces_left(x: Quad, y: Quad)
    ensures
        quad_reduce(quad_mul(quad_of(quad_reduce(x)), y)) == quad_reduce(quad_mul(x, y)),
{
    let q = quad_of(quad_reduce(x));
    let k = quad_quotient(x);
    let pk = quad_scale(2_147_483_647, k);
    lemma_quad_split(x);
    lemma_quad_commutes(x, y);
    lemma_quad_distributes(y, q, pk);
    lemma_quad_commutes(y, q);
    lemma_quad_commutes(y, pk);
    lemma_quad_scale(2_147_483_647, k, y);
    lemma_quad_reduce_drops(quad_mul(q, y), quad_mul(k, y));
}

/// Reducing the summands first does not change a sum.
proof fn lemma_sum_reduces(x: Quad, y: Quad)
    ensures
        sf_sum(quad_reduce(x), quad_reduce(y)) == quad_reduce(quad_add(x, y)),
{
    reveal(sf_of);
    lemma_m31_of(x.lo.a);
    lemma_m31_of(x.lo.b);
    lemma_m31_of(x.hi.a);
    lemma_m31_of(x.hi.b);
    lemma_m31_of(y.lo.a);
    lemma_m31_of(y.lo.b);
    lemma_m31_of(y.hi.a);
    lemma_m31_of(y.hi.b);
    lemma_add_mod_noop(x.lo.a, y.lo.a, 2_147_483_647);
    lemma_add_mod_noop(x.lo.b, y.lo.b, 2_147_483_647);
    lemma_add_mod_noop(x.hi.a, y.hi.a, 2_147_483_647);
    lemma_add_mod_noop(x.hi.b, y.hi.b, 2_147_483_647);
}

/// Every result of an operation is reduced.
pub proof fn lemma_results_reduced(x: SecureField, y: SecureField)
    ensures
        sf_sum(x, y).wf(),
        sf_difference(x, y).wf(),
        sf_negation(x).wf(),
        sf_product(x, y).wf(),
{
    reveal(sf_of);
    assert forall|v: int| (#[trigger] m31_of(v)).wf() by {
        lemma_m31_of(v);
    }
}

/// Law: addition is commutative.
pub proof fn law_sum_commutes(x: SecureField, y: SecureField)
    ensures
        sf_sum(x, y) == sf_sum(y, x),
{
}

/// Law: addition is associative.
pub proof fn law_sum_associates(x: SecureField, y: SecureField, z: SecureField)
    requires
        x.wf(),
        y.wf(),
        z.wf(),
    ensures
        sf_sum(sf_sum(x, y), z) == sf_sum(x, sf_sum(y, z)),
{
    lemma_quad_round_trip(x);
    lemma_quad_round_trip(y);
    lemma_quad_round_trip(z);
    let (a, b, c) = (quad_of(x), quad_of(y), quad_of(z));
    lemma_sum_reduces(a, b);
    lemma_sum_reduces(quad_add(a, b), c);
    lemma_sum_reduces(b, c);
    lemma_sum_reduces(a, quad_add(b, c));
    assert(quad_add(quad_add(a, b), c) == quad_add(a, quad_add(b, c)));
}

/// Law: zero is neutral for addition, and every element has a negation.
pub proof fn law_sum_identity(x: SecureField)
    requires
        x.wf(),
    ensures
        sf_sum(x, sf_zero()) == x,
        sf_sum(sf_zero(), x) == x,
        sf_sum(x, sf_negation(x)) == sf_zero(),
{
    lemma_quad_round_trip(x);
    let z = quad_of(sf_zero());
    let n = Quad {
        lo: Pair { a: 0 - x.c0.0, b: 0 - x.c1.0 },
        hi: Pair { a: 0 - x.c2.0, b: 0 - x.c3.0 },
    };
    assert(sf_negation(x) == quad_reduce(n));
    lemma_sum_reduces(quad_of(x), n);
    assert(quad_add(quad_of(x), n) == z);
    lemma_quad_round_trip(sf_zero());
}

/// Law: a sum is zero exactly when one summand is the negation of the other.
pub proof fn law_sum_zero(x: SecureField, y: SecureField)
    requires
        x.wf(),
        y.wf(),
    ensures
        sf_sum(x, y) == sf_zero() <==> y == sf_negation(x),
{
    law_sum_identity(x);
    law_sum_identity(y);
    if sf_sum(x, y) == sf_zero() {
        let n = sf_negation(x);
        lemma_results_reduced(x, x);
        law_sum_identity(n);
        law_sum_commutes(x, n);
        law_sum_associates(n, x, y);
    }
}

/// Law: multiplication is commutative.
pub proof fn law_product_commutes(x: SecureField, y: SecureField)
    ensures
        sf_product(x, y) == sf_product(y, x),
{
    lemma_quad_commutes(quad_of(x), quad_of(y));
}

/// Law: multiplication is associative.
pub proof fn law_product_associates(x: SecureField, y: SecureField, z: SecureField)
    ensures
        sf_product(sf_product(x, y), z) == sf_product(x, sf_product(y, z)),
{
    let (a, b, c) = (quad_of(x), quad_of(y), quad_of(z));
    lemma_product_reduces_left(quad_mul(a, b), c);
    lemma_quad_associates(a, b, c);
    lemma_quad_commutes(a, quad_of(sf_product(y, z)));
    lemma_product_reduces_left(quad_mul(b, c), a);
    lemma_quad_commutes(quad_mul(b, c), a);
}

/// Law: multiplication distributes over addition.
pub proof fn law_product_distributes(x: SecureField, y: SecureField, z: SecureField)
    ensures
        sf_product(x, sf_sum(y, z)) == sf_sum(sf_product(x, y), sf_product(x, z)),
{
    let (a, b, c) = (quad_of(x), quad_of(y), quad_of(z));
    assert(sf_sum(y, z) == quad_reduce(quad_add(b, c)));
    lemma_quad_commutes(a, quad_of(sf_sum(y, z)));
    lemma_product_reduces_left(quad_add(b, c), a);
    lemma_quad_commutes(quad_add(b, c), a);
    lemma_quad_distributes(a, b, c);
    lemma_sum_reduces(quad_mul(a, b), quad_mul(a, c));
}

/// Law: one is neutral for multiplication.
pub proof fn law_product_identity(x: SecureField)
    requires
        x.wf(),
    ensures
        sf_product(x, sf_one()) == x,
        sf_product(sf_one(), x) == x,
{
    reveal(pair_mul);
    law_product_commutes(x, sf_one());
    assert(quad_mul(quad_of(x), quad_of(sf_one())) == quad_of(x)) by {
        let q = quad_of(x);
        assert(q.lo.a * 1 == q.lo.a && q.lo.b * 1 == q.lo.b && q.hi.a * 1 == q.hi.a && q.hi.b * 1
            == q.hi.b);
        assert(q.lo.a * 0 == 0 && q.lo.b * 0 == 0 && q.hi.a * 0 == 0 && q.hi.b * 0 == 0);
    }
    lemma_quad_round_trip(x);
}

/// Law: an element has at most one inverse, and `sf_inverse` is it.
pub proof fn lemma_inverse_unique(x: SecureField, y: SecureField)
    requires
        x.wf(),
        sf_is_inverse(x, y),
    ensures
        sf_inverse(x) == y,
        sf_is_inverse(x, sf_inverse(x)),
{
    let z = sf_inverse(x);
    assert(sf_is_inverse(x, z));
    law_product_identity(y);
    law_product_identity(z);
    law_product_associates(z, x, y);
    law_product_commutes(x, z);
}

/// Law: a product with zero is zero, and zero is its own negation.
pub proof fn law_product_zero(x: SecureField)
    ensures
        sf_product(x, sf_zero()) == sf_zero(),
        sf_product(sf_zero(), x) == sf_zero(),
        sf_negation(sf_zero()) == sf_zero(),
{
    reveal(pair_mul);
    law_product_commutes(x, sf_zero());
    let q = quad_of(x);
    assert(q.lo.a * 0 == 0 && q.lo.b * 0 == 0 && q.hi.a * 0 == 0 && q.hi.b * 0 == 0);
    assert(quad_mul(q, quad_of(sf_zero())) == quad_of(sf_zero()));
    lemma_quad_round_trip(sf_zero());
}

/// Law: negation moves out of a product.
pub proof fn law_product_negation(x: SecureField, y: SecureField)
    requires
        x.wf(),
        y.wf(),
    ensures
        sf_product(sf_negation(x), y) == sf_negation(sf_product(x, y)),
{
    let n = sf_negation(x);
    lemma_results_reduced(x, y);
    lemma_results_reduced(n, y);
    law_sum_identity(x);
    law_product_distributes(y, x, n);
    law_product_commutes(y, x);
    law_product_commutes(y, n);
    law_product_zero(y);
    law_product_commutes(y, sf_zero());
    law_sum_zero(sf_product(x, y), sf_product(n, y));
}

/// Law: the negation of a sum is the sum of the negations.
pub proof fn law_negation_of_sum(x: SecureField, y: SecureField)
    requires
        x.wf(),
        y.wf(),
    ensures
        sf_negation(sf_sum(x, y)) == sf_sum(sf_negation(x), sf_negation(y)),
{
    let (nx, ny) = (sf_negation(x), sf_negation(y));
    lemma_results_reduced(x, y);
    lemma_results_reduced(y, x);
    lemma_results_reduced(nx, ny);
    let s = sf_sum(x, y);
    let t = sf_sum(nx, ny);
    law_sum_identity(x);
    law_sum_identity(y);
    // (x + y) + (nx + ny) = x + (y + (ny + nx)) = x + nx = 0.
    law_sum_associates(x, y, t);
    law_sum_commutes(nx, ny);
    law_sum_associates(y, ny, nx);
    law_sum_identity(nx);
    law_sum_zero(s, t);
}

/// Every partial sum is reduced.
pub proof fn lemma_sum_of_reduced(s: Seq<SecureField>)
    ensures
        sf_sum_of(s).wf(),
{
    if s.len() > 0 {
        lemma_results_reduced(sf_sum_of(s.drop_last()), s.last());
    }
}

/// Law: changing one summand by `d` changes the sum by `d`.
pub proof fn law_sum_of_update(s: Seq<SecureField>, j: int, d: SecureField)
    requires
        0 <= j < s.len(),
        forall|i: int| 0 <= i < s.len() ==> (#[trigger] s[i]).wf(),
        d.wf(),
    ensures
        sf_sum_of(s.update(j, sf_sum(s[j], d))) == sf_sum(sf_sum_of(s), d),
    decreases s.len(),
{
    let t = s.update(j, sf_sum(s[j], d));
    let front = s.drop_last();
    lemma_sum_of_reduced(front);
    assert(s[s.len() - 1].wf());
    if j == s.len() - 1 {
        assert(t.drop_last() =~= front);
        law_sum_associates(sf_sum_of(front), s.last(), d);
    } else {
        assert(t.drop_last() =~= front.update(j, sf_sum(front[j], d)));
        assert(t.last() == s.last());
        assert forall|i: int| 0 <= i < front.len() implies (#[trigger] front[i]).wf() by {
            assert(front[i] == s[i]);
        }
        law_sum_of_update(front, j, d);
        law_sum_associates(sf_sum_of(front), d, s.last());
        law_sum_commutes(d, s.last());
        law_sum_associates(sf_sum_of(front), s.last(), d);
    }
}

/// Law: the sum of a concatenation is the sum of the sums.
pub proof fn law_sum_of_concat(s: Seq<SecureField>, t: Seq<SecureField>)
    requires
        forall|i: int| 0 <= i < t.len() ==> (#[trigger] t[i]).wf(),
    ensures
        sf_sum_of(s + t) == sf_sum(sf_sum_of(s), sf_sum_of(t)),
    decreases t.len(),
{
    lemma_sum_of_reduced(s);
    if t.len() == 0 {
        assert(s + t =~= s);
        law_sum_identity(sf_sum_of(s));
    } else {
        let front = t.drop_last();
        assert((s + t).drop_last() =~= s + front);
        assert((s + t).last() == t.last());
        assert forall|i: int| 0 <= i < front.len() implies (#[trigger] front[i]).wf() by {
            assert(front[i] == t[i]);
        }
        law_sum_of_concat(s, front);
        lemma_sum_of_reduced(front);
        assert(t[t.len() - 1].wf());
        law_sum_associates(sf_sum_of(s), sf_sum_of(front), t.last());
    }
}

/// Law: a sum of zeros is zero.
pub proof fn law_sum_of_zeros(s: Seq<SecureField>)
    requires
        forall|i: int| 0 <= i < s.len() ==> #[trigger] s[i] == sf_zero(),
    ensures
        sf_sum_of(s) == sf_zero(),
    decreases s.len(),
{
    if s.len() > 0 {
        let front = s.drop_last();
        assert forall|i: int| 0 <= i < front.len() implies #[trigger] front[i] == sf_zero() by {
            assert(front[i] == s[i]);
        }
        law_sum_of_zeros(front);
        assert(s[s.len() - 1] == sf_zero());
        law_sum_identity(sf_zero());
    }
}

/// Taking a summand out of the middle.
proof fn lemma_sum_of_remove(s: Seq<SecureField>, j: int)
    requires
        0 <= j < s.len(),
        forall|i: int| 0 <= i < s.len() ==> (#[trigger] s[i]).wf(),
    ensures
        sf_sum_of(s) == sf_sum(sf_sum_of(s.remove(j)), s[j]),
    decreases s.len(),
{
    let front = s.drop_last();
    assert(s[s.len() - 1].wf());
    if j == s.len() - 1 {
        assert(s.remove(j) =~= front);
    } else {
        let r = s.remove(j);
        assert(r.drop_last() =~= front.remove(j));
        assert(r.last() == s.last());
        assert forall|i: int| 0 <= i < front.len() implies (#[trigger] front[i]).wf() by {
            assert(front[i] == s[i]);
        }
        lemma_sum_of_remove(front, j);
        lemma_sum_of_reduced(front.remove(j));
        law_sum_associates(sf_sum_of(front.remove(j)), front[j], s.last());
        law_sum_commutes(front[j], s.last());
        law_sum_associates(sf_sum_of(front.remove(j)), s.last(), front[j]);
    }
}

/// Law: a sum does not depend on the order of its summands. `place` gives, for
/// each position of `t`, the position in `s` of the same summand.
pub proof fn law_sum_of_rearranged(
    s: Seq<SecureField>,
    t: Seq<SecureField>,
    place: spec_fn(int) -> int,
)
    requires
        s.len() == t.len(),
        forall|i: int| 0 <= i < s.len() ==> (#[trigger] s[i]).wf(),
        forall|i: int|
            0 <= i < t.len() ==> 0 <= #[trigger] place(i) < s.len() && t[i] == s[place(i)],
        forall|i: int, j: int|
            0 <= i < j < t.len() ==> #[trigger] place(i) != #[trigger] place(j),
    ensures
        sf_sum_of(t) == sf_sum_of(s),
    decreases t.len(),
{
    if t.len() > 0 {
        let last = t.len() - 1;
        let j = place(last as int);
        let s2 = s.remove(j);
        let t2 = t.drop_last();
        let place2 = |i: int|
            if place(i) > j {
                place(i) - 1
            } else {
                place(i)
            };
        assert forall|i: int| 0 <= i < s2.len() implies (#[trigger] s2[i]).wf() by {
            if i < j {
                assert(s2[i] == s[i]);
            } else {
                assert(s2[i] == s[i + 1]);
            }
        }
        assert forall|i: int| 0 <= i < t2.len() implies 0 <= #[trigger] place2(i) < s2.len()
            && t2[i] == s2[place2(i)] by {
            assert(0 <= place(i) < s.len());
            assert(place(i) != place(last as int));
            assert(t2[i] == t[i]);
        }
        assert forall|a: int, b: int| 0 <= a < b < t2.len() implies #[trigger] place2(a)
            != #[trigger] place2(b) by {
            assert(place(a) != place(b));
            assert(place(a) != place(last as int));
            assert(place(b) != place(last as int));
        }
        law_sum_of_rearranged(s2, t2, place2);
        lemma_sum_of_remove(s, j);
    } else {
        assert(s =~= t);
    }
}

} // verus!
