//! The final addition `S = R_1 + R_2`: the orientation of the two hint points,
//! and the scalar products that the certificates stand for.
use crate::curve::{
    additive_inverses, chord_output, chord_slope, field_p, group_add, is_mod_inverse,
    lemma_constants, lemma_mod_inverse_unique, mod_inv, reduced_point, reflected, tangent_slope,
};
use crate::field_ops::sub_mod_witness;
use crate::fields::M31;
use crate::limbs::P256M31BigInt;
use crate::pipeline::draft::P256ProofClaim;
use crate::pipeline::error::{FinalAddError, P256ProofError, PublicKeyCurveSliceError};
use crate::public_key_check::{PublicKeyOnCurveClaim, PublicKeyOnCurveRow};
use crate::types::{field_modulus, AffinePoint, U256};
use vstd::arithmetic::div_mod::{
    lemma_mod_bound, lemma_mod_multiples_vanish, lemma_small_mod, lemma_sub_mod_noop,
};
use vstd::prelude::*;

verus! {

/// A point of the prepared table, or the point at infinity.
#[derive(Clone, Copy, Debug)]
pub struct PreparedAffinePoint {
    pub x: U256,
    pub y: U256,
    pub is_infinity: bool,
}

impl PreparedAffinePoint {
    /// Coordinates of a finite point.
    pub open spec fn spec_point(&self) -> Option<(int, int)> {
        if self.is_infinity {
            None
        } else {
            Some((self.x.spec_value(), self.y.spec_value()))
        }
    }

    pub fn infinity() -> (r: PreparedAffinePoint)
        ensures
            r.spec_point() is None,
            r.is_infinity,
            r.x.spec_value() == 0,
            r.y.spec_value() == 0,
    {
        PreparedAffinePoint { x: U256::zero(), y: U256::zero(), is_infinity: true }
    }

    pub fn from_affine(point: &AffinePoint) -> (r: PreparedAffinePoint)
        ensures
            r.spec_point() == Some(point.spec_xy()),
    {
        PreparedAffinePoint { x: point.x, y: point.y, is_infinity: false }
    }

    /// The finite point, if it is one.
    pub fn to_option(&self) -> (r: Option<AffinePoint>)
        ensures
            r is Some <==> !self.is_infinity,
            r is Some ==> Some(r->0.spec_xy()) == self.spec_point(),
    {
        if self.is_infinity {
            None
        } else {
            Some(AffinePoint { x: self.x, y: self.y })
        }
    }
}

/// A point and its infinity flag, for an optional pair of coordinates.
pub open spec fn flagged(r: (AffinePoint, bool), point: Option<(int, int)>) -> bool {
    match point {
        Some(xy) => r.0.spec_xy() == xy && !r.1,
        None => r.0.spec_xy() == (0int, 0int) && r.1,
    }
}

/// The hint point that a sign bit selects: the point itself for zero, its
/// reflection otherwise.
pub open spec fn signed_point(point: Option<(int, int)>, sign_bit: M31) -> Option<(int, int)> {
    match point {
        None => None,
        Some(xy) => if sign_bit.0 == 0 {
            Some(xy)
        } else {
            Some(reflected(xy))
        },
    }
}

/// The signed hint point. At infinity the sign does not matter.
pub fn signed_prepared(point: &PreparedAffinePoint, s2_sign_bit: M31) -> (r: (AffinePoint, bool))
    ensures
        flagged(r, signed_point(point.spec_point(), s2_sign_bit)),
{
    if s2_sign_bit.0 == 0 {
        identity_prepared(point)
    } else {
        negate_prepared(point)
    }
}

/// The point itself, or the zero pair flagged as infinity.
pub fn identity_prepared(point: &PreparedAffinePoint) -> (r: (AffinePoint, bool))
    ensures
        flagged(r, point.spec_point()),
{
    match point.to_option() {
        Some(p) => (p, false),
        None => (AffinePoint { x: U256::zero(), y: U256::zero() }, true),
    }
}

/// The reflected point, or the zero pair flagged as infinity.
pub fn negate_prepared(point: &PreparedAffinePoint) -> (r: (AffinePoint, bool))
    ensures
        flagged(
            r,
            match point.spec_point() {
                Some(xy) => Some(reflected(xy)),
                None => None,
            },
        ),
{
    match point.to_option() {
        Some(p) => {
            let modulus: U256 = field_modulus();
            proof {
                lemma_constants();
            }
            let neg_y: U256 = sub_mod_witness(&modulus, &p.y, &modulus).result.to_u256();
            (AffinePoint { x: p.x, y: neg_y }, false)
        },
        None => (AffinePoint { x: U256::zero(), y: U256::zero() }, true),
    }
}

/// What the final addition reads of a row of the final check: the statement
/// and its two hint points.
#[derive(Clone, Copy, Debug)]
pub struct FinalCheckRow {
    pub sig_id: M31,
    pub h1: PreparedAffinePoint,
    pub h2: PreparedAffinePoint,
}

/// One certificate: its statement, its scalar and the decomposition of it.
#[derive(Clone, Copy, Debug)]
pub struct FakeGlvScalarRow {
    pub sig_id: M31,
    pub cert_id: M31,
    pub cert_active: M31,
    pub scalar: P256M31BigInt,
    pub s2_abs: U256,
    pub s2_sign_bit: M31,
}

/// What the final addition is built from.
#[derive(Clone, Copy, Debug)]
pub struct FinalAddInputs {
    pub sig_id: M31,
    pub r1: AffinePoint,
    pub r1_inf: bool,
    pub b1: M31,
    pub r2: AffinePoint,
    pub r2_inf: bool,
    pub b2: M31,
    pub hinted_source_offset: u32,
}

/// The row is the active certificate `cert_id` of the statement.
pub open spec fn certifies(row: FakeGlvScalarRow, sig_id: M31, cert_id: u32) -> bool {
    row.sig_id == sig_id && row.cert_id.0 == cert_id && row.cert_active.0 == 1
}

/// The sign bit of the first active certificate `cert_id` of a statement; one
/// where there is none.
pub open spec fn sign_bit(rows: Seq<FakeGlvScalarRow>, sig_id: M31, cert_id: u32) -> M31
    decreases rows.len(),
{
    if rows.len() == 0 {
        M31(1)
    } else if certifies(rows[0], sig_id, cert_id) {
        rows[0].s2_sign_bit
    } else {
        sign_bit(rows.skip(1), sig_id, cert_id)
    }
}

/// Finds the sign bit of a certificate.
pub fn bit_for(rows: &Vec<FakeGlvScalarRow>, sig_id: M31, cert_id: u32) -> (r: M31)
    ensures
        r == sign_bit(rows@, sig_id, cert_id),
{
    let mut i: usize = 0;
    proof {
        assert(rows@.skip(0) =~= rows@);
    }
    while i < rows.len()
        invariant
            i <= rows@.len(),
            sign_bit(rows@, sig_id, cert_id) == sign_bit(rows@.skip(i as int), sig_id, cert_id),
        decreases rows@.len() - i,
    {
        proof {
            assert(rows@.skip(i as int)[0] == rows@[i as int]);
            assert(rows@.skip(i as int).skip(1) =~= rows@.skip(i + 1));
        }
        let row = &rows[i];
        if row.sig_id == sig_id && row.cert_id.0 == cert_id && row.cert_active.0 == 1 {
            return row.s2_sign_bit;
        }
        i = i + 1;
    }
    M31::one()
}

/// The inputs of the final addition for the first row of the final check: each
/// hint point under the proven sign of its certificate.
pub fn final_add_claim_from_final_check(
    final_check: &Vec<FinalCheckRow>,
    fake_glv_scalars: &Vec<FakeGlvScalarRow>,
    hinted_source_offset: u32,
) -> (r: Result<FinalAddInputs, P256ProofError>)
    ensures
        final_check@.len() == 0 ==> r == Err::<FinalAddInputs, P256ProofError>(
            P256ProofError::FinalAdd(FinalAddError::MulTraceShape),
        ),
        final_check@.len() > 0 ==> (r matches Ok(inputs) && {
            let row = final_check@[0];
            &&& inputs.sig_id == row.sig_id
            &&& inputs.b1 == sign_bit(fake_glv_scalars@, row.sig_id, 0)
            &&& inputs.b2 == sign_bit(fake_glv_scalars@, row.sig_id, 1)
            &&& flagged(
                (inputs.r1, inputs.r1_inf),
                signed_point(row.h1.spec_point(), inputs.b1),
            )
            &&& flagged(
                (inputs.r2, inputs.r2_inf),
                signed_point(row.h2.spec_point(), inputs.b2),
            )
            &&& inputs.hinted_source_offset == hinted_source_offset
        }),
{
    if final_check.len() == 0 {
        return Err(P256ProofError::FinalAdd(FinalAddError::MulTraceShape));
    }
    let row = &final_check[0];
    let b1: M31 = bit_for(fake_glv_scalars, row.sig_id, 0);
    let b2: M31 = bit_for(fake_glv_scalars, row.sig_id, 1);
    let (r1, r1_inf) = signed_prepared(&row.h1, b1);
    let (r2, r2_inf) = signed_prepared(&row.h2, b2);
    Ok(
        FinalAddInputs {
            sig_id: row.sig_id,
            r1,
            r1_inf,
            b1,
            r2,
            r2_inf,
            b2,
            hinted_source_offset,
        },
    )
}

/// The public-key row that the curve check is built from, with the place of its
/// products among the hinted ones.
#[derive(Clone, Debug)]
pub struct PublicKeySliceInputs {
    pub row: PublicKeyOnCurveRow,
    pub hinted_source_offset: u32,
}

/// The curve check takes the first public-key row.
pub fn public_key_slice_from_check(
    public_key_check: &PublicKeyOnCurveClaim,
    hinted_source_offset: u32,
) -> (r: Result<PublicKeySliceInputs, P256ProofError>)
    ensures
        public_key_check.rows@.len() == 0 ==> r == Err::<PublicKeySliceInputs, P256ProofError>(
            P256ProofError::PublicKeyCurveSlice(
                PublicKeyCurveSliceError::UnsupportedRowCount { actual: 0 },
            ),
        ),
        public_key_check.rows@.len() > 0 ==> (r matches Ok(slice) && slice.row
            == public_key_check.rows@[0] && slice.hinted_source_offset == hinted_source_offset),
{
    if public_key_check.rows.len() == 0 {
        return Err(
            P256ProofError::PublicKeyCurveSlice(
                PublicKeyCurveSliceError::UnsupportedRowCount { actual: 0 },
            ),
        );
    }
    Ok(PublicKeySliceInputs { row: public_key_check.rows[0], hinted_source_offset })
}

/// The curve check of a claim: its products take the source indices just past
/// those of the ladder and of the final addition.
pub fn public_key_on_curve_slice_claim(claim: &P256ProofClaim) -> (r: Result<
    PublicKeySliceInputs,
    P256ProofError,
>)
    requires
        claim.projective_rcb_air_trace.rows + claim.final_add.mul_trace.rows <= u32::MAX,
    ensures
        claim.public_key_check.rows@.len() == 0 ==> r == Err::<
            PublicKeySliceInputs,
            P256ProofError,
        >(
            P256ProofError::PublicKeyCurveSlice(
                PublicKeyCurveSliceError::UnsupportedRowCount { actual: 0 },
            ),
        ),
        claim.public_key_check.rows@.len() > 0 ==> (r matches Ok(slice) && slice.row
            == claim.public_key_check.rows@[0] && slice.hinted_source_offset
            == claim.projective_rcb_air_trace.rows + claim.final_add.mul_trace.rows),
{
    let hinted_source_offset: u32 = claim.projective_rcb_air_trace.rows
        + claim.final_add.mul_trace.rows;
    public_key_slice_from_check(&claim.public_key_check, hinted_source_offset)
}

/// One product modulo the group order, under the identifier that its lookups
/// are keyed by.
#[derive(Clone, Copy, Debug)]
pub struct ScalarModMulInstance {
    pub mul_id: u32,
    pub lhs: U256,
    pub rhs: U256,
}

/// The scalars of one statement: `s * u1` and `s * u2` are its two products.
#[derive(Clone, Copy, Debug)]
pub struct ScalarSetupRow {
    pub s: U256,
    pub u1: U256,
    pub u2: U256,
}

/// First identifier of the certificate products. The products of the scalar
/// setup count up from zero.
pub const FAKE_GLV_SCALAR_MUL_ID_BASE: u32 = 1_000_000;

/// The products of the scalar setup: two per statement.
pub open spec fn setup_products(rows: Seq<ScalarSetupRow>) -> Seq<ScalarModMulInstance>
    decreases rows.len(),
{
    if rows.len() == 0 {
        Seq::empty()
    } else {
        let i = rows.len() - 1;
        setup_products(rows.drop_last()).push(
            ScalarModMulInstance {
                mul_id: (2 * i) as u32,
                lhs: rows.last().s,
                rhs: rows.last().u1,
            },
        ).push(
            ScalarModMulInstance {
                mul_id: (2 * i + 1) as u32,
                lhs: rows.last().s,
                rhs: rows.last().u2,
            },
        )
    }
}

/// The identifier of a certificate's product.
pub open spec fn certificate_id(row: FakeGlvScalarRow) -> int {
    FAKE_GLV_SCALAR_MUL_ID_BASE + 2 * row.sig_id.0 + row.cert_id.0
}

/// Certificates whose product identifiers fit in 32 bits.
pub open spec fn identifiable(rows: Seq<FakeGlvScalarRow>) -> bool {
    forall|i: int| 0 <= i < rows.len() ==> certificate_id(#[trigger] rows[i]) <= u32::MAX
}

/// An instance is the product of a certificate.
pub open spec fn certificate_product(
    instance: ScalarModMulInstance,
    row: FakeGlvScalarRow,
) -> bool {
    &&& instance.mul_id == certificate_id(row)
    &&& instance.lhs.spec_value() == row.scalar.spec_value() % crate::words::two_256()
    &&& instance.rhs == row.s2_abs
}

/// The active certificates, in order.
pub open spec fn active_rows(rows: Seq<FakeGlvScalarRow>) -> Seq<FakeGlvScalarRow>
    decreases rows.len(),
{
    if rows.len() == 0 {
        Seq::empty()
    } else if rows.last().cert_active.0 == 0 {
        active_rows(rows.drop_last())
    } else {
        active_rows(rows.drop_last()).push(rows.last())
    }
}

/// The instances are the products of the certificates, one by one.
pub open spec fn certificate_products(
    instances: Seq<ScalarModMulInstance>,
    rows: Seq<FakeGlvScalarRow>,
) -> bool {
    &&& instances.len() == rows.len()
    &&& forall|i: int| 0 <= i < rows.len() ==> certificate_product(#[trigger] instances[i], rows[i])
}

/// The two products of each statement.
pub fn scalar_setup_mod_mul_rows(rows: &Vec<ScalarSetupRow>) -> (r: Vec<ScalarModMulInstance>)
    requires
        2 * rows@.len() <= u32::MAX,
    ensures
        r@ == setup_products(rows@),
        r@.len() == 2 * rows@.len(),
{
    let mut instances: Vec<ScalarModMulInstance> = Vec::new();
    let mut i: usize = 0;
    proof {
        assert(rows@.take(0) =~= Seq::<ScalarSetupRow>::empty());
    }
    while i < rows.len()
        invariant
            i <= rows@.len(),
            2 * rows@.len() <= u32::MAX,
            instances@ == setup_products(rows@.take(i as int)),
            instances@.len() == 2 * i,
        decreases rows@.len() - i,
    {
        proof {
            assert(rows@.take(i + 1).drop_last() =~= rows@.take(i as int));
            assert(rows@.take(i + 1).last() == rows@[i as int]);
        }
        let row = rows[i];
        instances.push(ScalarModMulInstance { mul_id: (2 * i) as u32, lhs: row.s, rhs: row.u1 });
        instances.push(
            ScalarModMulInstance { mul_id: (2 * i + 1) as u32, lhs: row.s, rhs: row.u2 },
        );
        i = i + 1;
    }
    proof {
        assert(rows@.take(i as int) =~= rows@);
    }
    instances
}

/// The product `k * s2_abs` of each active certificate.
pub fn fake_glv_scalar_mod_mul_rows(rows: &Vec<FakeGlvScalarRow>) -> (r: Vec<ScalarModMulInstance>)
    requires
        identifiable(rows@),
    ensures
        certificate_products(r@, active_rows(rows@)),
{
    let mut instances: Vec<ScalarModMulInstance> = Vec::new();
    let mut i: usize = 0;
    proof {
        assert(rows@.take(0) =~= Seq::<FakeGlvScalarRow>::empty());
    }
    while i < rows.len()
        invariant
            i <= rows@.len(),
            identifiable(rows@),
            certificate_products(instances@, active_rows(rows@.take(i as int))),
        decreases rows@.len() - i,
    {
        proof {
            assert(rows@.take(i + 1).drop_last() =~= rows@.take(i as int));
            assert(rows@.take(i + 1).last() == rows@[i as int]);
            assert(certificate_id(rows@[i as int]) <= u32::MAX);
        }
        let row = &rows[i];
        if row.cert_active.0 != 0 {
            let ghost before = instances@;
            let mul_id: u32 = FAKE_GLV_SCALAR_MUL_ID_BASE + 2 * row.sig_id.0 + row.cert_id.0;
            instances.push(
                ScalarModMulInstance { mul_id, lhs: row.scalar.to_u256(), rhs: row.s2_abs },
            );
            proof {
                let done = active_rows(rows@.take(i + 1));
                assert forall|k: int| 0 <= k < done.len() implies certificate_product(
                    #[trigger] instances@[k],
                    done[k],
                ) by {
                    if k < before.len() {
                        assert(certificate_product(before[k], done[k]));
                    }
                }
            }
        }
        i = i + 1;
    }
    proof {
        assert(rows@.take(i as int) =~= rows@);
    }
    instances
}

/// Every product, those of the scalar setup first.
pub fn merged_scalar_mod_mul_rows(
    setup: &Vec<ScalarSetupRow>,
    certificates: &Vec<FakeGlvScalarRow>,
) -> (r: Vec<ScalarModMulInstance>)
    requires
        2 * setup@.len() <= u32::MAX,
        identifiable(certificates@),
    ensures
        r@.len() == 2 * setup@.len() + active_rows(certificates@).len(),
        r@.take(2 * setup@.len() as int) == setup_products(setup@),
        certificate_products(r@.skip(2 * setup@.len() as int), active_rows(certificates@)),
{
    let mut instances: Vec<ScalarModMulInstance> = scalar_setup_mod_mul_rows(setup);
    let mut more: Vec<ScalarModMulInstance> = fake_glv_scalar_mod_mul_rows(certificates);
    let ghost first = instances@;
    let ghost second = more@;
    instances.append(&mut more);
    proof {
        assert(instances@.take(first.len() as int) =~= first);
        assert(instances@.skip(first.len() as int) =~= second);
    }
    instances
}

/// The identifiers of the setup products count up from zero.
pub proof fn lemma_setup_ids(rows: Seq<ScalarSetupRow>)
    requires
        2 * rows.len() <= u32::MAX,
    ensures
        setup_products(rows).len() == 2 * rows.len(),
        forall|i: int|
            0 <= i < setup_products(rows).len() ==> (#[trigger] setup_products(rows)[i]).mul_id
                == i,
    decreases rows.len(),
{
    if rows.len() > 0 {
        lemma_setup_ids(rows.drop_last());
    }
}

/// Law: the two families of products never share an identifier, for up to half
/// a million statements, and within each family different statements and
/// certificates have different identifiers.
pub proof fn law_product_ids_are_distinct(
    setup: Seq<ScalarSetupRow>,
    a: FakeGlvScalarRow,
    b: FakeGlvScalarRow,
)
    requires
        setup.len() <= 500_000,
        a.cert_id.0 < 2,
        b.cert_id.0 < 2,
    ensures
        forall|i: int, j: int|
            0 <= i < j < setup_products(setup).len() ==> (#[trigger] setup_products(setup)[i]).mul_id
                != (#[trigger] setup_products(setup)[j]).mul_id,
        forall|i: int|
            0 <= i < setup_products(setup).len() ==> (#[trigger] setup_products(setup)[i]).mul_id
                < certificate_id(a),
        certificate_id(a) == certificate_id(b) <==> a.sig_id == b.sig_id && a.cert_id == b.cert_id,
{
    lemma_setup_ids(setup);
}

/// Law: reflecting a reduced point twice gives it back, and a point and its
/// reflection cancel.
pub proof fn law_reflection_is_an_involution(a: (int, int))
    requires
        reduced_point(Some(a)),
    ensures
        reflected(reflected(a)) == a,
        additive_inverses(a, reflected(a)),
{
    let p = field_p();
    lemma_reflected_value(a.1);
    lemma_reflected_value((p - a.1) % p);
}

/// `(p - y) mod p` for reduced `y`.
proof fn lemma_reflected_value(y: int)
    requires
        0 <= y < field_p(),
    ensures
        (field_p() - y) % field_p() == (if y == 0 {
            0
        } else {
            field_p() - y
        }),
        (y + (field_p() - y) % field_p()) % field_p() == 0,
{
    let p = field_p();
    vstd::arithmetic::div_mod::lemma_mod_self_0(p);
    if y > 0 {
        lemma_small_mod((p - y) as nat, p as nat);
    } else {
        lemma_small_mod(0, p as nat);
    }
}

/// `-v` modulo `p`.
spec fn neg(v: int) -> int {
    (field_p() - v) % field_p()
}

/// `-v` modulo `p` is `k p - v` for some `k`.
proof fn lemma_neg(v: int) -> (k: int)
    ensures
        neg(v) == field_p() * k - v,
{
    let p = field_p();
    vstd::arithmetic::div_mod::lemma_fundamental_div_mod(p - v, p);
    let q = (p - v) / p;
    assert(p * (1 - q) == p - p * q) by (nonlinear_arith);
    1 - q
}

/// Numbers that differ by a multiple of `p` have the same remainder.
proof fn lemma_same_remainder(x: int, y: int, k: int)
    requires
        x == field_p() * k + y,
    ensures
        x % field_p() == y % field_p(),
{
    lemma_mod_multiples_vanish(k, y, field_p());
}

/// The negation of a remainder is the negation.
proof fn lemma_neg_of_remainder(v: int)
    ensures
        neg(v % field_p()) == neg(v),
{
    let p = field_p();
    vstd::arithmetic::div_mod::lemma_fundamental_div_mod(v, p);
    lemma_same_remainder(p - v % p, p - v, v / p);
}

/// A product with a negated factor is the negated product.
proof fn lemma_neg_product(a: int, b: int)
    ensures
        (a * neg(b)) % field_p() == neg((a * b) % field_p()),
{
    let p = field_p();
    let k = lemma_neg(b);
    assert(a * neg(b) == p * (a * k - 1) + (p - a * b)) by (nonlinear_arith)
        requires
            neg(b) == p * k - b,
    ;
    lemma_same_remainder(a * neg(b), p - a * b, a * k - 1);
    lemma_neg_of_remainder(a * b);
}

/// The inverse of a negation is the negation of the inverse.
proof fn lemma_inverse_of_neg(a: int)
    ensures
        mod_inv(neg(a), field_p()) == neg(mod_inv(a % field_p(), field_p())),
{
    let p = field_p();
    let r = a % p;
    if exists|b: int| is_mod_inverse(r, b, p) {
        let b = mod_inv(r, p);
        assert(is_mod_inverse(r, b, p));
        lemma_neg_of_remainder(a);
        lemma_neg_inverts(r, b);
        lemma_mod_inverse_unique(neg(r), neg(b), p);
    } else {
        if exists|b: int| is_mod_inverse(neg(a), b, p) {
            let b = choose|b: int| is_mod_inverse(neg(a), b, p);
            lemma_neg_inverts(neg(a), b);
            let k = lemma_neg(a);
            let j = lemma_neg(neg(a));
            assert(neg(neg(a)) == p * (j - k) + a) by (nonlinear_arith)
                requires
                    neg(neg(a)) == p * j - neg(a),
                    neg(a) == p * k - a,
            ;
            lemma_same_remainder(neg(neg(a)), a, j - k);
            lemma_mod_bound(p - neg(a), p);
            lemma_small_mod(neg(neg(a)) as nat, p as nat);
            assert(neg(neg(a)) == r);
            assert(is_mod_inverse(r, neg(b), p));
        }
        vstd::arithmetic::div_mod::lemma_mod_self_0(p);
        assert(neg(0) == 0);
    }
}

/// The negation of an inverse inverts the negation.
proof fn lemma_neg_inverts(a: int, b: int)
    requires
        is_mod_inverse(a, b, field_p()),
    ensures
        is_mod_inverse(neg(a), neg(b), field_p()),
{
    let p = field_p();
    let k = lemma_neg(a);
    let j = lemma_neg(b);
    lemma_mod_bound(p - b, p);
    let m = p * k * j - k * b - j * a;
    assert(neg(a) * neg(b) == p * m + a * b) by (nonlinear_arith)
        requires
            neg(a) == p * k - a,
            neg(b) == p * j - b,
            m == p * k * j - k * b - j * a,
    ;
    lemma_same_remainder(neg(a) * neg(b), a * b, m);
}

/// The line with the negated slope through the reflected points meets the curve
/// in the reflected point.
proof fn lemma_chord_reflects(lambda: int, x1: int, y1: int, x2: int)
    ensures
        chord_output(neg(lambda), x1, neg(y1), x2) == reflected(chord_output(lambda, x1, y1, x2)),
{
    let p = field_p();
    let k = lemma_neg(lambda);
    let j = lemma_neg(y1);
    let n = neg(lambda);
    assert(n * n - x1 - x2 == p * (p * k * k - 2 * k * lambda) + (lambda * lambda - x1 - x2))
        by (nonlinear_arith)
        requires
            n == p * k - lambda,
    ;
    lemma_same_remainder(
        n * n - x1 - x2,
        lambda * lambda - x1 - x2,
        p * k * k - 2 * k * lambda,
    );
    let x3 = (lambda * lambda - x1 - x2) % p;
    let d = x1 - x3;
    let y3 = lambda * d - y1;
    assert(n * d - neg(y1) == p * (k * d - j - 1) + (p - y3)) by (nonlinear_arith)
        requires
            n == p * k - lambda,
            neg(y1) == p * j - y1,
            y3 == lambda * d - y1,
    ;
    lemma_same_remainder(n * d - neg(y1), p - y3, k * d - j - 1);
    lemma_neg_of_remainder(y3);
}

/// Law: the sum of two reflected points is the reflection of their sum, so the
/// x-coordinate of `R_1 + R_2` does not depend on the common sign of the two
/// hint points.
pub proof fn law_sum_of_reflections(a: (int, int), b: (int, int))
    requires
        reduced_point(Some(a)),
        reduced_point(Some(b)),
    ensures
        match group_add(Some(a), Some(b)) {
            None => group_add(Some(reflected(a)), Some(reflected(b))) is None,
            Some(c) => group_add(Some(reflected(a)), Some(reflected(b))) == Some(reflected(c)),
        },
{
    let p = field_p();
    let (ra, rb) = (reflected(a), reflected(b));
    law_reflection_is_an_involution(a);
    law_reflection_is_an_involution(b);
    if a == b {
        let k = lemma_neg(a.1);
        let twice = a.1 + a.1;
        assert(ra.1 + ra.1 == p * (2 * k - 1) + (p - twice)) by (nonlinear_arith)
            requires
                ra.1 == p * k - a.1,
                twice == a.1 + a.1,
        ;
        lemma_same_remainder(ra.1 + ra.1, p - twice, 2 * k - 1);
        lemma_inverse_of_neg(twice);
        lemma_neg_product(3 * (a.0 * a.0) - 3, mod_inv(twice % p, p));
        assert(tangent_slope(ra) == neg(tangent_slope(a)));
        lemma_chord_reflects(tangent_slope(a), a.0, a.1, a.0);
    } else {
        assert(ra != rb);
        let k = lemma_neg(a.1);
        let j = lemma_neg(b.1);
        assert(ra.1 + rb.1 == p * (k + j - 1) + (p - (a.1 + b.1))) by (nonlinear_arith)
            requires
                ra.1 == p * k - a.1,
                rb.1 == p * j - b.1,
        ;
        lemma_same_remainder(ra.1 + rb.1, p - (a.1 + b.1), k + j - 1);
        lemma_zero_remainders(a.1 + b.1);
        assert(additive_inverses(a, b) == additive_inverses(ra, rb));
        if !additive_inverses(a, b) {
            let inv = mod_inv((b.0 - a.0) % p, p);
            let dy = b.1 - a.1;
            let ndy = rb.1 - ra.1;
            assert(ndy * inv == p * ((j - k) * inv - 1) + (p - dy * inv)) by (nonlinear_arith)
                requires
                    ndy == (p * j - b.1) - (p * k - a.1),
                    dy == b.1 - a.1,
            ;
            lemma_same_remainder(ndy * inv, p - dy * inv, (j - k) * inv - 1);
            lemma_neg_of_remainder(dy * inv);
            assert(chord_slope(ra, rb) == neg(chord_slope(a, b)));
            lemma_chord_reflects(chord_slope(a, b), a.0, a.1, b.0);
        }
    }
}

/// The second hint point, turned to the sign of the first: reflected where the
/// two sign bits differ.
pub open spec fn oriented(r2: Option<(int, int)>, b1: M31, b2: M31) -> Option<(int, int)> {
    if b1 == b2 {
        r2
    } else {
        match r2 {
            None => None,
            Some(xy) => Some(reflected(xy)),
        }
    }
}

/// Two optional points have the same x-coordinate, or are both at infinity.
pub open spec fn same_x(a: Option<(int, int)>, b: Option<(int, int)>) -> bool {
    match (a, b) {
        (None, None) => true,
        (Some(p), Some(q)) => p.0 == q.0,
        _ => false,
    }
}

/// Law: whatever the two sign bits are, the sum of the signed hint points, the
/// second turned to the sign of the first, has the x-coordinate of the sum of
/// the hint points themselves.
pub proof fn law_oriented_sum_keeps_x(
    h1: Option<(int, int)>,
    h2: Option<(int, int)>,
    b1: M31,
    b2: M31,
)
    requires
        reduced_point(h1),
        reduced_point(h2),
        b1.0 <= 1,
        b2.0 <= 1,
    ensures
        same_x(
            group_add(signed_point(h1, b1), oriented(signed_point(h2, b2), b1, b2)),
            group_add(h1, h2),
        ),
{
    if let Some(q) = h2 {
        law_reflection_is_an_involution(q);
        if let Some(p) = h1 {
            law_sum_of_reflections(p, q);
        }
    }
}

/// A number is a multiple of `p` exactly where its negation is.
proof fn lemma_zero_remainders(v: int)
    ensures
        (field_p() - v) % field_p() == 0 <==> v % field_p() == 0,
{
    let p = field_p();
    lemma_sub_mod_noop(p, v, p);
    vstd::arithmetic::div_mod::lemma_mod_self_0(p);
    lemma_mod_bound(v, p);
    let r = v % p;
    assert((p - v) % p == (0 - r) % p);
    if r == 0 {
        lemma_small_mod(0, p as nat);
    } else {
        lemma_same_remainder(0 - r, p - r, -1);
        lemma_small_mod((p - r) as nat, p as nat);
    }
}

} // verus!
