//! The native check that public keys lie on the curve, with a multiplication
//! trace for every product it takes.
use crate::constants::{P256_B, P256_MODULUS};
use crate::curve::{curve_b, field_p, lemma_constants};
use crate::limbs::{
    lemma_limbs_bound, lemma_limbs_injective, lemma_limbs_push, limbs_value, P256M31BigInt,
};
use crate::fields::M31;
use crate::ecdsa::{lemma_curve_rhs, on_curve_equation, valid_public_key};
use crate::field_ops::{add_mod_witness, sub_mod_witness};
use crate::fp_solinas::{law_built_trace_verifies, FpSolinasError, FpSolinasMulTrace};
use crate::public_inputs::{PublicEcdsaInputClaim, PublicEcdsaInstance};
use crate::types::U256;
use crate::words::two_256;
use vstd::arithmetic::div_mod::lemma_small_mod;
use vstd::arithmetic::power::pow;
use vstd::prelude::*;

verus! {

/// `a` precedes `b` when limbs are compared from the most significant down.
pub open spec fn lex_less(a: Seq<M31>, b: Seq<M31>) -> bool
    decreases a.len(),
{
    if a.len() == 0 || b.len() == 0 {
        false
    } else if a.last().0 != b.last().0 {
        a.last().0 < b.last().0
    } else {
        lex_less(a.drop_last(), b.drop_last())
    }
}

/// On digit sequences the limb order is the order of the numbers.
pub proof fn lemma_lex_is_value_order(a: Seq<M31>, b: Seq<M31>)
    requires
        a.len() == b.len(),
        forall|i: int| 0 <= i < a.len() ==> (#[trigger] a[i]).0 < 8192,
        forall|i: int| 0 <= i < b.len() ==> (#[trigger] b[i]).0 < 8192,
    ensures
        lex_less(a, b) <==> limbs_value(a) < limbs_value(b),
    decreases a.len(),
{
    if a.len() > 0 {
        let (ad, bd) = (a.drop_last(), b.drop_last());
        assert(a =~= ad.push(a.last()));
        assert(b =~= bd.push(b.last()));
        lemma_limbs_push(ad, a.last());
        lemma_limbs_push(bd, b.last());
        lemma_limbs_bound(ad);
        lemma_limbs_bound(bd);
        let p = pow(8192, ad.len());
        let (x, y) = (a.last().0 as int, b.last().0 as int);
        if x == y {
            lemma_lex_is_value_order(ad, bd);
        } else if x < y {
            assert(x * p + p <= y * p) by (nonlinear_arith)
                requires
                    x + 1 <= y,
                    p >= 0,
            ;
        } else {
            assert(y * p + p <= x * p) by (nonlinear_arith)
                requires
                    y + 1 <= x,
                    p >= 0,
            ;
        }
    }
}

/// The base-`2^13` digits of the field modulus.
pub open spec fn modulus_digits() -> Seq<M31> {
    seq![
        M31(8191),
        M31(8191),
        M31(8191),
        M31(8191),
        M31(8191),
        M31(8191),
        M31(8191),
        M31(31),
        M31(0),
        M31(0),
        M31(0),
        M31(0),
        M31(0),
        M31(0),
        M31(1024),
        M31(0),
        M31(0),
        M31(8184),
        M31(8191),
        M31(511),
    ]
}

/// The limbs precede those of the field modulus.
pub open spec fn below_modulus(v: P256M31BigInt) -> bool {
    lex_less(v.limbs@, modulus_digits())
}

/// The digits of the modulus denote the modulus, and on digit sequences
/// `below_modulus` is the order of the numbers.
pub proof fn lemma_below_modulus(v: P256M31BigInt)
    ensures
        limbs_value(modulus_digits()) == field_p(),
        (forall|i: int| 0 <= i < 20 ==> (#[trigger] v.limbs@[i]).0 < 8192) ==> below_modulus(v) == (
        v.spec_value() < field_p()),
{
    let d = modulus_digits();
    lemma_digits_value(d);
    if forall|i: int| 0 <= i < 20 ==> (#[trigger] v.limbs@[i]).0 < 8192 {
        lemma_lex_is_value_order(v.limbs@, d);
    }
}

/// Value of twenty digits, written out by Horner's rule.
proof fn lemma_digits_value(d: Seq<M31>)
    requires
        d.len() == 20,
    ensures
        limbs_value(d) == d[0].0 + 8192 * (d[1].0 + 8192 * (d[2].0 + 8192 * (d[3].0 + 8192 * (
        d[4].0 + 8192 * (d[5].0 + 8192 * (d[6].0 + 8192 * (d[7].0 + 8192 * (d[8].0 + 8192 * (
        d[9].0 + 8192 * (d[10].0 + 8192 * (d[11].0 + 8192 * (d[12].0 + 8192 * (d[13].0 + 8192 * (
        d[14].0 + 8192 * (d[15].0 + 8192 * (d[16].0 + 8192 * (d[17].0 + 8192 * (d[18].0 + 8192
            * d[19].0)))))))))))))))))),
{
    lemma_tail(d, 0);
    lemma_tail(d, 1);
    lemma_tail(d, 2);
    lemma_tail(d, 3);
    lemma_tail(d, 4);
    lemma_tail(d, 5);
    lemma_tail(d, 6);
    lemma_tail(d, 7);
    lemma_tail(d, 8);
    lemma_tail(d, 9);
    lemma_tail(d, 10);
    lemma_tail(d, 11);
    lemma_tail(d, 12);
    lemma_tail(d, 13);
    lemma_tail(d, 14);
    lemma_tail(d, 15);
    lemma_tail(d, 16);
    lemma_tail(d, 17);
    lemma_tail(d, 18);
    lemma_tail(d, 19);
    assert(d.skip(0) =~= d);
    assert(d.skip(20) =~= Seq::<M31>::empty());
}

/// One step of Horner's rule.
proof fn lemma_tail(d: Seq<M31>, i: int)
    requires
        0 <= i < d.len(),
    ensures
        limbs_value(d.skip(i)) == d[i].0 + 8192 * limbs_value(d.skip(i + 1)),
{
    assert(d.skip(i).skip(1) =~= d.skip(i + 1));
}

/// Whether the limbs of `value`, compared from the top, precede those of the
/// field modulus.
pub fn is_less_than_modulus(value: &P256M31BigInt) -> (r: bool)
    ensures
        r == below_modulus(*value),
        (forall|i: int| 0 <= i < 20 ==> (#[trigger] value.limbs@[i]).0 < 8192) ==> r == (
        value.spec_value() < field_p()),
{
    proof {
        lemma_constants();
        lemma_below_modulus(*value);
    }
    let modulus: P256M31BigInt = P256M31BigInt::from_u256(&U256::from_le_u64s(&P256_MODULUS));
    let ghost (a, b) = (value.limbs@, modulus.limbs@);
    proof {
        lemma_limbs_injective(b, modulus_digits());
        assert(a.take(20) =~= a);
        assert(b.take(20) =~= b);
    }
    let mut i: usize = 20;
    while i > 0
        invariant
            i <= 20,
            a == value.limbs@,
            b == modulus.limbs@,
            a.len() == 20,
            b.len() == 20,
            lex_less(a, b) == lex_less(a.take(i as int), b.take(i as int)),
            below_modulus(*value) == lex_less(a, b),
            (forall|k: int| 0 <= k < 20 ==> (#[trigger] a[k]).0 < 8192) ==> lex_less(a, b) == (
            value.spec_value() < field_p()),
        decreases i,
    {
        let l: u32 = value.limbs[i - 1].0;
        let m: u32 = modulus.limbs[i - 1].0;
        proof {
            assert(a.take(i as int).last() == a[i - 1]);
            assert(b.take(i as int).last() == b[i - 1]);
            assert(a.take(i as int).drop_last() =~= a.take(i - 1));
            assert(b.take(i as int).drop_last() =~= b.take(i - 1));
        }
        if l < m {
            return true;
        }
        if l > m {
            return false;
        }
        i = i - 1;
    }
    false
}

/// Public keys that were found to lie on the curve.
#[derive(Clone, Debug)]
pub struct PublicKeyOnCurveClaim {
    pub rows: Vec<PublicKeyOnCurveRow>,
}

/// The curve check of one public key: the products taken, and the right-hand
/// side of the curve equation.
#[derive(Clone, Copy, Debug)]
pub struct PublicKeyOnCurveRow {
    pub sig_id: M31,
    pub x: P256M31BigInt,
    pub y: P256M31BigInt,
    pub y_squared: FpSolinasMulTrace,
    pub x_squared: FpSolinasMulTrace,
    pub x_cubed: FpSolinasMulTrace,
    pub three_x: FpSolinasMulTrace,
    pub rhs: P256M31BigInt,
}

/// Why a public key, or the row that checks it, is rejected.
#[derive(Clone, Copy, Debug, PartialEq, Eq)]
pub enum PublicKeyOnCurveError {
    FieldElementOutOfRange { field: &'static str },
    FpSolinas(FpSolinasError),
    TraceInputMismatch { sig_id: u32, trace: &'static str },
    RhsMismatch { sig_id: u32 },
    PointOffCurve { sig_id: u32 },
}

impl From<FpSolinasError> for PublicKeyOnCurveError {
    fn from(value: FpSolinasError) -> (r: Self) {
        PublicKeyOnCurveError::FpSolinas(value)
    }
}

impl vstd::std_specs::convert::FromSpecImpl<FpSolinasError> for PublicKeyOnCurveError {
    open spec fn obeys_from_spec() -> bool {
        true
    }

    open spec fn from_spec(value: FpSolinasError) -> Self {
        PublicKeyOnCurveError::FpSolinas(value)
    }
}

/// A coordinate must precede the field modulus.
pub fn require_field_element(field: &'static str, value: &P256M31BigInt) -> (r: Result<
    (),
    PublicKeyOnCurveError,
>)
    ensures
        r == (if below_modulus(*value) {
            Ok::<(), PublicKeyOnCurveError>(())
        } else {
            Err::<(), PublicKeyOnCurveError>(
                PublicKeyOnCurveError::FieldElementOutOfRange { field },
            )
        }),
{
    if is_less_than_modulus(value) {
        Ok(())
    } else {
        Err(PublicKeyOnCurveError::FieldElementOutOfRange { field })
    }
}

/// `x3 - 3x + b` on reduced operands: the right-hand side of the curve
/// equation from the results of two multiplications.
fn curve_rhs(x_cubed: &U256, three_x: &U256) -> (r: U256)
    ensures
        r.spec_value() == rhs_of(x_cubed.spec_value(), three_x.spec_value()),
{
    proof {
        lemma_constants();
    }
    let modulus: U256 = U256::from_le_u64s(&P256_MODULUS);
    let x3_minus_3x: U256 = sub_mod_witness(x_cubed, three_x, &modulus).result.to_u256();
    add_mod_witness(&x3_minus_3x, &U256::from_le_u64s(&P256_B), &modulus).result.to_u256()
}

/// `(x3 - 3x) + b` with a reduction after each operation.
pub open spec fn rhs_of(x_cubed: int, three_x: int) -> int {
    ((x_cubed - three_x) % field_p() + curve_b()) % field_p()
}

/// The integer that limbs stand for in 256 bits.
pub open spec fn word_value(v: P256M31BigInt) -> int {
    v.spec_value() % two_256()
}

/// Why no row can be built for a public statement, if there is a reason.
pub open spec fn build_error(public: PublicEcdsaInstance) -> Option<PublicKeyOnCurveError> {
    let x = word_value(public.pub_x);
    let y = word_value(public.pub_y);
    if !below_modulus(public.pub_x) {
        Some(PublicKeyOnCurveError::FieldElementOutOfRange { field: "pub_x" })
    } else if !below_modulus(public.pub_y) {
        Some(PublicKeyOnCurveError::FieldElementOutOfRange { field: "pub_y" })
    } else if !on_curve_equation(x, y) {
        Some(PublicKeyOnCurveError::PointOffCurve { sig_id: public.sig_id.0 })
    } else {
        None
    }
}

/// The row records the check of a public statement.
pub open spec fn built_from(row: PublicKeyOnCurveRow, public: PublicEcdsaInstance) -> bool {
    let x = word_value(public.pub_x);
    let y = word_value(public.pub_y);
    &&& row.sig_id == public.sig_id
    &&& row.x.limbs@ == public.pub_x.limbs@
    &&& row.y.limbs@ == public.pub_y.limbs@
    &&& row.y_squared.traces(y, y)
    &&& row.x_squared.traces(x, x)
    &&& row.x_cubed.traces((x * x) % field_p(), x)
    &&& row.three_x.traces(3, x)
    &&& row.rhs.canonical()
    &&& row.rhs.spec_value() == (x * x * x - 3 * x + curve_b()) % field_p()
}

/// What is wrong with a row, in the order in which it is checked.
pub open spec fn row_error(row: PublicKeyOnCurveRow) -> Option<PublicKeyOnCurveError> {
    let sig_id = row.sig_id.0;
    let rhs = rhs_of(word_value(row.x_cubed.result), word_value(row.three_x.result));
    if !below_modulus(row.x) {
        Some(PublicKeyOnCurveError::FieldElementOutOfRange { field: "pub_x" })
    } else if !below_modulus(row.y) {
        Some(PublicKeyOnCurveError::FieldElementOutOfRange { field: "pub_y" })
    } else if let Some(e) = row.y_squared.spec_error() {
        Some(PublicKeyOnCurveError::FpSolinas(e))
    } else if let Some(e) = row.x_squared.spec_error() {
        Some(PublicKeyOnCurveError::FpSolinas(e))
    } else if let Some(e) = row.x_cubed.spec_error() {
        Some(PublicKeyOnCurveError::FpSolinas(e))
    } else if let Some(e) = row.three_x.spec_error() {
        Some(PublicKeyOnCurveError::FpSolinas(e))
    } else if row.y_squared.lhs.limbs@ != row.y.limbs@ || row.y_squared.rhs.limbs@ != row.y.limbs@ {
        Some(PublicKeyOnCurveError::TraceInputMismatch { sig_id, trace: "y_squared" })
    } else if row.x_squared.lhs.limbs@ != row.x.limbs@ || row.x_squared.rhs.limbs@ != row.x.limbs@ {
        Some(PublicKeyOnCurveError::TraceInputMismatch { sig_id, trace: "x_squared" })
    } else if row.x_cubed.lhs.limbs@ != row.x_squared.result.limbs@ || row.x_cubed.rhs.limbs@
        != row.x.limbs@ {
        Some(PublicKeyOnCurveError::TraceInputMismatch { sig_id, trace: "x_cubed" })
    } else if !(row.three_x.lhs.canonical() && row.three_x.lhs.spec_value() == 3)
        || row.three_x.rhs.limbs@ != row.x.limbs@ {
        Some(PublicKeyOnCurveError::TraceInputMismatch { sig_id, trace: "three_x" })
    } else if word_value(row.rhs) != rhs {
        Some(PublicKeyOnCurveError::RhsMismatch { sig_id })
    } else if word_value(row.y_squared.result) != rhs {
        Some(PublicKeyOnCurveError::PointOffCurve { sig_id })
    } else {
        None
    }
}

/// The error of the first row that has one.
pub open spec fn first_row_error(rows: Seq<PublicKeyOnCurveRow>) -> Option<PublicKeyOnCurveError>
    decreases rows.len(),
{
    if rows.len() == 0 {
        None
    } else if let Some(e) = first_row_error(rows.drop_last()) {
        Some(e)
    } else {
        row_error(rows.last())
    }
}

/// The error of the first statement for which no row can be built.
pub open spec fn first_build_error(instances: Seq<PublicEcdsaInstance>) -> Option<
    PublicKeyOnCurveError,
>
    decreases instances.len(),
{
    if instances.len() == 0 {
        None
    } else if let Some(e) = first_build_error(instances.drop_last()) {
        Some(e)
    } else {
        build_error(instances.last())
    }
}

/// Why the row of a statement does not pass: limbs that are not digits do not
/// match the inputs of the traces.
pub open spec fn limb_error(public: PublicEcdsaInstance) -> Option<PublicKeyOnCurveError> {
    let sig_id = public.sig_id.0;
    if !public.pub_y.canonical() {
        Some(PublicKeyOnCurveError::TraceInputMismatch { sig_id, trace: "y_squared" })
    } else if !public.pub_x.canonical() {
        Some(PublicKeyOnCurveError::TraceInputMismatch { sig_id, trace: "x_squared" })
    } else {
        None
    }
}

/// The first statement whose limbs are not digits.
pub open spec fn first_limb_error(instances: Seq<PublicEcdsaInstance>) -> Option<
    PublicKeyOnCurveError,
>
    decreases instances.len(),
{
    if instances.len() == 0 {
        None
    } else if let Some(e) = first_limb_error(instances.drop_last()) {
        Some(e)
    } else {
        limb_error(instances.last())
    }
}

/// One row per statement, each the record of its check.
pub open spec fn built_rows(
    rows: Seq<PublicKeyOnCurveRow>,
    instances: Seq<PublicEcdsaInstance>,
) -> bool {
    rows.len() == instances.len() && forall|i: int|
        0 <= i < rows.len() ==> built_from(#[trigger] rows[i], instances[i])
}

/// An outcome that is an error exactly where there is a reason.
pub open spec fn outcome(error: Option<PublicKeyOnCurveError>) -> Result<
    (),
    PublicKeyOnCurveError,
> {
    match error {
        None => Ok(()),
        Some(e) => Err(e),
    }
}

impl PublicKeyOnCurveRow {
    /// Builds the row of a public statement.
    pub fn from_public_input(public: &PublicEcdsaInstance) -> (r: Result<
        PublicKeyOnCurveRow,
        PublicKeyOnCurveError,
    >)
        ensures
            match build_error(*public) {
                None => r matches Ok(row) && built_from(row, *public),
                Some(e) => r == Err::<PublicKeyOnCurveRow, PublicKeyOnCurveError>(e),
            },
    {
        match require_field_element("pub_x", &public.pub_x) {
            Ok(()) => {},
            Err(e) => {
                return Err(e);
            },
        }
        match require_field_element("pub_y", &public.pub_y) {
            Ok(()) => {},
            Err(e) => {
                return Err(e);
            },
        }
        let x: U256 = public.pub_x.to_u256();
        let y: U256 = public.pub_y.to_u256();
        let y_squared: FpSolinasMulTrace = match FpSolinasMulTrace::new(&y, &y) {
            Ok(t) => t,
            Err(e) => {
                return Err(PublicKeyOnCurveError::from(e));
            },
        };
        let x_squared: FpSolinasMulTrace = match FpSolinasMulTrace::new(&x, &x) {
            Ok(t) => t,
            Err(e) => {
                return Err(PublicKeyOnCurveError::from(e));
            },
        };
        let x_cubed: FpSolinasMulTrace = match FpSolinasMulTrace::new(
            &x_squared.result.to_u256(),
            &x,
        ) {
            Ok(t) => t,
            Err(e) => {
                return Err(PublicKeyOnCurveError::from(e));
            },
        };
        let three: U256 = U256::from_le_u64s(&[3u64, 0, 0, 0]);
        let three_x: FpSolinasMulTrace = match FpSolinasMulTrace::new(&three, &x) {
            Ok(t) => t,
            Err(e) => {
                return Err(PublicKeyOnCurveError::from(e));
            },
        };
        let rhs: U256 = curve_rhs(&x_cubed.result.to_u256(), &three_x.result.to_u256());
        proof {
            lemma_curve_rhs(x.spec_value());
        }
        if y_squared.result.to_u256() != rhs {
            return Err(PublicKeyOnCurveError::PointOffCurve { sig_id: public.sig_id.0 });
        }
        Ok(
            PublicKeyOnCurveRow {
                sig_id: public.sig_id,
                x: public.pub_x,
                y: public.pub_y,
                y_squared,
                x_squared,
                x_cubed,
                three_x,
                rhs: P256M31BigInt::from_u256(&rhs),
            },
        )
    }

    /// Checks the row: field elements, the four traces, their inputs, the
    /// right-hand side, and the curve equation, in this order.
    pub fn verify(&self) -> (r: Result<(), PublicKeyOnCurveError>)
        ensures
            r == outcome(row_error(*self)),
    {
        match require_field_element("pub_x", &self.x) {
            Ok(()) => {},
            Err(e) => {
                return Err(e);
            },
        }
        match require_field_element("pub_y", &self.y) {
            Ok(()) => {},
            Err(e) => {
                return Err(e);
            },
        }
        match self.y_squared.verify() {
            Ok(()) => {},
            Err(e) => {
                return Err(PublicKeyOnCurveError::from(e));
            },
        }
        match self.x_squared.verify() {
            Ok(()) => {},
            Err(e) => {
                return Err(PublicKeyOnCurveError::from(e));
            },
        }
        match self.x_cubed.verify() {
            Ok(()) => {},
            Err(e) => {
                return Err(PublicKeyOnCurveError::from(e));
            },
        }
        match self.three_x.verify() {
            Ok(()) => {},
            Err(e) => {
                return Err(PublicKeyOnCurveError::from(e));
            },
        }
        let sig_id: u32 = self.sig_id.0;
        if self.y_squared.lhs != self.y || self.y_squared.rhs != self.y {
            return Err(PublicKeyOnCurveError::TraceInputMismatch { sig_id, trace: "y_squared" });
        }
        if self.x_squared.lhs != self.x || self.x_squared.rhs != self.x {
            return Err(PublicKeyOnCurveError::TraceInputMismatch { sig_id, trace: "x_squared" });
        }
        if self.x_cubed.lhs != self.x_squared.result || self.x_cubed.rhs != self.x {
            return Err(PublicKeyOnCurveError::TraceInputMismatch { sig_id, trace: "x_cubed" });
        }
        let three: P256M31BigInt = P256M31BigInt::from_u256(&U256::from_le_u64s(&[3u64, 0, 0, 0]));
        proof {
            if self.three_x.lhs.canonical() && self.three_x.lhs.spec_value() == 3 {
                lemma_limbs_injective(self.three_x.lhs.limbs@, three.limbs@);
            }
        }
        if self.three_x.lhs != three || self.three_x.rhs != self.x {
            return Err(PublicKeyOnCurveError::TraceInputMismatch { sig_id, trace: "three_x" });
        }
        let rhs: U256 = curve_rhs(&self.x_cubed.result.to_u256(), &self.three_x.result.to_u256());
        if self.rhs.to_u256() != rhs {
            return Err(PublicKeyOnCurveError::RhsMismatch { sig_id });
        }
        if self.y_squared.result.to_u256() != rhs {
            return Err(PublicKeyOnCurveError::PointOffCurve { sig_id });
        }
        Ok(())
    }
}

impl PublicKeyOnCurveClaim {
    /// Builds and checks a row for every public statement. The error is that
    /// of the first statement without a row, or else of the first row that
    /// does not pass.
    pub fn from_public_inputs(public_inputs: &PublicEcdsaInputClaim) -> (r: Result<
        PublicKeyOnCurveClaim,
        PublicKeyOnCurveError,
    >)
        ensures
            match first_build_error(public_inputs.instances@) {
                Some(e) => r == Err::<PublicKeyOnCurveClaim, PublicKeyOnCurveError>(e),
                None => match first_limb_error(public_inputs.instances@) {
                    Some(e) => r == Err::<PublicKeyOnCurveClaim, PublicKeyOnCurveError>(e),
                    None => r matches Ok(claim) && built_rows(
                        claim.rows@,
                        public_inputs.instances@,
                    ),
                },
            },
    {
        let mut rows: Vec<PublicKeyOnCurveRow> = Vec::new();
        let ghost all = public_inputs.instances@;
        proof {
            assert(all.take(0) =~= Seq::<PublicEcdsaInstance>::empty());
        }
        let mut i: usize = 0;
        while i < public_inputs.instances.len()
            invariant
                i <= all.len(),
                all == public_inputs.instances@,
                rows@.len() == i,
                first_build_error(all.take(i as int)) is None,
                forall|k: int| 0 <= k < i ==> built_from(#[trigger] rows@[k], all[k]),
            decreases all.len() - i,
        {
            proof {
                assert(all.take(i + 1).drop_last() =~= all.take(i as int));
                assert(all.take(i + 1).last() == all[i as int]);
            }
            match PublicKeyOnCurveRow::from_public_input(&public_inputs.instances[i]) {
                Ok(row) => {
                    rows.push(row);
                },
                Err(e) => {
                    proof {
                        lemma_build_error_stays(all, i + 1);
                    }
                    return Err(e);
                },
            }
            i = i + 1;
        }
        proof {
            assert(all.take(i as int) =~= all);
        }
        let claim = PublicKeyOnCurveClaim { rows };
        proof {
            lemma_built_rows_error(claim.rows@, all);
        }
        match claim.verify() {
            Ok(()) => Ok(claim),
            Err(e) => Err(e),
        }
    }

    /// Checks every row; the error is that of the first bad row.
    pub fn verify(&self) -> (r: Result<(), PublicKeyOnCurveError>)
        ensures
            r == outcome(first_row_error(self.rows@)),
    {
        let ghost all = self.rows@;
        proof {
            assert(all.take(0) =~= Seq::<PublicKeyOnCurveRow>::empty());
        }
        let mut i: usize = 0;
        while i < self.rows.len()
            invariant
                i <= all.len(),
                all == self.rows@,
                first_row_error(all.take(i as int)) is None,
            decreases all.len() - i,
        {
            proof {
                assert(all.take(i + 1).drop_last() =~= all.take(i as int));
                assert(all.take(i + 1).last() == all[i as int]);
            }
            match self.rows[i].verify() {
                Ok(()) => {},
                Err(e) => {
                    proof {
                        lemma_row_error_stays(all, i + 1);
                    }
                    return Err(e);
                },
            }
            i = i + 1;
        }
        proof {
            assert(all.take(i as int) =~= all);
        }
        Ok(())
    }
}

/// The first error of a prefix is the first error of the whole.
proof fn lemma_row_error_stays(rows: Seq<PublicKeyOnCurveRow>, n: int)
    requires
        0 <= n <= rows.len(),
        first_row_error(rows.take(n)) is Some,
    ensures
        first_row_error(rows) == first_row_error(rows.take(n)),
    decreases rows.len() - n,
{
    if n == rows.len() {
        assert(rows.take(n) =~= rows);
    } else {
        assert(rows.take(n + 1).drop_last() =~= rows.take(n));
        lemma_row_error_stays(rows, n + 1);
    }
}

/// The first error of a prefix is the first error of the whole.
proof fn lemma_build_error_stays(instances: Seq<PublicEcdsaInstance>, n: int)
    requires
        0 <= n <= instances.len(),
        first_build_error(instances.take(n)) is Some,
    ensures
        first_build_error(instances) == first_build_error(instances.take(n)),
    decreases instances.len() - n,
{
    if n == instances.len() {
        assert(instances.take(n) =~= instances);
    } else {
        assert(instances.take(n + 1).drop_last() =~= instances.take(n));
        lemma_build_error_stays(instances, n + 1);
    }
}

/// Law: a row that was built passes its own check, unless limbs of the
/// statement are not digits.
pub proof fn law_built_row_error(row: PublicKeyOnCurveRow, public: PublicEcdsaInstance)
    requires
        build_error(public) is None,
        built_from(row, public),
    ensures
        row_error(row) == limb_error(public),
{
    let x = word_value(public.pub_x);
    let y = word_value(public.pub_y);
    let p = field_p();
    law_built_trace_verifies(row.y_squared, y, y);
    law_built_trace_verifies(row.x_squared, x, x);
    law_built_trace_verifies(row.x_cubed, (x * x) % p, x);
    law_built_trace_verifies(row.three_x, 3, x);
    if public.pub_x.canonical() && public.pub_y.canonical() {
        public.pub_x.lemma_canonical_range();
        lemma_small_mod(public.pub_x.spec_value() as nat, two_256() as nat);
        lemma_limbs_injective(row.x_squared.lhs.limbs@, row.x.limbs@);
        lemma_limbs_injective(row.x_squared.rhs.limbs@, row.x.limbs@);
        lemma_limbs_injective(row.x_cubed.lhs.limbs@, row.x_squared.result.limbs@);
        lemma_limbs_injective(row.x_cubed.rhs.limbs@, row.x.limbs@);
        lemma_limbs_injective(row.three_x.rhs.limbs@, row.x.limbs@);
        lemma_curve_rhs(x);
        row.x_cubed.result.lemma_canonical_range();
        row.three_x.result.lemma_canonical_range();
        row.y_squared.result.lemma_canonical_range();
        row.rhs.lemma_canonical_range();
        lemma_small_mod(row.x_cubed.result.spec_value() as nat, two_256() as nat);
        lemma_small_mod(row.three_x.result.spec_value() as nat, two_256() as nat);
        lemma_small_mod(row.y_squared.result.spec_value() as nat, two_256() as nat);
        lemma_small_mod(row.rhs.spec_value() as nat, two_256() as nat);
    }
    if public.pub_y.canonical() {
        public.pub_y.lemma_canonical_range();
        lemma_small_mod(public.pub_y.spec_value() as nat, two_256() as nat);
        lemma_limbs_injective(row.y_squared.lhs.limbs@, row.y.limbs@);
        lemma_limbs_injective(row.y_squared.rhs.limbs@, row.y.limbs@);
    } else {
        assert(row.y_squared.lhs.limbs@ != row.y.limbs@);
    }
    if !public.pub_x.canonical() {
        assert(row.x_squared.lhs.limbs@ != row.x.limbs@);
    }
}

/// The first bad row is that of the first statement with bad limbs.
proof fn lemma_built_rows_error(
    rows: Seq<PublicKeyOnCurveRow>,
    instances: Seq<PublicEcdsaInstance>,
)
    requires
        first_build_error(instances) is None,
        built_rows(rows, instances),
    ensures
        first_row_error(rows) == first_limb_error(instances),
    decreases rows.len(),
{
    if rows.len() > 0 {
        assert(built_rows(rows.drop_last(), instances.drop_last())) by {
            assert forall|i: int| 0 <= i < rows.len() - 1 implies built_from(
                #[trigger] rows.drop_last()[i],
                instances.drop_last()[i],
            ) by {
                assert(rows.drop_last()[i] == rows[i]);
            }
        }
        lemma_built_rows_error(rows.drop_last(), instances.drop_last());
        assert(rows.last() == rows[rows.len() - 1]);
        law_built_row_error(rows.last(), instances.last());
    }
}

/// Law: a row that passes has limbs in range and a point of the curve.
pub proof fn law_verified_row_is_on_curve(row: PublicKeyOnCurveRow)
    requires
        row_error(row) is None,
        row.x.canonical(),
        row.y.canonical(),
    ensures
        valid_public_key((row.x.spec_value(), row.y.spec_value())),
{
    let x = row.x.spec_value();
    let y = row.y.spec_value();
    let p = field_p();
    lemma_below_modulus(row.x);
    lemma_below_modulus(row.y);
    row.x.lemma_canonical_range();
    row.y.lemma_canonical_range();
    lemma_small_mod(x as nat, two_256() as nat);
    lemma_small_mod(y as nat, two_256() as nat);
    lemma_small_mod(3, two_256() as nat);
    row.x_squared.result.lemma_canonical_range();
    row.x_cubed.result.lemma_canonical_range();
    row.three_x.result.lemma_canonical_range();
    row.y_squared.result.lemma_canonical_range();
    lemma_small_mod(row.x_squared.result.spec_value() as nat, two_256() as nat);
    lemma_small_mod(row.x_cubed.result.spec_value() as nat, two_256() as nat);
    lemma_small_mod(row.three_x.result.spec_value() as nat, two_256() as nat);
    lemma_small_mod(row.y_squared.result.spec_value() as nat, two_256() as nat);
    lemma_curve_rhs(x);
}

/// Law: on statements whose limbs are digits, the claim is granted exactly
/// where every public key is a point of the curve.
pub proof fn law_claim_iff_keys_on_curve(instances: Seq<PublicEcdsaInstance>)
    requires
        forall|i: int|
            0 <= i < instances.len() ==> (#[trigger] instances[i]).pub_x.canonical()
                && instances[i].pub_y.canonical(),
    ensures
        first_limb_error(instances) is None,
        first_build_error(instances) is None <==> forall|i: int|
            0 <= i < instances.len() ==> valid_public_key(
                (
                    (#[trigger] instances[i]).pub_x.spec_value(),
                    instances[i].pub_y.spec_value(),
                ),
            ),
    decreases instances.len(),
{
    if instances.len() > 0 {
        let front = instances.drop_last();
        let last = instances.last();
        assert forall|i: int| 0 <= i < front.len() implies (#[trigger] front[i]).pub_x.canonical()
            && front[i].pub_y.canonical() by {
            assert(front[i] == instances[i]);
        }
        law_claim_iff_keys_on_curve(front);
        assert(last == instances[instances.len() - 1]);
        last.pub_x.lemma_canonical_range();
        last.pub_y.lemma_canonical_range();
        lemma_small_mod(last.pub_x.spec_value() as nat, two_256() as nat);
        lemma_small_mod(last.pub_y.spec_value() as nat, two_256() as nat);
        lemma_below_modulus(last.pub_x);
        lemma_below_modulus(last.pub_y);
        if first_build_error(instances) is None {
            assert forall|i: int| 0 <= i < instances.len() implies valid_public_key(
                (
                    (#[trigger] instances[i]).pub_x.spec_value(),
                    instances[i].pub_y.spec_value(),
                ),
            ) by {
                if i < front.len() {
                    assert(front[i] == instances[i]);
                }
            }
        }
        if forall|i: int|
            0 <= i < instances.len() ==> valid_public_key(
                (
                    (#[trigger] instances[i]).pub_x.spec_value(),
                    instances[i].pub_y.spec_value(),
                ),
            ) {
            assert forall|i: int| 0 <= i < front.len() implies valid_public_key(
                ((#[trigger] front[i]).pub_x.spec_value(), front[i].pub_y.spec_value()),
            ) by {
                assert(front[i] == instances[i]);
            }
        }
    }
}

} // verus!
