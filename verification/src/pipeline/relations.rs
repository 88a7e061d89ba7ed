//! Relation instances of the proof, and which components share them.
use crate::fields::{sf_of_base, SecureField, M31};
use crate::range_checks::{dummy_lookup_elements, RangeCheckRelation};
use crate::transcript::{blake2s_felt, felt_of, Transcript, MAX_DRAW_BLOCKS};
use vstd::prelude::*;

verus! {

/// The random elements of one lookup relation instance.
#[derive(Clone, Copy, Debug, PartialEq, Eq, Structural)]
pub struct LookupRelation {
    pub z: SecureField,
    pub alpha: SecureField,
}

impl LookupRelation {
    pub open spec fn wf(self) -> bool {
        self.z.wf() && self.alpha.wf()
    }

    /// The fixed elements used for sizing.
    pub open spec fn is_dummy(self) -> bool {
        &&& self.z == SecureField { c0: M31(1), c1: M31(2), c2: M31(3), c3: M31(4) }
        &&& self.alpha == SecureField { c0: M31(4), c1: M31(3), c2: M31(2), c3: M31(1) }
    }

    pub fn dummy() -> (r: LookupRelation)
        ensures
            r.is_dummy(),
            r.wf(),
    {
        let (z, alpha) = dummy_lookup_elements();
        LookupRelation { z, alpha }
    }

    /// Draws a fresh instance from the transcript.
    pub fn draw(channel: &mut Transcript) -> (r: LookupRelation)
        requires
            old(channel).blocks < MAX_DRAW_BLOCKS,
        ensures
            r == drawn(old(channel).digest@, old(channel).blocks as int),
            r.wf(),
            final(channel).digest@ == old(channel).digest@,
            final(channel).blocks == old(channel).blocks + 1,
    {
        let (z, alpha) = channel.draw_pair();
        LookupRelation { z, alpha }
    }
}

/// The relation instance at a block of the stream drawn from a digest.
pub open spec fn drawn(digest: Seq<u8>, block: int) -> LookupRelation {
    LookupRelation {
        z: felt_of(blake2s_felt(digest, (2 * block) as nat)),
        alpha: felt_of(blake2s_felt(digest, (2 * block + 1) as nat)),
    }
}

/// A range-check instance as a lookup instance.
pub open spec fn as_lookup(relation: RangeCheckRelation) -> LookupRelation {
    LookupRelation { z: relation.z, alpha: relation.alpha }
}

/// The larger of two sizes.
pub open spec fn larger(a: usize, b: usize) -> usize {
    if a >= b {
        a
    } else {
        b
    }
}

/// Size of the power table that serves the ladder and the hinted products.
pub fn p256_gamma_max_padded_values(fake_glv: usize, hinted_mul: usize) -> (r: usize)
    ensures
        r == larger(fake_glv, hinted_mul),
{
    if fake_glv >= hinted_mul {
        fake_glv
    } else {
        hinted_mul
    }
}

/// Size of the power table of the shared challenge: it serves the final
/// addition and the public-key check.
pub fn remaining_gamma_max_padded_values(final_add: usize, public_key_curve: usize) -> (r: usize)
    ensures
        r == larger(final_add, public_key_curve),
{
    if final_add >= public_key_curve {
        final_add
    } else {
        public_key_curve
    }
}

/// A shared digest challenge and the size of its table of powers.
#[derive(Clone, Copy, Debug, PartialEq, Eq, Structural)]
pub struct GammaChallenge {
    pub gamma: SecureField,
    pub max_values: usize,
}

/// The point at which hinted products are checked.
#[derive(Clone, Copy, Debug, PartialEq, Eq, Structural)]
pub struct HintedMulChallenge {
    pub z: SecureField,
}

/// Relations of the scalar multiplication slice.
#[derive(Clone, Copy, Debug, PartialEq, Eq, Structural)]
pub struct ScalarModMulLookupRelations {
    pub scalar_limb: LookupRelation,
    pub range13: RangeCheckRelation,
    pub signed_carry: RangeCheckRelation,
}

/// Relations of the scalar setup component.
#[derive(Clone, Copy, Debug, PartialEq, Eq, Structural)]
pub struct ScalarSetupAirRelations {
    pub public_inputs: LookupRelation,
    pub output: LookupRelation,
    pub scalar_mod_mul: ScalarModMulLookupRelations,
    pub range13: RangeCheckRelation,
    pub range9: RangeCheckRelation,
    pub signed_carry: RangeCheckRelation,
    pub public_key_point: LookupRelation,
}

/// Relations of the public-key sub-graph.
#[derive(Clone, Copy, Debug, PartialEq, Eq, Structural)]
pub struct PublicKeyCurveSliceRelations {
    pub point: LookupRelation,
    pub mul_result: LookupRelation,
    pub range13: RangeCheckRelation,
    pub signed_carry: RangeCheckRelation,
    pub gamma_digest: LookupRelation,
    pub gamma_challenge: GammaChallenge,
}

/// Relations of the final addition sub-graph.
#[derive(Clone, Copy, Debug, PartialEq, Eq, Structural)]
pub struct FinalAddRelations {
    pub mul_result: LookupRelation,
    pub range13: RangeCheckRelation,
    pub signed_carry: RangeCheckRelation,
    pub hint: LookupRelation,
    pub output: LookupRelation,
    pub sign: LookupRelation,
    pub gamma_digest: LookupRelation,
    pub gamma_challenge: GammaChallenge,
}

/// Every relation instance of a proof.
#[derive(Clone, Copy, Debug, PartialEq, Eq, Structural)]
pub struct P256CurrentAirRelations {
    pub public_inputs: LookupRelation,
    pub scalar_setup_output: LookupRelation,
    pub cert_scalar_input: LookupRelation,
    pub fake_glv_scalar: LookupRelation,
    pub scalar_mod_mul: ScalarModMulLookupRelations,
    pub scalar_setup: ScalarSetupAirRelations,
    pub prepared_table: LookupRelation,
    /// Binds the table's base cells to the base point of the certificate.
    pub cert_base: LookupRelation,
    /// Ties the table's operands to canonical values per certificate.
    pub prepared_table_canonical: LookupRelation,
    pub fake_glv_projective_source: LookupRelation,
    pub fake_glv_chain_expansion: LookupRelation,
    pub fake_glv_chain_continuity: LookupRelation,
    pub direct_prepared_operand: LookupRelation,
    pub signed_selector_operand: LookupRelation,
    pub lsb_correction_operand: LookupRelation,
    pub prepared_point_source: LookupRelation,
    pub range7: RangeCheckRelation,
    pub ecdsa_result: LookupRelation,
    /// Forwards the signed hint from the prepared table to the final addition.
    pub final_check_hint: LookupRelation,
    pub public_key_on_curve: PublicKeyCurveSliceRelations,
    pub projective_rcb_air: ProjectiveRcbMulComponentRelations,
    pub hinted_signed_h: RangeCheckRelation,
    /// Reduction carries of the point formulas.
    pub hinted_signed_formula: RangeCheckRelation,
    pub hinted_challenge: HintedMulChallenge,
    /// The proven sign bit of each certificate.
    pub final_add_sign: LookupRelation,
    pub final_add: FinalAddRelations,
    /// Links the header rows of hinted products to the projective sources.
    pub ec_op_header: LookupRelation,
}

/// The relations are those drawn from the transcript at the given place.
pub open spec fn drawn_at(
    relations: P256CurrentAirRelations,
    digest: Seq<u8>,
    block: int,
    gamma_max_values: usize,
) -> bool {
    &&& relations.shares_instances()
    &&& relations.wf()
    &&& forall|i: int|
        0 <= i < 16 ==> (#[trigger] relations.independent_instances()[i]) == drawn(
            digest,
            block + i,
        )
    &&& forall|i: int|
        0 <= i < 15 ==> (#[trigger] relations.later_instances()[i]) == drawn(digest, block + 17 + i)
    &&& forall|i: int|
        0 <= i < 5 ==> (#[trigger] relations.last_instances()[i]) == drawn(digest, block + 33 + i)
    &&& relations.final_add.gamma_challenge.gamma == drawn(digest, block + 16).z
    &&& relations.final_add.gamma_challenge.max_values == gamma_max_values
    &&& relations.hinted_challenge.z == drawn(digest, block + 32).z
}

/// The relations drawn from the transcript at the given place.
pub open spec fn relations_at(
    digest: Seq<u8>,
    block: int,
    gamma_max_values: usize,
) -> P256CurrentAirRelations {
    choose|relations: P256CurrentAirRelations|
        drawn_at(relations, digest, block, gamma_max_values)
}

/// Only one set of relations can be drawn at a place.
pub proof fn lemma_relations_at(
    relations: P256CurrentAirRelations,
    digest: Seq<u8>,
    block: int,
    gamma_max_values: usize,
)
    requires
        drawn_at(relations, digest, block, gamma_max_values),
    ensures
        relations == relations_at(digest, block, gamma_max_values),
        relations.public_inputs.wf(),
        relations.ecdsa_result.wf(),
{
    let other = relations_at(digest, block, gamma_max_values);
    assert(drawn_at(other, digest, block, gamma_max_values));
    lemma_same_instances(relations, other);
    assert(relations.independent_instances()[2].wf());
    assert(relations.later_instances()[11].wf());
}

/// Relations with the same instances in the same places are the same.
pub proof fn lemma_same_instances(a: P256CurrentAirRelations, b: P256CurrentAirRelations)
    requires
        a.shares_instances(),
        b.shares_instances(),
        forall|i: int|
            0 <= i < 16 ==> (#[trigger] a.independent_instances()[i])
                == b.independent_instances()[i],
        forall|i: int| 0 <= i < 15 ==> (#[trigger] a.later_instances()[i]) == b.later_instances()[i],
        forall|i: int| 0 <= i < 5 ==> (#[trigger] a.last_instances()[i]) == b.last_instances()[i],
        a.final_add.gamma_challenge == b.final_add.gamma_challenge,
        a.hinted_challenge == b.hinted_challenge,
    ensures
        a == b,
{
    let (x, y) = (a.independent_instances(), b.independent_instances());
    assert(x[0] == y[0] && x[1] == y[1] && x[2] == y[2] && x[3] == y[3]);
    assert(x[4] == y[4] && x[5] == y[5] && x[6] == y[6] && x[7] == y[7]);
    assert(x[8] == y[8] && x[9] == y[9] && x[10] == y[10] && x[11] == y[11]);
    assert(x[12] == y[12] && x[13] == y[13] && x[14] == y[14] && x[15] == y[15]);
    let (x, y) = (a.later_instances(), b.later_instances());
    assert(x[0] == y[0] && x[1] == y[1] && x[2] == y[2] && x[3] == y[3]);
    assert(x[4] == y[4] && x[5] == y[5] && x[6] == y[6] && x[7] == y[7]);
    assert(x[8] == y[8] && x[9] == y[9] && x[10] == y[10] && x[11] == y[11]);
    assert(x[12] == y[12] && x[13] == y[13] && x[14] == y[14]);
    let (x, y) = (a.last_instances(), b.last_instances());
    assert(x[0] == y[0] && x[1] == y[1] && x[2] == y[2] && x[3] == y[3] && x[4] == y[4]);
}

/// Blocks that one proof's relations take from the transcript.
pub const RELATION_BLOCKS: usize = 38;

impl P256CurrentAirRelations {
    /// The instances that two components share are equal in both.
    pub open spec fn shares_instances(&self) -> bool {
        &&& self.scalar_setup.public_inputs == self.public_inputs
        &&& self.scalar_setup.output == self.scalar_setup_output
        &&& self.scalar_setup.scalar_mod_mul == self.scalar_mod_mul
        &&& self.scalar_setup.public_key_point == self.public_key_on_curve.point
        &&& self.public_key_on_curve.mul_result == self.projective_rcb_air.mul_result
        &&& self.final_add.mul_result == self.projective_rcb_air.mul_result
        &&& self.final_add.hint == self.final_check_hint
        &&& self.final_add.sign == self.final_add_sign
        &&& self.public_key_on_curve.gamma_digest == self.final_add.gamma_digest
        &&& self.public_key_on_curve.gamma_challenge == self.final_add.gamma_challenge
    }

    /// The instances that are drawn on their own, in the order of their draws.
    /// A challenge takes a block and keeps its first element.
    pub open spec fn independent_instances(&self) -> Seq<LookupRelation> {
        seq![
            as_lookup(self.projective_rcb_air.range13),
            self.projective_rcb_air.mul_result,
            self.public_inputs,
            self.scalar_setup_output,
            self.cert_scalar_input,
            self.fake_glv_scalar,
            self.scalar_mod_mul.scalar_limb,
            as_lookup(self.scalar_mod_mul.range13),
            as_lookup(self.scalar_mod_mul.signed_carry),
            self.public_key_on_curve.point,
            as_lookup(self.scalar_setup.range13),
            as_lookup(self.scalar_setup.range9),
            as_lookup(self.scalar_setup.signed_carry),
            self.final_check_hint,
            self.final_add_sign,
            self.final_add.gamma_digest,
        ]
    }

    /// The instances drawn after the shared digest challenge, in order.
    pub open spec fn later_instances(&self) -> Seq<LookupRelation> {
        seq![
            self.prepared_table,
            self.cert_base,
            self.prepared_table_canonical,
            self.fake_glv_projective_source,
            self.fake_glv_chain_expansion,
            self.fake_glv_chain_continuity,
            self.direct_prepared_operand,
            self.signed_selector_operand,
            self.lsb_correction_operand,
            self.prepared_point_source,
            as_lookup(self.range7),
            self.ecdsa_result,
            as_lookup(self.public_key_on_curve.range13),
            as_lookup(self.public_key_on_curve.signed_carry),
            as_lookup(self.hinted_signed_h),
        ]
    }

    /// The instances drawn after the product challenge, in order: the header
    /// link and the formula carries come last.
    pub open spec fn last_instances(&self) -> Seq<LookupRelation> {
        seq![
            as_lookup(self.final_add.range13),
            as_lookup(self.final_add.signed_carry),
            self.final_add.output,
            self.ec_op_header,
            as_lookup(self.hinted_signed_formula),
        ]
    }

    /// The elements of every instance are reduced.
    pub open spec fn wf(&self) -> bool {
        &&& forall|i: int| 0 <= i < 16 ==> (#[trigger] self.independent_instances()[i]).wf()
        &&& forall|i: int| 0 <= i < 15 ==> (#[trigger] self.later_instances()[i]).wf()
        &&& forall|i: int| 0 <= i < 5 ==> (#[trigger] self.last_instances()[i]).wf()
    }

    /// The fixed instances used for sizing, with a challenge of two.
    pub fn dummy(gamma_max_values: usize) -> (r: P256CurrentAirRelations)
        ensures
            r.shares_instances(),
            forall|i: int|
                0 <= i < 16 ==> (#[trigger] r.independent_instances()[i]).is_dummy(),
            forall|i: int| 0 <= i < 15 ==> (#[trigger] r.later_instances()[i]).is_dummy(),
            forall|i: int| 0 <= i < 5 ==> (#[trigger] r.last_instances()[i]).is_dummy(),
            r.final_add.gamma_challenge.gamma == sf_of_base(M31(2)),
            r.final_add.gamma_challenge.max_values == gamma_max_values,
            r.hinted_challenge.z == sf_of_base(M31(2)),
    {
        let lookup = LookupRelation::dummy();
        let range = RangeCheckRelation::dummy();
        let two: SecureField = SecureField::from_base(M31::from_u32_unchecked(2));
        let gamma_challenge = GammaChallenge { gamma: two, max_values: gamma_max_values };
        let projective_rcb_air = ProjectiveRcbMulComponentRelations::dummy();
        let scalar_mod_mul = ScalarModMulLookupRelations {
            scalar_limb: lookup,
            range13: range,
            signed_carry: range,
        };
        P256CurrentAirRelations {
            public_inputs: lookup,
            scalar_setup_output: lookup,
            cert_scalar_input: lookup,
            fake_glv_scalar: lookup,
            scalar_mod_mul,
            scalar_setup: ScalarSetupAirRelations {
                public_inputs: lookup,
                output: lookup,
                scalar_mod_mul,
                range13: range,
                range9: range,
                signed_carry: range,
                public_key_point: lookup,
            },
            prepared_table: lookup,
            cert_base: lookup,
            prepared_table_canonical: lookup,
            fake_glv_projective_source: lookup,
            fake_glv_chain_expansion: lookup,
            fake_glv_chain_continuity: lookup,
            direct_prepared_operand: lookup,
            signed_selector_operand: lookup,
            lsb_correction_operand: lookup,
            prepared_point_source: lookup,
            range7: range,
            ecdsa_result: lookup,
            final_check_hint: lookup,
            public_key_on_curve: PublicKeyCurveSliceRelations {
                point: lookup,
                mul_result: projective_rcb_air.mul_result,
                range13: range,
                signed_carry: range,
                gamma_digest: lookup,
                gamma_challenge,
            },
            projective_rcb_air,
            hinted_signed_h: range,
            hinted_signed_formula: range,
            hinted_challenge: HintedMulChallenge { z: two },
            final_add_sign: lookup,
            final_add: FinalAddRelations {
                mul_result: projective_rcb_air.mul_result,
                range13: range,
                signed_carry: range,
                hint: lookup,
                output: lookup,
                sign: lookup,
                gamma_digest: lookup,
                gamma_challenge,
            },
            ec_op_header: lookup,
        }
    }

    /// Draws every instance from the transcript, in a fixed order; an instance
    /// that several components share is drawn once.
    pub fn draw(channel: &mut Transcript, gamma_max_values: usize) -> (r: P256CurrentAirRelations)
        requires
            old(channel).blocks + RELATION_BLOCKS < MAX_DRAW_BLOCKS,
        ensures
            drawn_at(r, old(channel).digest@, old(channel).blocks as int, gamma_max_values),
            final(channel).digest@ == old(channel).digest@,
            final(channel).blocks == old(channel).blocks + RELATION_BLOCKS,
    {
        let d: Vec<LookupRelation> = draw_list(channel, RELATION_BLOCKS);
        let projective_rcb_air = ProjectiveRcbMulComponentRelations {
            range13: as_range(&d[0]),
            mul_result: d[1],
        };
        let public_inputs = d[2];
        let scalar_setup_output = d[3];
        let scalar_mod_mul = ScalarModMulLookupRelations {
            scalar_limb: d[6],
            range13: as_range(&d[7]),
            signed_carry: as_range(&d[8]),
        };
        let public_key_point = d[9];
        let final_check_hint = d[13];
        let final_add_sign = d[14];
        let gamma_digest = d[15];
        let gamma_challenge = GammaChallenge { gamma: d[16].z, max_values: gamma_max_values };
        P256CurrentAirRelations {
            public_inputs,
            scalar_setup_output,
            cert_scalar_input: d[4],
            fake_glv_scalar: d[5],
            scalar_mod_mul,
            scalar_setup: ScalarSetupAirRelations {
                public_inputs,
                output: scalar_setup_output,
                scalar_mod_mul,
                range13: as_range(&d[10]),
                range9: as_range(&d[11]),
                signed_carry: as_range(&d[12]),
                public_key_point,
            },
            prepared_table: d[17],
            cert_base: d[18],
            prepared_table_canonical: d[19],
            fake_glv_projective_source: d[20],
            fake_glv_chain_expansion: d[21],
            fake_glv_chain_continuity: d[22],
            direct_prepared_operand: d[23],
            signed_selector_operand: d[24],
            lsb_correction_operand: d[25],
            prepared_point_source: d[26],
            range7: as_range(&d[27]),
            ecdsa_result: d[28],
            final_check_hint,
            public_key_on_curve: PublicKeyCurveSliceRelations {
                point: public_key_point,
                mul_result: projective_rcb_air.mul_result,
                range13: as_range(&d[29]),
                signed_carry: as_range(&d[30]),
                gamma_digest,
                gamma_challenge,
            },
            projective_rcb_air,
            hinted_signed_h: as_range(&d[31]),
            hinted_challenge: HintedMulChallenge { z: d[32].z },
            final_add_sign,
            final_add: FinalAddRelations {
                mul_result: projective_rcb_air.mul_result,
                range13: as_range(&d[33]),
                signed_carry: as_range(&d[34]),
                hint: final_check_hint,
                output: d[35],
                sign: final_add_sign,
                gamma_digest,
                gamma_challenge,
            },
            ec_op_header: d[36],
            hinted_signed_formula: as_range(&d[37]),
        }
    }
}

/// Draws instances one after the other.
fn draw_list(channel: &mut Transcript, n: usize) -> (r: Vec<LookupRelation>)
    requires
        old(channel).blocks + n < MAX_DRAW_BLOCKS,
    ensures
        r@.len() == n,
        forall|i: int|
            0 <= i < n ==> #[trigger] r@[i] == drawn(
                old(channel).digest@,
                old(channel).blocks + i,
            ) && r@[i].wf(),
        final(channel).digest@ == old(channel).digest@,
        final(channel).blocks == old(channel).blocks + n,
{
    let ghost digest = channel.digest@;
    let ghost start = channel.blocks;
    let mut list: Vec<LookupRelation> = Vec::new();
    while list.len() < n
        invariant
            list@.len() <= n,
            start + n < MAX_DRAW_BLOCKS,
            channel.digest@ == digest,
            channel.blocks == start + list@.len(),
            forall|i: int|
                0 <= i < list@.len() ==> #[trigger] list@[i] == drawn(digest, start + i)
                    && list@[i].wf(),
        decreases n - list@.len(),
    {
        list.push(LookupRelation::draw(channel));
    }
    list
}

/// A lookup instance of one column as a range-check instance.
fn as_range(relation: &LookupRelation) -> (r: RangeCheckRelation)
    ensures
        as_lookup(r) == *relation,
{
    RangeCheckRelation { z: relation.z, alpha: relation.alpha }
}

/// Relations of the projective multiplication engine.
#[derive(Clone, Copy, Debug, PartialEq, Eq, Structural)]
pub struct ProjectiveRcbMulComponentRelations {
    pub range13: RangeCheckRelation,
    pub mul_result: LookupRelation,
}

impl ProjectiveRcbMulComponentRelations {
    pub fn dummy() -> (r: ProjectiveRcbMulComponentRelations)
        ensures
            r.range13.z == r.mul_result.z,
            r.range13.alpha == r.mul_result.alpha,
            r.range13.wf(),
            r.mul_result.is_dummy(),
    {
        ProjectiveRcbMulComponentRelations {
            range13: RangeCheckRelation::dummy(),
            mul_result: LookupRelation::dummy(),
        }
    }
}

} // verus!
