//! The component slots of a full signature proof and their status.
use vstd::prelude::*;

verus! {

/// Whether a component slot is proven.
#[derive(Clone, Copy, Debug, PartialEq, Eq, Structural)]
pub enum P256ProofComponentStatus {
    Implemented,
    Pending,
}

/// One component slot of a full signature proof.
#[derive(Clone, Copy, Debug, PartialEq, Eq)]
pub struct P256ProofComponentSlot {
    pub name: &'static str,
    pub status: P256ProofComponentStatus,
    pub note: &'static str,
}

/// The slot names, in pipeline order.
pub open spec fn slot_names() -> Seq<&'static str> {
    seq![
        "PublicEcdsaInput",
        "PublicKeyOnCurve",
        "SolinasReductionTraceRows",
        "ScalarSetup",
        "CertScalarInput",
        "FakeGlvScalarHint",
        "FakeGlvSelector",
        "PreparedPointUseCounts",
        "PreparedTablePoints",
        "PreparedTableEcTrace",
        "PreparedTableEcRows",
        "FakeGlvChainTrace",
        "FakeGlvPrimitiveEcTrace",
        "ProjectiveRcbEcTrace",
        "ProjectiveRcbAirRows",
        "FakeGlvEcChainRows",
        "FinalEcdsaCheck",
        "StarkProveVerify",
    ]
}

/// What each slot proves, in the order of the names.
pub open spec fn slot_notes() -> Seq<&'static str> {
    seq![
        "The monolithic current AIR proof now carries verifier-supplied public ECDSA tuples and consumes them from scalar setup through PublicEcdsaInstance LogUp balance.",
        "The monolithic current AIR proves y^2 + 3x = x^3 + b (mod p) for the public key via four projective-RCB mod-p muls plus a signed-carry curve-identity check, and binds the curve-checked (x, y) to the public input through PublicKeyPointRelation (provided by scalar setup, consumed by the curve check).",
        "The public-key-on-curve muls prove their Solinas raw-product / matrix-fold / reduction sub-traces in-AIR through the shared projective-RCB raw_product_chunk / folded_contribution / folded_digit families (public-key-namespaced schedule columns).",
        "Scalar setup consumes public ECDSA tuples, proves r/s canonical nonzero and z mod n reduction, and links s*u1=z_red and s*u2=r scalar-mod-mul rows inside the monolithic STARK proof.",
        "Certificate scalar input rows are proven from ScalarSetupOutput inside the monolithic STARK proof, including fixed-generator/public-key base binding and u2 nonzero enforcement.",
        "Fake-GLV scalar rows are proven for arbitrary nonzero certificate scalars by bounding s1/s2_abs/q to 128 bits, witnessing the sign-selected `selected_s1` (= s1 if s2_sign_bit == 1, else n − s1) with a borrow chain, and linking `scalar · s2_abs ≡ selected_s1 (mod n)` through per-cert ScalarModMul rows that consume external limb tuples (mul_id, role, limb_index, limb_value) yielded by the fake-GLV AIR. Closes the Garaga-style identity in-AIR.",
        "Selector reconstruction is proven from FakeGlvScalarRelation inside the monolithic STARK for ARBITRARY decompositions: each 4-bit selector splits into boolean-constrained 2-bit s1/s2 chunks (selector = s1c + 4*s2c) and two symmetric 13-bit carry chains bind the reconstructed s1 AND s2_abs to the relation's limbs (s2_lsb/s2_msb/sign witnessed free, not hard-coded), plus final-selector/init-base and inactive/padding zeroing; the separate selector lookup providers retain their proof slices. Real full-width signatures prove via from_inputs_with_arbitrary_fake_glv_hints.",
        "PreparedPoint provider rows now consume Range7 on their use_count column, and the Range7 multiplicity provider sits inside the monolithic STARK with its LogUp balance enforced against the provider consumers.",
        "Full table pinning is enforced in the monolithic STARK: cert_bind yields CertBaseRelation (base = G for cert_id=0, Q for cert_id=1) and the prepared-table EC-row provider consumes it on every P-cell, while PreparedTableCanonicalRelation ties P3=3P (cert0 to constant 3G), R, R3=3R, -R, -R3, 2P, 2R to a single canonical value per (sig,cert,role) with an in-AIR field negation. With output = lhs + rhs already proven, base[] is forced to {P,3P}±{R,3R} for P = cert.base.",
        "Prepared-table EC row shape is proven inside the monolithic STARK by prepared_table_projective_source's provider/consumer pair over PreparedTableEcRowRelation; the legacy standalone slice proof is now redundant under prove_current_air_monolithic.",
        "Prepared-table EC row shape is proven and linked into projective RCB source rows. EC arithmetic is constrained in-AIR (C5-2): the prepared-table projective source binds the Double/MixedAdd coordinate formulas (bind_double_formula/bind_mixed_add_formula) on the consumed silo muls — output = double(lhs) / lhs+rhs incl. projective->affine normalization — with self-contained Range13/signed-carry providers, so the table multiples {P,3P}±{R,3R}, 2P, 2R are forced to correct EC results rather than free witnesses.",
        "Native chain trace consumes PreparedPoint entries, runs MSB init, 62 selector steps, Table[16], LSB correction, and checks final accumulator equals R3.",
        "Compressed fake-GLV chain steps are expanded into primitive DOUBLE/DOUBLE/ADD rows and verified against native EC formulas.",
        "Prepared-table and fake-GLV primitive EC rows are replayed through homogeneous projective RCB double/mixed-add formulas and exported back to affine outputs.",
        "Projective RCB formula multiplications are expanded into AIR-facing Solinas multiplication/reduction rows, raw-product chunks, folded contributions, folded digits, and folded carry links.",
        "Fake-GLV chain schedule, continuity, operands, primitive expansion, prepared-point source, and projective-source links are proven; EC arithmetic is discharged by ProjectiveRcbAirRows.",
        "r_x is now bound IN-AIR to x(u1·G + u2·Q). The prepared table forwards the canonically-pinned signed hint R_i (role-R) on FinalCheckHintRelation; the final-add sub-graph (final_add_air.rs) consumes R_1, R_2 and proves S = R_1 + R_2 in affine coordinates via the shared projective-RCB mod-p mul engine. The distinct-x branch uses (lambda·dx ≡ dy, lambda² ≡ x3 + x1 + x2, dx·dx_inv ≡ 1) and the finite-doubling branch (Task 6) uses (lambda·(2·y1) ≡ 3·x1² − 3, lambda² ≡ x3 + 2·x1); branch selectors gate the constraints so the active branch is exactly one of {distinct, double, r1_only, r2_only, inverse}, with `inverse_add` (R_final = ∞) rejected by `active · inverse_add = 0`. Since R_i = -h_i for active certs (s2_sign_bit conventions: bit=1 ⇒ s2_signed = -s2_abs), x(R_1 + R_2) = x(u1·G + u2·Q). x3 = S.x is forwarded on FinalAddOutputRelation and consumed by the final check as r_x; r_check = r_x mod n and EcdsaResultRelation then complete x(u1·G + u2·Q) mod n = r.",
        "The current AIR path commits one global preprocessed tree, one global base tree, one global interaction tree, and verifies one monolithic STARK proof artifact.",
    ]
}

fn implemented(name: &'static str, note: &'static str) -> (r: P256ProofComponentSlot)
    ensures
        r.name == name,
        r.note == note,
        r.status == P256ProofComponentStatus::Implemented,
{
    P256ProofComponentSlot { name, status: P256ProofComponentStatus::Implemented, note }
}

/// All component slots, in pipeline order. Every one is implemented.
pub fn p256_proof_component_slots() -> (slots: Vec<P256ProofComponentSlot>)
    ensures
        slots@.len() == slot_names().len(),
        forall|i: int|
            0 <= i < slots@.len() ==> (#[trigger] slots@[i]).name == slot_names()[i]
                && slots@[i].note == slot_notes()[i] && slots@[i].status == P256ProofComponentStatus::Implemented,
{
    let mut slots: Vec<P256ProofComponentSlot> = Vec::new();
    slots.push(
        implemented(
            "PublicEcdsaInput",
            "The monolithic current AIR proof now carries verifier-supplied public ECDSA tuples and consumes them from scalar setup through PublicEcdsaInstance LogUp balance.",
        ),
    );
    slots.push(
        implemented(
            "PublicKeyOnCurve",
            "The monolithic current AIR proves y^2 + 3x = x^3 + b (mod p) for the public key via four projective-RCB mod-p muls plus a signed-carry curve-identity check, and binds the curve-checked (x, y) to the public input through PublicKeyPointRelation (provided by scalar setup, consumed by the curve check).",
        ),
    );
    slots.push(
        implemented(
            "SolinasReductionTraceRows",
            "The public-key-on-curve muls prove their Solinas raw-product / matrix-fold / reduction sub-traces in-AIR through the shared projective-RCB raw_product_chunk / folded_contribution / folded_digit families (public-key-namespaced schedule columns).",
        ),
    );
    slots.push(
        implemented(
            "ScalarSetup",
            "Scalar setup consumes public ECDSA tuples, proves r/s canonical nonzero and z mod n reduction, and links s*u1=z_red and s*u2=r scalar-mod-mul rows inside the monolithic STARK proof.",
        ),
    );
    slots.push(
        implemented(
            "CertScalarInput",
            "Certificate scalar input rows are proven from ScalarSetupOutput inside the monolithic STARK proof, including fixed-generator/public-key base binding and u2 nonzero enforcement.",
        ),
    );
    slots.push(
        implemented(
            "FakeGlvScalarHint",
            "Fake-GLV scalar rows are proven for arbitrary nonzero certificate scalars by bounding s1/s2_abs/q to 128 bits, witnessing the sign-selected `selected_s1` (= s1 if s2_sign_bit == 1, else n − s1) with a borrow chain, and linking `scalar · s2_abs ≡ selected_s1 (mod n)` through per-cert ScalarModMul rows that consume external limb tuples (mul_id, role, limb_index, limb_value) yielded by the fake-GLV AIR. Closes the Garaga-style identity in-AIR.",
        ),
    );
    slots.push(
        implemented(
            "FakeGlvSelector",
            "Selector reconstruction is proven from FakeGlvScalarRelation inside the monolithic STARK for ARBITRARY decompositions: each 4-bit selector splits into boolean-constrained 2-bit s1/s2 chunks (selector = s1c + 4*s2c) and two symmetric 13-bit carry chains bind the reconstructed s1 AND s2_abs to the relation's limbs (s2_lsb/s2_msb/sign witnessed free, not hard-coded), plus final-selector/init-base and inactive/padding zeroing; the separate selector lookup providers retain their proof slices. Real full-width signatures prove via from_inputs_with_arbitrary_fake_glv_hints.",
        ),
    );
    slots.push(
        implemented(
            "PreparedPointUseCounts",
            "PreparedPoint provider rows now consume Range7 on their use_count column, and the Range7 multiplicity provider sits inside the monolithic STARK with its LogUp balance enforced against the provider consumers.",
        ),
    );
    slots.push(
        implemented(
            "PreparedTablePoints",
            "Full table pinning is enforced in the monolithic STARK: cert_bind yields CertBaseRelation (base = G for cert_id=0, Q for cert_id=1) and the prepared-table EC-row provider consumes it on every P-cell, while PreparedTableCanonicalRelation ties P3=3P (cert0 to constant 3G), R, R3=3R, -R, -R3, 2P, 2R to a single canonical value per (sig,cert,role) with an in-AIR field negation. With output = lhs + rhs already proven, base[] is forced to {P,3P}±{R,3R} for P = cert.base.",
        ),
    );
    slots.push(
        implemented(
            "PreparedTableEcTrace",
            "Prepared-table EC row shape is proven inside the monolithic STARK by prepared_table_projective_source's provider/consumer pair over PreparedTableEcRowRelation; the legacy standalone slice proof is now redundant under prove_current_air_monolithic.",
        ),
    );
    slots.push(
        implemented(
            "PreparedTableEcRows",
            "Prepared-table EC row shape is proven and linked into projective RCB source rows. EC arithmetic is constrained in-AIR (C5-2): the prepared-table projective source binds the Double/MixedAdd coordinate formulas (bind_double_formula/bind_mixed_add_formula) on the consumed silo muls — output = double(lhs) / lhs+rhs incl. projective->affine normalization — with self-contained Range13/signed-carry providers, so the table multiples {P,3P}±{R,3R}, 2P, 2R are forced to correct EC results rather than free witnesses.",
        ),
    );
    slots.push(
        implemented(
            "FakeGlvChainTrace",
            "Native chain trace consumes PreparedPoint entries, runs MSB init, 62 selector steps, Table[16], LSB correction, and checks final accumulator equals R3.",
        ),
    );
    slots.push(
        implemented(
            "FakeGlvPrimitiveEcTrace",
            "Compressed fake-GLV chain steps are expanded into primitive DOUBLE/DOUBLE/ADD rows and verified against native EC formulas.",
        ),
    );
    slots.push(
        implemented(
            "ProjectiveRcbEcTrace",
            "Prepared-table and fake-GLV primitive EC rows are replayed through homogeneous projective RCB double/mixed-add formulas and exported back to affine outputs.",
        ),
    );
    slots.push(
        implemented(
            "ProjectiveRcbAirRows",
            "Projective RCB formula multiplications are expanded into AIR-facing Solinas multiplication/reduction rows, raw-product chunks, folded contributions, folded digits, and folded carry links.",
        ),
    );
    slots.push(
        implemented(
            "FakeGlvEcChainRows",
            "Fake-GLV chain schedule, continuity, operands, primitive expansion, prepared-point source, and projective-source links are proven; EC arithmetic is discharged by ProjectiveRcbAirRows.",
        ),
    );
    slots.push(
        implemented(
            "FinalEcdsaCheck",
            "r_x is now bound IN-AIR to x(u1·G + u2·Q). The prepared table forwards the canonically-pinned signed hint R_i (role-R) on FinalCheckHintRelation; the final-add sub-graph (final_add_air.rs) consumes R_1, R_2 and proves S = R_1 + R_2 in affine coordinates via the shared projective-RCB mod-p mul engine. The distinct-x branch uses (lambda·dx ≡ dy, lambda² ≡ x3 + x1 + x2, dx·dx_inv ≡ 1) and the finite-doubling branch (Task 6) uses (lambda·(2·y1) ≡ 3·x1² − 3, lambda² ≡ x3 + 2·x1); branch selectors gate the constraints so the active branch is exactly one of {distinct, double, r1_only, r2_only, inverse}, with `inverse_add` (R_final = ∞) rejected by `active · inverse_add = 0`. Since R_i = -h_i for active certs (s2_sign_bit conventions: bit=1 ⇒ s2_signed = -s2_abs), x(R_1 + R_2) = x(u1·G + u2·Q). x3 = S.x is forwarded on FinalAddOutputRelation and consumed by the final check as r_x; r_check = r_x mod n and EcdsaResultRelation then complete x(u1·G + u2·Q) mod n = r.",
        ),
    );
    slots.push(
        implemented(
            "StarkProveVerify",
            "The current AIR path commits one global preprocessed tree, one global base tree, one global interaction tree, and verifies one monolithic STARK proof artifact.",
        ),
    );
    slots
}

/// The names of the slots that are still pending.
pub fn pending_slots(slots: &Vec<P256ProofComponentSlot>) -> (names: Vec<&'static str>)
    ensures
        names@ == pending_names(slots@),
{
    let mut names: Vec<&'static str> = Vec::new();
    let mut i: usize = 0;
    proof {
        assert(slots@.take(0) =~= Seq::<P256ProofComponentSlot>::empty());
    }
    while i < slots.len()
        invariant
            i <= slots@.len(),
            names@ == pending_names(slots@.take(i as int)),
        decreases slots@.len() - i,
    {
        proof {
            assert(slots@.take(i + 1).drop_last() =~= slots@.take(i as int));
            assert(slots@.take(i + 1).last() == slots@[i as int]);
        }
        if slots[i].status == P256ProofComponentStatus::Pending {
            names.push(slots[i].name);
        }
        i = i + 1;
    }
    proof {
        assert(slots@.take(i as int) =~= slots@);
    }
    names
}

/// Names of the pending slots, in order.
pub open spec fn pending_names(slots: Seq<P256ProofComponentSlot>) -> Seq<&'static str>
    decreases slots.len(),
{
    if slots.len() == 0 {
        Seq::empty()
    } else {
        let front = pending_names(slots.drop_last());
        if slots.last().status == P256ProofComponentStatus::Pending {
            front.push(slots.last().name)
        } else {
            front
        }
    }
}

} // verus!
