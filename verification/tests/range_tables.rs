use stwo_p256::fields::{SecureField, M31};
use stwo_p256::range_checks::component::{
    add_range_check, BlindRangeCheckEval, RangeCheckEval, SignedCarryRangeEval,
};
use stwo_p256::range_checks::interaction::{
    sum_fractions, write_batched_logup_columns, LogupEntry, RangeCheckInteractionClaim,
};
use stwo_p256::range_checks::trace::{
    coset_order_to_circle_domain_order, RangeCheckClaim, SignedCarryRangeClaim,
};
use stwo_p256::range_checks::{
    batched_inverse_sum, decode_signed_carry, encode_signed_carry, range_check_dummy_column_id,
    range_check_value_column_id, signed_carry_active_column_id, signed_carry_value_column_id,
    RangeCheckRelation, M31_HALF, M31_MODULUS_I64, RANGE11_BITS, RANGE13_BITS, RANGE16_BITS,
    RANGE7_BITS, RANGE9_BITS,
};
use stwo_p256::transcript::Transcript;

fn dummy() -> RangeCheckRelation {
    RangeCheckRelation::dummy()
}

fn uses(values: &[u32]) -> Vec<M31> {
    values.iter().map(|v| M31(*v)).collect()
}

#[test]
fn distinct_log_sizes_get_distinct_preprocessed_column_ids() {
    let widths = [RANGE16_BITS, RANGE13_BITS, RANGE11_BITS, RANGE9_BITS, RANGE7_BITS];
    let ids = widths.map(range_check_value_column_id);
    for i in 0..ids.len() {
        for j in (i + 1)..ids.len() {
            assert_ne!(ids[i].id, ids[j].id);
        }
    }
}

#[test]
fn signed_carry_column_ids_namespace_by_equation_and_role() {
    assert_ne!(
        signed_carry_value_column_id("ec_double").id,
        signed_carry_value_column_id("ec_add").id,
    );
    assert_ne!(
        signed_carry_value_column_id("eq").id,
        signed_carry_active_column_id("eq").id,
    );
}

#[test]
fn column_ids_spell_family_and_size() {
    assert_eq!(range_check_value_column_id(13).id, "p256_range13_value");
    assert_eq!(range_check_value_column_id(7).id, "p256_range7_value");
    assert_eq!(range_check_dummy_column_id(16).id, "p256_range16_dummy");
    assert_eq!(signed_carry_value_column_id("eq").id, "p256_signed_carry_eq_value");
    assert_eq!(signed_carry_active_column_id("eq").id, "p256_signed_carry_eq_active");
}

#[test]
fn encode_signed_carry_round_trips() {
    for carry in [-M31_HALF, -1000, -1, 0, 1, 1000, M31_HALF] {
        assert_eq!(decode_signed_carry(encode_signed_carry(carry)), carry);
    }
}

#[test]
fn encode_signed_carry_uses_centered_representation() {
    assert_eq!(encode_signed_carry(0).0, 0);
    assert_eq!(encode_signed_carry(7).0, 7);
    assert_eq!(encode_signed_carry(-1).0, (M31_MODULUS_I64 - 1) as u32);
    assert_eq!(encode_signed_carry(-7).0, (M31_MODULUS_I64 - 7) as u32);
}

#[test]
fn range_check_eval_reports_its_log_size() {
    for bits in [RANGE13_BITS, RANGE11_BITS, RANGE9_BITS, RANGE7_BITS] {
        assert_eq!(RangeCheckEval::new(dummy(), bits).log_size(), bits);
    }
}

#[test]
fn evals_report_sizes_and_columns() {
    let eval = RangeCheckEval::new(dummy(), 13);
    assert_eq!(eval.max_constraint_log_degree_bound(), 14);
    assert_eq!(eval.value_column_id().id, "p256_range13_value");
    let blind = BlindRangeCheckEval::new(dummy(), 7);
    assert_eq!(blind.log_size(), 8);
    let carry = SignedCarryRangeEval::new(dummy(), 3, "test");
    assert_eq!(carry.log_size(), 3);
    assert_eq!(carry.value_column_id().id, "p256_signed_carry_test_value");
    assert_eq!(carry.active_column_id().id, "p256_signed_carry_test_active");
}

#[test]
fn range_check_preprocessed_column_has_2_pow_log_size_rows() {
    let column = RangeCheckClaim::new(5).gen_preprocessed_column();
    assert_eq!(column.domain.log_size(), 5);
    assert_eq!(column.domain.size(), 1 << 5);
}

#[test]
fn range_check_multiplicity_trace_has_2_pow_log_size_rows() {
    let trace = RangeCheckClaim::new(4).gen_multiplicity_trace(&uses(&[0, 1, 2]));
    assert_eq!(trace.domain.size(), 1 << 4);
}

#[test]
fn signed_carry_value_column_pads_to_power_of_two() {
    assert_eq!(
        SignedCarryRangeClaim::new(4, 3, "eq").gen_value_column().domain.size(),
        16,
    );
}

#[test]
fn signed_carry_active_column_pads_to_power_of_two() {
    assert_eq!(
        SignedCarryRangeClaim::new(4, 3, "eq").gen_active_column().domain.size(),
        16,
    );
}

#[test]
fn storage_order_of_eight_rows() {
    let listed = uses(&[0, 1, 2, 3, 4, 5, 6, 7]);
    let stored = coset_order_to_circle_domain_order(3, &listed);
    let mut sorted = stored.clone();
    sorted.sort_by_key(|v| v.0);
    assert_eq!(sorted, listed);
    assert_ne!(stored, listed);
    // The stored column is the bit-reversed circle-domain order.
    assert_eq!(stored, uses(&[0, 7, 4, 3, 2, 5, 6, 1]));
}

#[test]
fn value_and_multiplicity_cells_match() {
    let claim = RangeCheckClaim::new(3);
    let values = claim.gen_preprocessed_column();
    let multiplicity = claim.gen_multiplicity_trace(&uses(&[5, 5, 2]));
    for (value, count) in values.values.iter().zip(&multiplicity.values) {
        let expected = match value.0 {
            5 => 2,
            2 => 1,
            _ => 0,
        };
        assert_eq!(count.0, expected);
    }
}

#[test]
fn signed_carry_cells_match() {
    let claim = SignedCarryRangeClaim::new(3, 2, "eq");
    assert_eq!(claim.real_entries(), 5);
    let values = claim.gen_value_column();
    let active = claim.gen_active_column();
    let multiplicity = claim.gen_multiplicity_trace(&vec![-2, 1, 1, -2, -2]);
    let mut seen = 0;
    for row in 0..8 {
        if active.values[row].0 == 1 {
            seen += 1;
            let carry = decode_signed_carry(values.values[row]);
            let expected = match carry {
                -2 => 3,
                1 => 2,
                _ => 0,
            };
            assert_eq!(multiplicity.values[row].0, expected);
        } else {
            assert_eq!(values.values[row].0, 0);
            assert_eq!(multiplicity.values[row].0, 0);
        }
    }
    assert_eq!(seen, 5);
}

#[test]
fn range_table_balances_its_uses() {
    let claim = RangeCheckClaim::new(4);
    let used = uses(&[3, 9, 3, 15, 0]);
    let relation = dummy();
    let table = claim.gen_preprocessed_column();
    let (columns, provider) = RangeCheckInteractionClaim::gen_interaction_trace(
        &claim.gen_multiplicity_trace(&used),
        &table,
        &relation,
    );
    assert_eq!(columns.len(), 4);
    let denominators: Vec<SecureField> = used.iter().map(|v| relation.combine(*v)).collect();
    let consumed = batched_inverse_sum(&denominators);
    assert_ne!(consumed, SecureField::zero());
    assert_eq!(provider.claimed_sum.plus(consumed), SecureField::zero());

    // The columns run over the table in the order of its values, and close.
    let mut running = SecureField::zero();
    let sixteen = SecureField::from_base(M31(16));
    for value in 0..16u32 {
        let count = used.iter().filter(|u| u.0 == value).count() as u32;
        let inverse = batched_inverse_sum(&vec![relation.combine(M31(value))]);
        let term = SecureField::from_base(M31(count)).negated().times(inverse);
        // Sixteen times each shifted term, to stay clear of the division.
        running = running.plus(term.times(sixteen).minus(provider.claimed_sum));
        let row = table.values.iter().position(|v| v.0 == value).unwrap();
        let cell = SecureField {
            c0: columns[0].values[row],
            c1: columns[1].values[row],
            c2: columns[2].values[row],
            c3: columns[3].values[row],
        };
        assert_eq!(cell.times(sixteen), running);
    }
    assert_eq!(running, SecureField::zero());
}

#[test]
fn every_use_is_counted_once() {
    let claim = RangeCheckClaim::new(4);
    let column = claim.gen_multiplicity_trace(&uses(&[3, 9, 3, 15, 0]));
    assert_eq!(column.values.iter().map(|v| v.0).sum::<u32>(), 5);
    let shuffled = claim.gen_multiplicity_trace(&uses(&[15, 3, 0, 3, 9]));
    assert_eq!(column.values, shuffled.values);
}

#[test]
fn signed_carry_table_balances_its_uses() {
    let claim = SignedCarryRangeClaim::new(3, 3, "eq");
    let used: Vec<i64> = vec![-3, 0, 2, 2];
    let relation = dummy();
    let (_, provider) = RangeCheckInteractionClaim::gen_interaction_trace(
        &claim.gen_multiplicity_trace(&used),
        &claim.gen_value_column(),
        &relation,
    );
    let denominators: Vec<SecureField> =
        used.iter().map(|c| relation.combine(encode_signed_carry(*c))).collect();
    assert_eq!(
        provider.claimed_sum.plus(batched_inverse_sum(&denominators)),
        SecureField::zero()
    );
}

#[test]
fn blinding_keeps_the_claimed_sum() {
    let claim = RangeCheckClaim::new(3);
    let used = uses(&[1, 6, 6]);
    let relation = dummy();
    let (_, plain) = RangeCheckInteractionClaim::gen_interaction_trace(
        &claim.gen_multiplicity_trace(&used),
        &claim.gen_preprocessed_column(),
        &relation,
    );
    assert_eq!(claim.blind_log_size(), 4);
    for cells in [[0u32; 8], [1, 2, 3, 4, 5, 6, 7, 8], [99; 8]] {
        let (columns, blinded) = RangeCheckInteractionClaim::gen_blind_interaction_trace(
            &claim.gen_blind_multiplicity_trace(&used, &uses(&cells)),
            &claim.gen_blind_preprocessed_column(),
            &claim.gen_blind_dummy_column(),
            &relation,
        );
        assert_eq!(columns.len(), 4);
        assert_eq!(columns[3].values.len(), 16);
        assert_eq!(blinded.claimed_sum, plain.claimed_sum);
    }
}

#[test]
fn row_constraints_hold_on_real_and_padding_rows() {
    let eval = SignedCarryRangeEval::new(dummy(), 3, "eq");
    let zero = SecureField::zero();
    assert_eq!(eval.row_constraints(M31(1), M31(7)), (zero, zero));
    assert_eq!(eval.row_constraints(M31(0), M31(0)), (zero, zero));
    // A padding row with a multiplicity, and a flag that is no bit.
    assert_ne!(eval.row_constraints(M31(0), M31(1)).1, zero);
    assert_ne!(eval.row_constraints(M31(2), M31(0)).0, zero);
    assert_ne!(eval.row_constraints(M31(2_147_483_646), M31(0)).0, zero);
}

#[test]
fn consumer_fractions_are_gated() {
    let relation = dummy();
    let on = add_range_check(&relation, M31(1), M31(5));
    assert_eq!(on.numerator, SecureField::one());
    assert_eq!(on.denominator, relation.combine(M31(5)));
    let off = add_range_check(&relation, M31(0), M31(5));
    assert_eq!(off.numerator, SecureField::zero());
}

#[test]
fn batched_columns_fold_rows() {
    let relation = dummy();
    let entry = |v: u32| LogupEntry {
        numerators: vec![SecureField::one(), SecureField::zero()],
        denominators: vec![relation.combine(M31(v)), relation.combine(M31(v + 1))],
    };
    let entries = vec![entry(1), entry(5), entry(9)];
    let columns = write_batched_logup_columns(&entries, 2, 2);
    assert_eq!(columns.len(), 2);
    assert_eq!(columns[0].len(), 2);
    // Row 0 of the first column is the sum of the first two fractions.
    let both = sum_fractions(&vec![columns[0][0]]);
    let separate =
        batched_inverse_sum(&vec![relation.combine(M31(1)), relation.combine(M31(5))]);
    assert_eq!(both, separate);
    assert_eq!(columns[0][1].numerator, SecureField::zero());
    // A batch of any size takes what is there.
    let whole = write_batched_logup_columns(&entries, 2, usize::MAX);
    assert_eq!(whole.len(), 1);
    assert_eq!(whole[0], write_batched_logup_columns(&entries, 2, 3)[0]);
    assert!(write_batched_logup_columns(&Vec::new(), 2, 1).is_empty());
}

#[test]
fn transcripts_depend_on_what_they_absorb() {
    let mut a = Transcript::new();
    let mut b = Transcript::new();
    assert_eq!(a.digest, b.digest);
    RangeCheckClaim::new(7).mix_into(&mut a);
    assert_ne!(a.digest, b.digest);
    b.mix_u64(7);
    assert_eq!(a.digest, b.digest);
    let first = RangeCheckRelation::draw(&mut a);
    let second = RangeCheckRelation::draw(&mut a);
    assert_ne!(first.z, second.z);
    assert_eq!(RangeCheckRelation::draw(&mut b), first);
    SignedCarryRangeClaim::new(3, 2, "eq").mix_into(&mut a);
    b.mix_words(&vec![3, 2]);
    assert_eq!(a.digest, b.digest);
    a.mix_felt(SecureField::one());
    b.mix_felt(SecureField::zero());
    assert_ne!(a.digest, b.digest);
    let mut c = b;
    let mut d = b;
    c.mix_root(&[1u8; 32]);
    d.mix_root(&[2u8; 32]);
    assert_ne!(c.digest, d.digest);
    assert_ne!(c.digest, b.digest);
}

#[test]
fn channel_matches_the_proof_system() {
    let mut ours = Transcript::new();
    let mut theirs = stwo::core::channel::Blake2sChannel::default();
    ours.mix_u64(0x1234_5678_9abc_def0);
    stwo::core::channel::Channel::mix_u64(&mut theirs, 0x1234_5678_9abc_def0);
    assert_eq!(ours.digest, theirs.digest().0);
    for _ in 0..5 {
        let (a, b) = ours.draw_pair();
        let drawn = stwo::core::channel::Channel::draw_secure_felts(&mut theirs, 2);
        let a_theirs = drawn[0].to_m31_array();
        let b_theirs = drawn[1].to_m31_array();
        assert_eq!([a.c0.0, a.c1.0, a.c2.0, a.c3.0], a_theirs.map(|m| m.0));
        assert_eq!([b.c0.0, b.c1.0, b.c2.0, b.c3.0], b_theirs.map(|m| m.0));
    }
}

#[test]
fn field_arithmetic_matches_known_values() {
    let x = SecureField::from_u32_unchecked(1, 2, 3, 4);
    let y = SecureField::from_u32_unchecked(5, 6, 7, 8);
    assert_eq!(x.plus(y), SecureField::from_u32_unchecked(6, 8, 10, 12));
    assert_eq!(y.minus(x), SecureField::from_u32_unchecked(4, 4, 4, 4));
    assert_eq!(x.plus(x.negated()), SecureField::zero());
    // (1 + 2i) + (3 + 4i)u times (5 + 6i) + (7 + 8i)u with u^2 = 2 + i.
    let p = 2_147_483_647u32;
    assert_eq!(x.times(y), SecureField::from_u32_unchecked(p - 81, 109, p - 18, 60));
    assert_eq!(x.times(SecureField::one()), x);
    assert_eq!(M31(p - 1).plus(M31(2)), M31(1));
}
