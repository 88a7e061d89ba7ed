//! LogUp fractions of the range-check providers and their claimed sums.
use crate::fields::{
    law_negation_of_sum, law_product_associates, law_product_commutes, law_product_distributes,
    law_product_identity, law_product_negation, law_product_zero, law_sum_associates,
    law_sum_commutes, law_sum_identity, law_sum_of_concat, law_sum_of_rearranged,
    law_sum_of_update, law_sum_of_zeros, lemma_inverse_unique, lemma_m31_of, lemma_results_reduced,
    lemma_sum_of_reduced, m31_of, qm31_batch_inverse, sf_difference, sf_inverse, sf_is_inverse,
    sf_negation, sf_of, sf_of_base, sf_one, sf_product, sf_sum, sf_sum_of, sf_zero, SecureField,
    M31,
};
use crate::range_checks::trace::{
    blind_multiplicities, blind_selectors, carry_count, carry_multiplicities, carry_values,
    column_eval, indexable, law_storage_order_is_a_permutation, lemma_circle_position,
    lemma_count_step, range_multiplicities, range_values, row_position, stored_row, two_to_the,
    use_count, ColumnEval, SignedCarryRangeClaim,
};
use crate::range_checks::{encoded_carry, RangeCheckRelation, M31_HALF};
use crate::transcript::{blake2s_mix_felts, coordinates, Transcript};
use vstd::arithmetic::power2::{
    lemma2_to64, lemma_pow2_strictly_increases, lemma_pow2_unfold, pow2,
};
use vstd::prelude::*;

verus! {

/// One term `numerator / denominator` of a LogUp sum.
#[derive(Clone, Copy, Debug, PartialEq, Eq, Structural)]
pub struct LogupFraction {
    pub numerator: SecureField,
    pub denominator: SecureField,
}

impl LogupFraction {
    pub open spec fn wf(self) -> bool {
        self.numerator.wf() && self.denominator.wf()
    }

    /// The value `numerator / denominator`.
    pub open spec fn spec_value(self) -> SecureField {
        sf_product(self.numerator, sf_inverse(self.denominator))
    }
}

/// `(n1, d1) + (n2, d2) = (n1 d2 + n2 d1, d1 d2)`.
pub open spec fn fraction_sum(x: LogupFraction, y: LogupFraction) -> LogupFraction {
    LogupFraction {
        numerator: sf_sum(
            sf_product(x.numerator, y.denominator),
            sf_product(y.numerator, x.denominator),
        ),
        denominator: sf_product(x.denominator, y.denominator),
    }
}

/// Values of a list of fractions.
pub open spec fn fraction_values(s: Seq<LogupFraction>) -> Seq<SecureField> {
    s.map_values(|f: LogupFraction| f.spec_value())
}

/// Claim of a provider: the sum of its fractions.
#[derive(Clone, Copy, Debug, PartialEq, Eq, Structural)]
pub struct RangeCheckInteractionClaim {
    pub claimed_sum: SecureField,
}

/// Numerator that a provider emits for a multiplicity.
pub open spec fn provider_numerator(multiplicity: M31) -> SecureField {
    sf_negation(sf_of_base(multiplicity))
}

/// Numerator that a blinded provider emits: `-(1 - is_dummy) * multiplicity`.
pub open spec fn blind_numerator(is_dummy: M31, multiplicity: M31) -> SecureField {
    sf_negation(
        sf_product(sf_difference(sf_one(), sf_of_base(is_dummy)), sf_of_base(multiplicity)),
    )
}

/// Fractions of a provider, row by row.
pub open spec fn provider_fractions(
    multiplicities: Seq<M31>,
    values: Seq<M31>,
    relation: RangeCheckRelation,
) -> Seq<LogupFraction> {
    Seq::new(
        multiplicities.len(),
        |i: int|
            LogupFraction {
                numerator: provider_numerator(multiplicities[i]),
                denominator: relation.spec_combine(values[i]),
            },
    )
}

/// Fractions of a blinded provider, row by row.
pub open spec fn blind_fractions(
    multiplicities: Seq<M31>,
    values: Seq<M31>,
    dummies: Seq<M31>,
    relation: RangeCheckRelation,
) -> Seq<LogupFraction> {
    Seq::new(
        multiplicities.len(),
        |i: int|
            LogupFraction {
                numerator: blind_numerator(dummies[i], multiplicities[i]),
                denominator: relation.spec_combine(values[i]),
            },
    )
}

/// All cells are reduced.
pub open spec fn reduced_cells(s: Seq<M31>) -> bool {
    forall|i: int| 0 <= i < s.len() ==> (#[trigger] s[i]).wf()
}

/// No value of the column meets the pole of the relation.
pub open spec fn avoids_pole(values: Seq<M31>, relation: RangeCheckRelation) -> bool {
    forall|i: int|
        0 <= i < values.len() ==> relation.spec_combine(#[trigger] values[i]) != sf_zero()
}

/// The values of fractions with nonzero denominators, with one batch inversion.
fn evaluate_fractions(fractions: &Vec<LogupFraction>) -> (r: Vec<SecureField>)
    requires
        forall|i: int|
            0 <= i < fractions@.len() ==> (#[trigger] fractions@[i]).wf()
                && fractions@[i].denominator != sf_zero(),
    ensures
        r@ == fraction_values(fractions@),
        forall|i: int| 0 <= i < r@.len() ==> (#[trigger] r@[i]).wf(),
        invertible_denominators(fractions@),
{
    let mut denominators: Vec<SecureField> = Vec::new();
    let mut j: usize = 0;
    while j < fractions.len()
        invariant
            j <= fractions@.len(),
            denominators@.len() == j,
            forall|i: int|
                0 <= i < fractions@.len() ==> (#[trigger] fractions@[i]).wf()
                    && fractions@[i].denominator != sf_zero(),
            forall|i: int| 0 <= i < j ==> #[trigger] denominators@[i] == fractions@[i].denominator,
        decreases fractions@.len() - j,
    {
        denominators.push(fractions[j].denominator);
        j = j + 1;
    }
    proof {
        assert forall|i: int| 0 <= i < denominators@.len() implies (
        #[trigger] denominators@[i]).wf() && denominators@[i] != sf_zero() by {
            assert(fractions@[i].wf());
        }
    }
    let inverses: Vec<SecureField> = qm31_batch_inverse(&denominators);
    let ghost expected = fraction_values(fractions@);
    let mut values: Vec<SecureField> = Vec::new();
    let mut i: usize = 0;
    while i < fractions.len()
        invariant
            i <= fractions@.len(),
            inverses@.len() == fractions@.len(),
            denominators@.len() == fractions@.len(),
            expected == fraction_values(fractions@),
            forall|k: int|
                0 <= k < fractions@.len() ==> (#[trigger] fractions@[k]).wf()
                    && fractions@[k].denominator != sf_zero(),
            forall|k: int|
                0 <= k < fractions@.len() ==> #[trigger] denominators@[k]
                    == fractions@[k].denominator,
            forall|k: int|
                0 <= k < inverses@.len() ==> sf_is_inverse(
                    denominators@[k],
                    #[trigger] inverses@[k],
                ),
            forall|k: int|
                0 <= k < i ==> sf_is_inverse(
                    (#[trigger] fractions@[k]).denominator,
                    sf_inverse(fractions@[k].denominator),
                ),
            values@.len() == i,
            forall|k: int| 0 <= k < i ==> #[trigger] values@[k] == expected[k] && values@[k].wf(),
        decreases fractions@.len() - i,
    {
        proof {
            assert(fractions@[i as int].wf());
            assert(denominators@[i as int] == fractions@[i as int].denominator);
            assert(sf_is_inverse(denominators@[i as int], inverses@[i as int]));
            lemma_inverse_unique(fractions@[i as int].denominator, inverses@[i as int]);
        }
        values.push(fractions[i].numerator.times(inverses[i]));
        i = i + 1;
    }
    proof {
        assert(values@ =~= expected);
    }
    values
}

/// Sum of fractions with nonzero denominators.
pub fn sum_fractions(fractions: &Vec<LogupFraction>) -> (r: SecureField)
    requires
        forall|i: int|
            0 <= i < fractions@.len() ==> (#[trigger] fractions@[i]).wf()
                && fractions@[i].denominator != sf_zero(),
    ensures
        r == sf_sum_of(fraction_values(fractions@)),
        r.wf(),
        invertible_denominators(fractions@),
{
    let values: Vec<SecureField> = evaluate_fractions(fractions);
    sum_values(&values)
}

/// Sum of a list of field elements.
fn sum_values(values: &Vec<SecureField>) -> (r: SecureField)
    requires
        forall|i: int| 0 <= i < values@.len() ==> (#[trigger] values@[i]).wf(),
    ensures
        r == sf_sum_of(values@),
        r.wf(),
{
    let mut sum: SecureField = SecureField::zero();
    let mut i: usize = 0;
    while i < values.len()
        invariant
            i <= values@.len(),
            forall|k: int| 0 <= k < values@.len() ==> (#[trigger] values@[k]).wf(),
            sum.wf(),
            sum == sf_sum_of(values@.take(i as int)),
        decreases values@.len() - i,
    {
        proof {
            assert(values@.take(i + 1).drop_last() =~= values@.take(i as int));
            assert(values@.take(i + 1).last() == values@[i as int]);
        }
        sum = sum.plus(values[i]);
        i = i + 1;
    }
    proof {
        assert(values@.take(i as int) =~= values@);
    }
    sum
}

/// A list of rows, taken in coset order.
pub open spec fn coset_order<T>(rows: Seq<T>, k: nat) -> Seq<T> {
    Seq::new(pow2(k), |i: int| rows[stored_row(i as nat, k) as int])
}

/// What is taken off every row so that the running sum closes: the claimed sum
/// over the number of rows, `sum / 2^k`. In the field, `2^(31 - k)` is the
/// inverse of `2^k`.
pub open spec fn cumsum_shift(sum: SecureField, k: nat) -> SecureField {
    sf_product(sum, sf_of_base(M31(pow2((31 - k) as nat) as u32)))
}

/// The terms of an interaction column in coset order: the fractions, each less
/// the shift.
pub open spec fn shifted_terms(fractions: Seq<LogupFraction>, sum: SecureField, k: nat) -> Seq<
    SecureField,
> {
    fractions.map_values(|f: LogupFraction| sf_difference(f.spec_value(), cumsum_shift(sum, k)))
}

/// The running sums of a list.
pub open spec fn running_sums(terms: Seq<SecureField>) -> Seq<SecureField> {
    Seq::new(terms.len(), |i: int| sf_sum_of(terms.take(i + 1)))
}

/// Four columns store a list of field elements, coordinate by coordinate.
pub open spec fn stores_coordinates(
    columns: Seq<ColumnEval>,
    k: nat,
    elements: Seq<SecureField>,
) -> bool {
    &&& columns.len() == 4
    &&& columns[0].stores(k, elements.map_values(|e: SecureField| e.c0))
    &&& columns[1].stores(k, elements.map_values(|e: SecureField| e.c1))
    &&& columns[2].stores(k, elements.map_values(|e: SecureField| e.c2))
    &&& columns[3].stores(k, elements.map_values(|e: SecureField| e.c3))
}

/// The interaction columns of a provider whose fractions are given in coset
/// order: the running sum of the shifted fractions.
pub open spec fn is_interaction(
    columns: Seq<ColumnEval>,
    k: nat,
    fractions: Seq<LogupFraction>,
    sum: SecureField,
) -> bool {
    stores_coordinates(columns, k, running_sums(shifted_terms(fractions, sum, k)))
}

/// The interaction columns and the claimed sum of fractions given row by row.
fn running_columns(log_size: u32, fractions: &Vec<LogupFraction>) -> (r: (
    Vec<ColumnEval>,
    SecureField,
))
    requires
        1 <= log_size,
        indexable(log_size as nat),
        fractions@.len() == pow2(log_size as nat),
        forall|i: int|
            0 <= i < fractions@.len() ==> (#[trigger] fractions@[i]).wf()
                && fractions@[i].denominator != sf_zero(),
    ensures
        r.1 == sf_sum_of(fraction_values(fractions@)),
        r.1.wf(),
        invertible_denominators(fractions@),
        is_interaction(
            r.0@,
            log_size as nat,
            coset_order(fractions@, log_size as nat),
            r.1,
        ),
{
    let ghost k = log_size as nat;
    let values: Vec<SecureField> = evaluate_fractions(fractions);
    let sum: SecureField = sum_values(&values);
    let inverse: usize = two_to_the(31 - log_size);
    proof {
        lemma2_to64();
        if log_size > 1 {
            lemma_pow2_strictly_increases((31 - log_size) as nat, 30);
        }
    }
    let shift: SecureField = sum.times(SecureField::from_base(M31::from_u32_unchecked(
        inverse as u32,
    )));
    let ghost terms = shifted_terms(coset_order(fractions@, k), sum, k);
    let ghost sums = running_sums(terms);
    let mut c0: Vec<M31> = Vec::new();
    let mut c1: Vec<M31> = Vec::new();
    let mut c2: Vec<M31> = Vec::new();
    let mut c3: Vec<M31> = Vec::new();
    let mut acc: SecureField = SecureField::zero();
    let n: usize = values.len();
    let mut i: usize = 0;
    proof {
        law_storage_order_is_a_permutation(k);
        assert(terms.take(0) =~= Seq::<SecureField>::empty());
    }
    while i < n
        invariant
            i <= n,
            n == values@.len(),
            n == pow2(k),
            k == log_size,
            1 <= log_size,
            indexable(k),
            values@ == fraction_values(fractions@),
            fractions@.len() == n,
            forall|j: int| 0 <= j < values@.len() ==> (#[trigger] values@[j]).wf(),
            shift == cumsum_shift(sum, k),
            shift.wf(),
            terms == shifted_terms(coset_order(fractions@, k), sum, k),
            sums == running_sums(terms),
            forall|j: nat|
                j < pow2(k) ==> #[trigger] stored_row(j, k) < pow2(k) && row_position(
                    stored_row(j, k),
                    k,
                ) == j,
            acc.wf(),
            acc == sf_sum_of(terms.take(i as int)),
            c0@ == sums.take(i as int).map_values(|e: SecureField| e.c0),
            c1@ == sums.take(i as int).map_values(|e: SecureField| e.c1),
            c2@ == sums.take(i as int).map_values(|e: SecureField| e.c2),
            c3@ == sums.take(i as int).map_values(|e: SecureField| e.c3),
        decreases n - i,
    {
        proof {
            lemma_circle_position(i as nat, k);
            assert(stored_row(i as nat, k) < pow2(k));
        }
        let circle: usize = stwo::core::utils::coset_index_to_circle_domain_index(i, log_size);
        let row: usize = stwo::core::utils::bit_reverse_index(circle, log_size);
        proof {
            assert(values@[row as int].wf());
            assert(values@[row as int] == coset_order(fractions@, k)[i as int].spec_value());
            assert(terms.take(i + 1).drop_last() =~= terms.take(i as int));
            assert(terms.take(i + 1).last() == terms[i as int]);
        }
        acc = acc.plus(values[row].minus(shift));
        c0.push(acc.c0);
        c1.push(acc.c1);
        c2.push(acc.c2);
        c3.push(acc.c3);
        proof {
            assert(acc == sums[i as int]);
            assert(sums.take(i + 1) =~= sums.take(i as int).push(acc));
            assert(c0@ =~= sums.take(i + 1).map_values(|e: SecureField| e.c0));
            assert(c1@ =~= sums.take(i + 1).map_values(|e: SecureField| e.c1));
            assert(c2@ =~= sums.take(i + 1).map_values(|e: SecureField| e.c2));
            assert(c3@ =~= sums.take(i + 1).map_values(|e: SecureField| e.c3));
        }
        i = i + 1;
    }
    proof {
        assert(sums.take(n as int) =~= sums);
    }
    let mut columns: Vec<ColumnEval> = Vec::new();
    columns.push(column_eval(log_size, &c0));
    columns.push(column_eval(log_size, &c1));
    columns.push(column_eval(log_size, &c2));
    columns.push(column_eval(log_size, &c3));
    (columns, sum)
}

impl RangeCheckInteractionClaim {
    /// Absorbs the claimed sum.
    pub fn mix_into(&self, channel: &mut Transcript)
        ensures
            final(channel).digest@ == blake2s_mix_felts(
                old(channel).digest@,
                coordinates(seq![self.claimed_sum]),
            ),
            final(channel).blocks == 0,
    {
        channel.mix_felt(self.claimed_sum);
    }

    /// The interaction columns of a provider, from its multiplicity and value
    /// columns, and its claimed sum.
    pub fn gen_interaction_trace(
        multiplicity: &ColumnEval,
        value: &ColumnEval,
        relation: &RangeCheckRelation,
    ) -> (r: (Vec<ColumnEval>, RangeCheckInteractionClaim))
        requires
            multiplicity.wf(),
            value.wf(),
            multiplicity.domain.log_size == value.domain.log_size,
            reduced_cells(multiplicity.values@),
            reduced_cells(value.values@),
            relation.wf(),
            avoids_pole(value.values@, *relation),
        ensures
            ({
                let k = multiplicity.domain.log_size as nat;
                let fractions = provider_fractions(
                    multiplicity.values@,
                    value.values@,
                    *relation,
                );
                &&& r.1.claimed_sum == sf_sum_of(fraction_values(fractions))
                &&& r.1.claimed_sum.wf()
                &&& is_interaction(r.0@, k, coset_order(fractions, k), r.1.claimed_sum)
                &&& invertible_denominators(fractions)
            }),
    {
        let mut fractions: Vec<LogupFraction> = Vec::new();
        let ghost expected = provider_fractions(multiplicity.values@, value.values@, *relation);
        let mut i: usize = 0;
        while i < multiplicity.values.len()
            invariant
                i <= multiplicity.values@.len(),
                multiplicity.values@.len() == value.values@.len(),
                reduced_cells(multiplicity.values@),
                reduced_cells(value.values@),
                relation.wf(),
                avoids_pole(value.values@, *relation),
                expected == provider_fractions(multiplicity.values@, value.values@, *relation),
                fractions@.len() == i,
                forall|k: int|
                    0 <= k < i ==> #[trigger] fractions@[k] == expected[k] && fractions@[k].wf()
                        && fractions@[k].denominator != sf_zero(),
            decreases multiplicity.values@.len() - i,
        {
            proof {
                assert(multiplicity.values@[i as int].wf());
                assert(value.values@[i as int].wf());
                assert(relation.spec_combine(value.values@[i as int]) != sf_zero());
            }
            let denominator: SecureField = relation.combine(value.values[i]);
            let numerator: SecureField = SecureField::from_base(multiplicity.values[i]).negated();
            fractions.push(LogupFraction { numerator, denominator });
            i = i + 1;
        }
        proof {
            assert(fractions@ =~= expected);
        }
        let (columns, claimed_sum) = running_columns(multiplicity.domain.log_size, &fractions);
        (columns, RangeCheckInteractionClaim { claimed_sum })
    }

    /// The interaction columns of a blinded provider and its claimed sum.
    pub fn gen_blind_interaction_trace(
        multiplicity: &ColumnEval,
        value: &ColumnEval,
        is_dummy: &ColumnEval,
        relation: &RangeCheckRelation,
    ) -> (r: (Vec<ColumnEval>, RangeCheckInteractionClaim))
        requires
            multiplicity.wf(),
            value.wf(),
            is_dummy.wf(),
            multiplicity.domain.log_size == value.domain.log_size,
            multiplicity.domain.log_size == is_dummy.domain.log_size,
            reduced_cells(multiplicity.values@),
            reduced_cells(value.values@),
            reduced_cells(is_dummy.values@),
            relation.wf(),
            avoids_pole(value.values@, *relation),
        ensures
            ({
                let k = multiplicity.domain.log_size as nat;
                let fractions = blind_fractions(
                    multiplicity.values@,
                    value.values@,
                    is_dummy.values@,
                    *relation,
                );
                &&& r.1.claimed_sum == sf_sum_of(fraction_values(fractions))
                &&& r.1.claimed_sum.wf()
                &&& is_interaction(r.0@, k, coset_order(fractions, k), r.1.claimed_sum)
                &&& invertible_denominators(fractions)
            }),
    {
        let mut fractions: Vec<LogupFraction> = Vec::new();
        let ghost expected = blind_fractions(
            multiplicity.values@,
            value.values@,
            is_dummy.values@,
            *relation,
        );
        let mut i: usize = 0;
        while i < multiplicity.values.len()
            invariant
                i <= multiplicity.values@.len(),
                multiplicity.values@.len() == value.values@.len(),
                multiplicity.values@.len() == is_dummy.values@.len(),
                reduced_cells(multiplicity.values@),
                reduced_cells(value.values@),
                reduced_cells(is_dummy.values@),
                relation.wf(),
                avoids_pole(value.values@, *relation),
                expected == blind_fractions(
                    multiplicity.values@,
                    value.values@,
                    is_dummy.values@,
                    *relation,
                ),
                fractions@.len() == i,
                forall|k: int|
                    0 <= k < i ==> #[trigger] fractions@[k] == expected[k] && fractions@[k].wf()
                        && fractions@[k].denominator != sf_zero(),
            decreases multiplicity.values@.len() - i,
        {
            proof {
                assert(multiplicity.values@[i as int].wf());
                assert(value.values@[i as int].wf());
                assert(is_dummy.values@[i as int].wf());
                assert(relation.spec_combine(value.values@[i as int]) != sf_zero());
            }
            let denominator: SecureField = relation.combine(value.values[i]);
            let gate: SecureField = SecureField::one().minus(
                SecureField::from_base(is_dummy.values[i]),
            );
            let numerator: SecureField = gate.times(
                SecureField::from_base(multiplicity.values[i]),
            ).negated();
            fractions.push(LogupFraction { numerator, denominator });
            i = i + 1;
        }
        proof {
            assert(fractions@ =~= expected);
        }
        let (columns, claimed_sum) = running_columns(multiplicity.domain.log_size, &fractions);
        (columns, RangeCheckInteractionClaim { claimed_sum })
    }
}

/// Fractions to be batched: one numerator and one denominator per row.
#[derive(Clone, Debug)]
pub struct LogupEntry {
    pub numerators: Vec<SecureField>,
    pub denominators: Vec<SecureField>,
}

impl LogupEntry {
    /// Reduced fractions for at least `rows` rows.
    pub open spec fn covers(&self, rows: int) -> bool {
        &&& rows <= self.numerators@.len()
        &&& rows <= self.denominators@.len()
        &&& forall|i: int| 0 <= i < rows ==> (#[trigger] self.numerators@[i]).wf()
        &&& forall|i: int| 0 <= i < rows ==> (#[trigger] self.denominators@[i]).wf()
    }

    pub open spec fn spec_fraction(&self, row: int) -> LogupFraction {
        LogupFraction { numerator: self.numerators@[row], denominator: self.denominators@[row] }
    }
}

/// Fractions of one row of a run of entries.
pub open spec fn row_fractions(entries: Seq<LogupEntry>, row: int) -> Seq<LogupFraction> {
    Seq::new(entries.len(), |i: int| entries[i].spec_fraction(row))
}

/// Fold of a nonempty list of fractions, from the left.
pub open spec fn fold_fractions(s: Seq<LogupFraction>) -> LogupFraction
    decreases s.len(),
{
    if s.len() <= 1 {
        s[0]
    } else {
        fraction_sum(fold_fractions(s.drop_last()), s.last())
    }
}

/// Number of batches of at most `batch` entries.
pub open spec fn batch_count(n: int, batch: int) -> int {
    (n + batch - 1) / batch
}

/// The entries of the batch at a position.
pub open spec fn batch_entries(entries: Seq<LogupEntry>, batch: int, c: int) -> Seq<LogupEntry> {
    entries.subrange(
        c * batch,
        if (c + 1) * batch <= entries.len() {
            (c + 1) * batch
        } else {
            entries.len() as int
        },
    )
}

/// Sum of two fractions over a common denominator.
fn add_fractions(x: LogupFraction, y: LogupFraction) -> (r: LogupFraction)
    requires
        x.wf(),
        y.wf(),
    ensures
        r == fraction_sum(x, y),
        r.wf(),
{
    LogupFraction {
        numerator: x.numerator.times(y.denominator).plus(y.numerator.times(x.denominator)),
        denominator: x.denominator.times(y.denominator),
    }
}

/// One row of a batch.
fn fold_row(entries: &Vec<LogupEntry>, from: usize, to: usize, row: usize) -> (r: LogupFraction)
    requires
        from < to <= entries@.len(),
        forall|i: int| 0 <= i < entries@.len() ==> (#[trigger] entries@[i]).covers(row + 1),
    ensures
        r == fold_fractions(row_fractions(entries@.subrange(from as int, to as int), row as int)),
        r.wf(),
{
    let ghost all = row_fractions(entries@.subrange(from as int, to as int), row as int);
    proof {
        assert(entries@[from as int].covers(row + 1));
    }
    let mut acc: LogupFraction = LogupFraction {
        numerator: entries[from].numerators[row],
        denominator: entries[from].denominators[row],
    };
    let mut i: usize = from + 1;
    proof {
        assert(all.take(1)[0] == acc);
    }
    while i < to
        invariant
            from < i <= to <= entries@.len(),
            forall|k: int| 0 <= k < entries@.len() ==> (#[trigger] entries@[k]).covers(row + 1),
            all == row_fractions(entries@.subrange(from as int, to as int), row as int),
            acc == fold_fractions(all.take(i - from)),
            acc.wf(),
        decreases to - i,
    {
        proof {
            assert(entries@[i as int].covers(row + 1));
            let next = all.take(i + 1 - from);
            assert(next.drop_last() =~= all.take(i - from));
            assert(next.last() == all[i - from]);
            assert(all[i - from] == entries@[i as int].spec_fraction(row as int));
        }
        let next: LogupFraction = LogupFraction {
            numerator: entries[i].numerators[row],
            denominator: entries[i].denominators[row],
        };
        acc = add_fractions(acc, next);
        i = i + 1;
    }
    proof {
        assert(all.take(to - from) =~= all);
    }
    acc
}

/// Folds entries into columns of fractions, `batch` entries per column.
pub fn write_batched_logup_columns(entries: &Vec<LogupEntry>, rows: usize, batch: usize) -> (r: Vec<
    Vec<LogupFraction>,
>)
    requires
        0 < batch,
        forall|i: int| 0 <= i < entries@.len() ==> (#[trigger] entries@[i]).covers(rows as int),
    ensures
        r@.len() == batch_count(entries@.len() as int, batch as int),
        forall|c: int|
            0 <= c < r@.len() ==> {
                &&& (#[trigger] r@[c])@.len() == rows
                &&& forall|row: int|
                    0 <= row < rows ==> #[trigger] r@[c]@[row] == fold_fractions(
                        row_fractions(batch_entries(entries@, batch as int, c), row),
                    )
            },
{
    let mut columns: Vec<Vec<LogupFraction>> = Vec::new();
    let n: usize = entries.len();
    let mut from: usize = 0;
    let ghost b = batch as int;
    assert(0 * b == 0) by (nonlinear_arith);
    while from < n
        invariant
            0 < batch,
            b == batch,
            n == entries@.len(),
            from <= n,
            from == columns@.len() * b || (from == n && columns@.len() * b > n),
            columns@.len() > 0 ==> (columns@.len() - 1) * b < n,
            forall|i: int| 0 <= i < entries@.len() ==> (#[trigger] entries@[i]).covers(rows as int),
            forall|c: int|
                0 <= c < columns@.len() ==> {
                    &&& (#[trigger] columns@[c])@.len() == rows
                    &&& forall|row: int|
                        0 <= row < rows ==> #[trigger] columns@[c]@[row] == fold_fractions(
                            row_fractions(batch_entries(entries@, b, c), row),
                        )
                },
        decreases n - from,
    {
        let to: usize = if batch <= n - from {
            from + batch
        } else {
            n
        };
        let ghost c = columns@.len() as int;
        let mut column: Vec<LogupFraction> = Vec::new();
        let mut row: usize = 0;
        proof {
            assert((c + 1) * b == c * b + b) by (nonlinear_arith);
            assert(batch_entries(entries@, b, c) =~= entries@.subrange(from as int, to as int));
        }
        while row < rows
            invariant
                row <= rows,
                from < to <= n,
                n == entries@.len(),
                batch_entries(entries@, b, c) == entries@.subrange(from as int, to as int),
                forall|i: int|
                    0 <= i < entries@.len() ==> (#[trigger] entries@[i]).covers(rows as int),
                column@.len() == row,
                forall|k: int|
                    0 <= k < row ==> #[trigger] column@[k] == fold_fractions(
                        row_fractions(batch_entries(entries@, b, c), k),
                    ),
            decreases rows - row,
        {
            proof {
                assert forall|i: int| 0 <= i < entries@.len() implies (
                #[trigger] entries@[i]).covers(row + 1) by {
                    assert(entries@[i].covers(rows as int));
                }
            }
            column.push(fold_row(entries, from, to, row));
            row = row + 1;
        }
        columns.push(column);
        from = to;
    }
    proof {
        let c = columns@.len() as int;
        assert((c - 1) * b == c * b - b) by (nonlinear_arith);
        // (c - 1) batch < n <= c batch, or there is nothing to batch.
        assert(batch_count(n as int, b) == c) by {
            vstd::arithmetic::div_mod::lemma_fundamental_div_mod_converse(
                n + b - 1,
                b,
                c,
                n + b - 1 - c * b,
            );
        }
    }
    columns
}

/// The denominators of all fractions are invertible.
pub open spec fn invertible_denominators(s: Seq<LogupFraction>) -> bool {
    forall|i: int|
        0 <= i < s.len() ==> (#[trigger] s[i]).wf() && sf_is_inverse(
            s[i].denominator,
            sf_inverse(s[i].denominator),
        )
}

/// Two invertible fractions add up to their sum over a common denominator.
proof fn lemma_fraction_sum_value(x: LogupFraction, y: LogupFraction)
    requires
        x.wf(),
        y.wf(),
        sf_is_inverse(x.denominator, sf_inverse(x.denominator)),
        sf_is_inverse(y.denominator, sf_inverse(y.denominator)),
    ensures
        fraction_sum(x, y).wf(),
        sf_is_inverse(
            fraction_sum(x, y).denominator,
            sf_inverse(fraction_sum(x, y).denominator),
        ),
        fraction_sum(x, y).spec_value() == sf_sum(x.spec_value(), y.spec_value()),
{
    let (n1, d1, n2, d2) = (x.numerator, x.denominator, y.numerator, y.denominator);
    let (e1, e2) = (sf_inverse(d1), sf_inverse(d2));
    let d = sf_product(d1, d2);
    let e = sf_product(e1, e2);
    let n = sf_sum(sf_product(n1, d2), sf_product(n2, d1));
    lemma_results_reduced(d1, d2);
    lemma_results_reduced(e1, e2);
    lemma_results_reduced(sf_product(n1, d2), sf_product(n2, d1));
    // d e = (d1 d2)(e1 e2) = d1 ((d2 e2) e1) = d1 e1 = 1.
    law_product_associates(d1, d2, e);
    law_product_commutes(e1, e2);
    law_product_associates(d2, e2, e1);
    law_product_identity(e1);
    assert(sf_product(d, e) == sf_one());
    lemma_inverse_unique(d, e);
    // n e = (n1 d2) e + (n2 d1) e = n1 e1 + n2 e2.
    law_product_commutes(n, e);
    law_product_distributes(e, sf_product(n1, d2), sf_product(n2, d1));
    law_product_commutes(e, sf_product(n1, d2));
    law_product_commutes(e, sf_product(n2, d1));
    law_product_associates(n1, d2, e);
    law_product_associates(n2, d1, e);
    law_product_associates(d1, e1, e2);
    law_product_identity(e2);
}

/// Law: folding fractions over a common denominator keeps their sum.
pub proof fn law_folded_fraction_is_the_sum(s: Seq<LogupFraction>)
    requires
        0 < s.len(),
        invertible_denominators(s),
    ensures
        fold_fractions(s).wf(),
        sf_is_inverse(
            fold_fractions(s).denominator,
            sf_inverse(fold_fractions(s).denominator),
        ),
        fold_fractions(s).spec_value() == sf_sum_of(fraction_values(s)),
    decreases s.len(),
{
    let front = s.drop_last();
    let values = fraction_values(s);
    assert(values.drop_last() =~= fraction_values(front));
    assert(values.last() == s.last().spec_value());
    assert(s[0].wf());
    assert(s[s.len() - 1].wf());
    if s.len() == 1 {
        assert(values.drop_last() =~= Seq::<SecureField>::empty());
        lemma_results_reduced(s[0].numerator, sf_inverse(s[0].denominator));
        law_sum_identity(s[0].spec_value());
        assert(sf_sum_of(values.drop_last()) == sf_zero());
        assert(sf_sum_of(values) == sf_sum(sf_zero(), s[0].spec_value()));
        assert(fold_fractions(s) == s[0]);
    } else {
        assert(invertible_denominators(front)) by {
            assert forall|i: int| 0 <= i < front.len() implies (#[trigger] front[i]).wf()
                && sf_is_inverse(front[i].denominator, sf_inverse(front[i].denominator)) by {
                assert(front[i] == s[i]);
            }
        }
        law_folded_fraction_is_the_sum(front);
        lemma_fraction_sum_value(fold_fractions(front), s.last());
        assert(fold_fractions(s) == fraction_sum(fold_fractions(front), s.last()));
        assert(sf_sum_of(values) == sf_sum(sf_sum_of(fraction_values(front)), s.last().spec_value()));
    }
}

/// Value of a provider's term.
spec fn provider_term(m: M31, v: M31, relation: RangeCheckRelation) -> SecureField {
    sf_product(provider_numerator(m), sf_inverse(relation.spec_combine(v)))
}

/// Terms of a provider, listed in coset order.
spec fn provider_terms(ms: Seq<M31>, vs: Seq<M31>, relation: RangeCheckRelation) -> Seq<SecureField> {
    fraction_values(provider_fractions(ms, vs, relation))
}

/// Every table value has an invertible denominator.
spec fn poleless(values: Seq<M31>, relation: RangeCheckRelation) -> bool {
    forall|i: int|
        0 <= i < values.len() ==> sf_is_inverse(
            relation.spec_combine(#[trigger] values[i]),
            sf_inverse(relation.spec_combine(values[i])),
        )
}

/// What the consumers of a table add to the balance: `1 / (u - z)` per use.
pub open spec fn consumer_terms(uses: Seq<M31>, relation: RangeCheckRelation) -> Seq<SecureField> {
    uses.map_values(|u: M31| sf_inverse(relation.spec_combine(u)))
}

/// A term grows by `-1/(v - z)` with each use.
proof fn lemma_term_step(c: int, v: M31, relation: RangeCheckRelation)
    requires
        sf_inverse(relation.spec_combine(v)).wf(),
    ensures
        provider_term(m31_of(c + 1), v, relation) == sf_sum(
            provider_term(m31_of(c), v, relation),
            sf_negation(sf_inverse(relation.spec_combine(v))),
        ),
{
    let x = sf_inverse(relation.spec_combine(v));
    let (a, b) = (sf_of_base(m31_of(c)), sf_of_base(m31_of(c + 1)));
    lemma_m31_of(c);
    lemma_m31_of(c + 1);
    lemma_count_step(c);
    assert(sf_sum(a, sf_one()) == b) by {
        reveal(crate::fields::sf_of);
        assert(m31_of(0) == M31(0)) by {
            vstd::arithmetic::div_mod::lemma_small_mod(0, 2_147_483_647);
        }
    }
    law_negation_of_sum(a, sf_one());
    lemma_results_reduced(a, a);
    lemma_results_reduced(sf_one(), sf_one());
    let (na, n1) = (sf_negation(a), sf_negation(sf_one()));
    law_product_commutes(sf_sum(na, n1), x);
    law_product_distributes(x, na, n1);
    law_product_commutes(x, na);
    law_product_commutes(x, n1);
    law_product_negation(sf_one(), x);
    law_product_identity(x);
}

/// In coset order, the provider's terms and the consumers' terms cancel.
proof fn lemma_coset_balance(k: nat, uses: Seq<M31>, relation: RangeCheckRelation)
    requires
        k <= 30,
        poleless(range_values(k), relation),
        forall|i: int| 0 <= i < uses.len() ==> (#[trigger] uses[i]).0 < pow2(k),
    ensures
        sf_sum(
            sf_sum_of(provider_terms(range_multiplicities(k, uses), range_values(k), relation)),
            sf_sum_of(consumer_terms(uses, relation)),
        ) == sf_zero(),
    decreases uses.len(),
{
    let vs = range_values(k);
    let terms = provider_terms(range_multiplicities(k, uses), vs, relation);
    let uses_terms = consumer_terms(uses, relation);
    if uses.len() == 0 {
        assert forall|i: int| 0 <= i < terms.len() implies #[trigger] terms[i] == sf_zero() by {
            vstd::arithmetic::div_mod::lemma_small_mod(0, 2_147_483_647);
            law_product_zero(sf_inverse(relation.spec_combine(vs[i])));
        }
        law_sum_of_zeros(terms);
        assert(uses_terms =~= Seq::<SecureField>::empty());
        law_sum_identity(sf_zero());
    } else {
        let front = uses.drop_last();
        let u = uses.last();
        let j = u.0 as int;
        assert(u == uses[uses.len() - 1]);
        assert forall|i: int| 0 <= i < front.len() implies (#[trigger] front[i]).0 < pow2(k) by {
            assert(front[i] == uses[i]);
        }
        lemma_coset_balance(k, front, relation);
        let before = provider_terms(range_multiplicities(k, front), vs, relation);
        let x = sf_inverse(relation.spec_combine(u));
        assert(vs[j] == u);
        assert(sf_is_inverse(relation.spec_combine(vs[j]), sf_inverse(relation.spec_combine(vs[j]))));
        lemma_results_reduced(x, x);
        lemma_term_step(use_count(front, j) as int, u, relation);
        assert(terms =~= before.update(j, sf_sum(before[j], sf_negation(x)))) by {
            assert forall|i: int| 0 <= i < terms.len() && i != j implies terms[i] == before[i] by {}
        }
        assert forall|i: int| 0 <= i < before.len() implies (#[trigger] before[i]).wf() by {
            lemma_results_reduced(
                provider_numerator(range_multiplicities(k, front)[i]),
                sf_inverse(relation.spec_combine(vs[i])),
            );
        }
        law_sum_of_update(before, j, sf_negation(x));
        let front_terms = consumer_terms(front, relation);
        assert(uses_terms.drop_last() =~= front_terms);
        assert(uses_terms.last() == x);
        lemma_sum_of_reduced(before);
        lemma_sum_of_reduced(front_terms);
        lemma_cancel_step(sf_sum_of(before), sf_sum_of(front_terms), x);
    }
}

/// Sums over the stored rows are sums over the positions in coset order.
proof fn lemma_stored_sum(k: nat, stored: Seq<SecureField>, listed: Seq<SecureField>)
    requires
        k >= 1,
        stored.len() == pow2(k),
        listed.len() == pow2(k),
        forall|i: int| 0 <= i < stored.len() ==> (#[trigger] stored[i]).wf(),
        forall|i: int|
            0 <= i < listed.len() ==> #[trigger] listed[i] == stored[stored_row(
                i as nat,
                k,
            ) as int],
    ensures
        sf_sum_of(stored) == sf_sum_of(listed),
{
    law_storage_order_is_a_permutation(k);
    let place = |i: int| stored_row(i as nat, k) as int;
    assert forall|i: int| 0 <= i < listed.len() implies 0 <= #[trigger] place(i) < stored.len()
        && listed[i] == stored[place(i)] by {
        assert(stored_row(i as nat, k) < pow2(k));
    }
    assert forall|i: int, j: int| 0 <= i < j < listed.len() implies #[trigger] place(i)
        != #[trigger] place(j) by {
        assert(row_position(stored_row(i as nat, k), k) == i);
        assert(row_position(stored_row(j as nat, k), k) == j);
    }
    law_sum_of_rearranged(stored, listed, place);
}

/// Law: the claimed sum of a range table and the fractions of its uses cancel.
/// A table whose multiplicity column counts the uses balances them exactly.
pub proof fn law_provider_balances_uses(
    multiplicity: ColumnEval,
    value: ColumnEval,
    k: nat,
    uses: Seq<M31>,
    relation: RangeCheckRelation,
)
    requires
        1 <= k <= 30,
        forall|i: int| 0 <= i < uses.len() ==> (#[trigger] uses[i]).0 < pow2(k),
        multiplicity.stores(k, range_multiplicities(k, uses)),
        value.stores(k, range_values(k)),
        invertible_denominators(
            provider_fractions(multiplicity.values@, value.values@, relation),
        ),
    ensures
        sf_sum(
            sf_sum_of(
                fraction_values(
                    provider_fractions(multiplicity.values@, value.values@, relation),
                ),
            ),
            sf_sum_of(consumer_terms(uses, relation)),
        ) == sf_zero(),
{
    lemma_stored_provider(
        multiplicity,
        value,
        k,
        range_multiplicities(k, uses),
        range_values(k),
        relation,
    );
    lemma_coset_balance(k, uses, relation);
}

/// A provider's sum over stored columns is its sum in coset order, and its
/// denominators are invertible there too.
proof fn lemma_stored_provider(
    multiplicity: ColumnEval,
    value: ColumnEval,
    k: nat,
    ms: Seq<M31>,
    vs: Seq<M31>,
    relation: RangeCheckRelation,
)
    requires
        k >= 1,
        multiplicity.stores(k, ms),
        value.stores(k, vs),
    ensures
        sf_sum_of(provider_terms(multiplicity.values@, value.values@, relation)) == sf_sum_of(
            provider_terms(ms, vs, relation),
        ),
        invertible_denominators(
            provider_fractions(multiplicity.values@, value.values@, relation),
        ) ==> poleless(vs, relation),
{
    let stored = provider_terms(multiplicity.values@, value.values@, relation);
    let listed = provider_terms(ms, vs, relation);
    law_storage_order_is_a_permutation(k);
    assert forall|i: int| 0 <= i < listed.len() implies #[trigger] listed[i]
        == stored[stored_row(i as nat, k) as int] by {
        assert(stored_row(i as nat, k) < pow2(k));
        assert(multiplicity.values@[stored_row(i as nat, k) as int] == ms[i]);
        assert(value.values@[stored_row(i as nat, k) as int] == vs[i]);
    }
    assert forall|r: int| 0 <= r < stored.len() implies (#[trigger] stored[r]).wf() by {
        lemma_results_reduced(
            provider_numerator(multiplicity.values@[r]),
            sf_inverse(relation.spec_combine(value.values@[r])),
        );
    }
    lemma_stored_sum(k, stored, listed);
    let fractions = provider_fractions(multiplicity.values@, value.values@, relation);
    if invertible_denominators(fractions) {
        assert forall|i: int| 0 <= i < vs.len() implies sf_is_inverse(
            relation.spec_combine(#[trigger] vs[i]),
            sf_inverse(relation.spec_combine(vs[i])),
        ) by {
            let row = stored_row(i as nat, k) as int;
            assert(stored_row(i as nat, k) < pow2(k));
            assert(value.values@[row] == vs[i]);
            assert(fractions[row].denominator == relation.spec_combine(vs[i]));
        }
    }
}

/// In coset order, a signed-carry provider's terms and its consumers' terms
/// cancel.
proof fn lemma_carry_balance(k: nat, bound: int, uses: Seq<i64>, relation: RangeCheckRelation)
    requires
        1 <= bound <= M31_HALF,
        2 * bound + 1 <= pow2(k),
        poleless(carry_values(k, bound), relation),
        forall|i: int| 0 <= i < uses.len() ==> -bound <= #[trigger] uses[i] <= bound,
    ensures
        sf_sum(
            sf_sum_of(
                provider_terms(
                    carry_multiplicities(k, bound, uses),
                    carry_values(k, bound),
                    relation,
                ),
            ),
            sf_sum_of(carry_consumer_terms(uses, relation)),
        ) == sf_zero(),
    decreases uses.len(),
{
    let vs = carry_values(k, bound);
    let terms = provider_terms(carry_multiplicities(k, bound, uses), vs, relation);
    let uses_terms = carry_consumer_terms(uses, relation);
    if uses.len() == 0 {
        assert forall|i: int| 0 <= i < terms.len() implies #[trigger] terms[i] == sf_zero() by {
            vstd::arithmetic::div_mod::lemma_small_mod(0, 2_147_483_647);
            law_product_zero(sf_inverse(relation.spec_combine(vs[i])));
        }
        law_sum_of_zeros(terms);
        assert(uses_terms =~= Seq::<SecureField>::empty());
        law_sum_identity(sf_zero());
    } else {
        let front = uses.drop_last();
        let u = uses.last();
        let j = u + bound;
        assert(u == uses[uses.len() - 1]);
        assert forall|i: int| 0 <= i < front.len() implies -bound <= #[trigger] front[i]
            <= bound by {
            assert(front[i] == uses[i]);
        }
        lemma_carry_balance(k, bound, front, relation);
        let before = provider_terms(carry_multiplicities(k, bound, front), vs, relation);
        let x = sf_inverse(relation.spec_combine(encoded_carry(u as int)));
        assert(vs[j] == encoded_carry(u as int));
        assert(sf_is_inverse(relation.spec_combine(vs[j]), sf_inverse(relation.spec_combine(vs[j]))));
        lemma_results_reduced(x, x);
        lemma_term_step(carry_count(front, u as int) as int, vs[j], relation);
        assert(terms =~= before.update(j, sf_sum(before[j], sf_negation(x)))) by {
            assert forall|i: int| 0 <= i < terms.len() && i != j implies terms[i] == before[i] by {}
        }
        assert forall|i: int| 0 <= i < before.len() implies (#[trigger] before[i]).wf() by {
            lemma_results_reduced(
                provider_numerator(carry_multiplicities(k, bound, front)[i]),
                sf_inverse(relation.spec_combine(vs[i])),
            );
        }
        law_sum_of_update(before, j, sf_negation(x));
        let front_terms = carry_consumer_terms(front, relation);
        assert(uses_terms.drop_last() =~= front_terms);
        assert(uses_terms.last() == x);
        lemma_sum_of_reduced(before);
        lemma_sum_of_reduced(front_terms);
        lemma_cancel_step(sf_sum_of(before), sf_sum_of(front_terms), x);
    }
}

/// `(p - x) + (q + x) = 0` where `p + q = 0`.
proof fn lemma_cancel_step(p: SecureField, q: SecureField, x: SecureField)
    requires
        p.wf(),
        q.wf(),
        x.wf(),
        sf_sum(p, q) == sf_zero(),
    ensures
        sf_sum(sf_sum(p, sf_negation(x)), sf_sum(q, x)) == sf_zero(),
{
    let nx = sf_negation(x);
    lemma_results_reduced(x, x);
    lemma_results_reduced(q, x);
    law_sum_identity(x);
    law_sum_associates(p, nx, sf_sum(q, x));
    law_sum_commutes(q, x);
    law_sum_associates(nx, x, q);
    law_sum_commutes(nx, x);
    law_sum_identity(q);
}

/// What the consumers of a signed-carry table add to the balance.
pub open spec fn carry_consumer_terms(uses: Seq<i64>, relation: RangeCheckRelation) -> Seq<
    SecureField,
> {
    uses.map_values(|c: i64| sf_inverse(relation.spec_combine(encoded_carry(c as int))))
}

/// Law: the claimed sum of a signed-carry table and the fractions of its uses
/// cancel. Padding rows contribute nothing.
pub proof fn law_signed_carry_provider_balances_uses(
    multiplicity: ColumnEval,
    value: ColumnEval,
    claim: SignedCarryRangeClaim,
    uses: Seq<i64>,
    relation: RangeCheckRelation,
)
    requires
        claim.wf(),
        forall|i: int|
            0 <= i < uses.len() ==> -claim.bound <= #[trigger] uses[i] <= claim.bound,
        multiplicity.stores(
            claim.log_size as nat,
            carry_multiplicities(claim.log_size as nat, claim.bound as int, uses),
        ),
        value.stores(
            claim.log_size as nat,
            carry_values(claim.log_size as nat, claim.bound as int),
        ),
        invertible_denominators(
            provider_fractions(multiplicity.values@, value.values@, relation),
        ),
    ensures
        sf_sum(
            sf_sum_of(
                fraction_values(
                    provider_fractions(multiplicity.values@, value.values@, relation),
                ),
            ),
            sf_sum_of(carry_consumer_terms(uses, relation)),
        ) == sf_zero(),
{
    let k = claim.log_size as nat;
    let b = claim.bound as int;
    lemma_stored_provider(
        multiplicity,
        value,
        k,
        carry_multiplicities(k, b, uses),
        carry_values(k, b),
        relation,
    );
    lemma_carry_balance(k, b, uses, relation);
}

/// Law: blinding does not change the claimed sum. Whatever the blind cells
/// hold, the blinded table sums to what the plain table sums to.
pub proof fn law_blinding_keeps_the_sum(
    multiplicity: ColumnEval,
    value: ColumnEval,
    blind_multiplicity: ColumnEval,
    blind_value: ColumnEval,
    is_dummy: ColumnEval,
    k: nat,
    uses: Seq<M31>,
    cells: Seq<M31>,
    relation: RangeCheckRelation,
)
    requires
        1 <= k <= 30,
        cells.len() == pow2(k),
        multiplicity.stores(k, range_multiplicities(k, uses)),
        value.stores(k, range_values(k)),
        blind_multiplicity.stores(k + 1, blind_multiplicities(k, uses, cells)),
        blind_value.stores(k + 1, range_values(k + 1)),
        is_dummy.stores(k + 1, blind_selectors(k)),
    ensures
        sf_sum_of(
            fraction_values(
                blind_fractions(
                    blind_multiplicity.values@,
                    blind_value.values@,
                    is_dummy.values@,
                    relation,
                ),
            ),
        ) == sf_sum_of(
            fraction_values(provider_fractions(multiplicity.values@, value.values@, relation)),
        ),
{
    let listed = provider_terms(range_multiplicities(k, uses), range_values(k), relation);
    let blind_stored = fraction_values(
        blind_fractions(
            blind_multiplicity.values@,
            blind_value.values@,
            is_dummy.values@,
            relation,
        ),
    );
    let blind_listed = fraction_values(
        blind_fractions(
            blind_multiplicities(k, uses, cells),
            range_values(k + 1),
            blind_selectors(k),
            relation,
        ),
    );
    law_storage_order_is_a_permutation(k + 1);
    lemma_pow2_unfold(k + 1);
    lemma_stored_provider(
        multiplicity,
        value,
        k,
        range_multiplicities(k, uses),
        range_values(k),
        relation,
    );
    assert forall|i: int| 0 <= i < blind_listed.len() implies #[trigger] blind_listed[i]
        == blind_stored[stored_row(i as nat, k + 1) as int] by {
        let row = stored_row(i as nat, k + 1) as int;
        assert(stored_row(i as nat, k + 1) < pow2(k + 1));
        assert(blind_multiplicity.values@[row] == blind_multiplicities(k, uses, cells)[i]);
        assert(blind_value.values@[row] == range_values(k + 1)[i]);
        assert(is_dummy.values@[row] == blind_selectors(k)[i]);
    }
    assert forall|r: int| 0 <= r < blind_stored.len() implies (#[trigger] blind_stored[r]).wf() by {
        lemma_results_reduced(
            blind_numerator(is_dummy.values@[r], blind_multiplicity.values@[r]),
            sf_inverse(relation.spec_combine(blind_value.values@[r])),
        );
    }
    lemma_stored_sum(k + 1, blind_stored, blind_listed);
    let half = pow2(k) as int;
    let upper = blind_listed.subrange(half, 2 * half);
    assert(blind_listed =~= listed + upper) by {
        assert forall|i: int| 0 <= i < half implies blind_listed[i] == listed[i] by {
            lemma_open_gate(range_multiplicities(k, uses)[i]);
            lemma_m31_of(use_count(uses, i) as int);
        }
    }
    assert forall|i: int| 0 <= i < upper.len() implies #[trigger] upper[i] == sf_zero() by {
        assert(upper[i] == blind_listed[half + i]);
        lemma_closed_gate(cells[i]);
        law_product_zero(sf_inverse(relation.spec_combine(range_values(k + 1)[half + i])));
    }
    law_sum_of_zeros(upper);
    law_sum_of_concat(listed, upper);
    lemma_sum_of_reduced(listed);
    law_sum_identity(sf_sum_of(listed));
}

/// Off the reserved keys a blinded numerator is the plain one.
proof fn lemma_open_gate(m: M31)
    requires
        m.wf(),
    ensures
        blind_numerator(M31(0), m) == provider_numerator(m),
{
    law_sum_identity(sf_one());
    assert(sf_difference(sf_one(), sf_of_base(M31(0))) == sf_one()) by {
        vstd::arithmetic::div_mod::lemma_small_mod(0, 2_147_483_647);
        vstd::arithmetic::div_mod::lemma_small_mod(1, 2_147_483_647);
    }
    law_product_identity(sf_of_base(m));
}

/// On the reserved keys a blinded numerator is zero.
proof fn lemma_closed_gate(m: M31)
    ensures
        blind_numerator(M31(1), m) == sf_zero(),
{
    assert(sf_difference(sf_one(), sf_of_base(M31(1))) == sf_zero()) by {
        reveal(crate::fields::sf_of);
        vstd::arithmetic::div_mod::lemma_small_mod(0, 2_147_483_647);
    }
    law_product_zero(sf_of_base(m));
}

/// `(a - t) + (v - s) = (a + v) - (t + s)`.
proof fn lemma_regroup(a: SecureField, t: SecureField, v: SecureField, s: SecureField)
    ensures
        sf_sum(sf_difference(a, t), sf_difference(v, s)) == sf_difference(
            sf_sum(a, v),
            sf_sum(t, s),
        ),
{
    reveal(sf_of);
    lemma_regroup_cells(a.c0.0 as int, t.c0.0 as int, v.c0.0 as int, s.c0.0 as int);
    lemma_regroup_cells(a.c1.0 as int, t.c1.0 as int, v.c1.0 as int, s.c1.0 as int);
    lemma_regroup_cells(a.c2.0 as int, t.c2.0 as int, v.c2.0 as int, s.c2.0 as int);
    lemma_regroup_cells(a.c3.0 as int, t.c3.0 as int, v.c3.0 as int, s.c3.0 as int);
}

proof fn lemma_regroup_cells(a: int, t: int, v: int, s: int)
    ensures
        m31_of(m31_of(a - t).0 + m31_of(v - s).0) == m31_of(
            m31_of(a + v).0 - m31_of(t + s).0,
        ),
{
    let p = 2_147_483_647int;
    lemma_m31_of(a - t);
    lemma_m31_of(v - s);
    lemma_m31_of(a + v);
    lemma_m31_of(t + s);
    vstd::arithmetic::div_mod::lemma_add_mod_noop(a - t, v - s, p);
    vstd::arithmetic::div_mod::lemma_sub_mod_noop(a + v, t + s, p);
}

/// Counting one more in the extension.
proof fn lemma_base_count(m: int)
    ensures
        sf_sum(sf_of_base(m31_of(m)), sf_one()) == sf_of_base(m31_of(m + 1)),
{
    reveal(sf_of);
    lemma_count_step(m);
    vstd::arithmetic::div_mod::lemma_small_mod(0, 2_147_483_647);
}

/// Taking the same shift off every value takes it off the sum as often.
proof fn lemma_sum_of_shifted(values: Seq<SecureField>, shift: SecureField)
    requires
        shift.wf(),
        forall|i: int| 0 <= i < values.len() ==> (#[trigger] values[i]).wf(),
    ensures
        sf_sum_of(values.map_values(|v: SecureField| sf_difference(v, shift)))
            == sf_difference(
            sf_sum_of(values),
            sf_product(shift, sf_of_base(m31_of(values.len() as int))),
        ),
    decreases values.len(),
{
    let shifted = values.map_values(|v: SecureField| sf_difference(v, shift));
    if values.len() == 0 {
        lemma_m31_of(0);
        vstd::arithmetic::div_mod::lemma_small_mod(0, 2_147_483_647);
        law_product_commutes(shift, sf_zero());
        law_product_zero(shift);
        assert(sf_of_base(m31_of(0)) == sf_zero());
        reveal(sf_of);
        assert(sf_difference(sf_zero(), sf_zero()) == sf_zero());
    } else {
        let front = values.drop_last();
        let m = front.len() as int;
        assert forall|i: int| 0 <= i < front.len() implies (#[trigger] front[i]).wf() by {
            assert(front[i] == values[i]);
        }
        lemma_sum_of_shifted(front, shift);
        assert(shifted.drop_last() =~= front.map_values(
            |v: SecureField| sf_difference(v, shift),
        ));
        let counted = sf_of_base(m31_of(m));
        lemma_m31_of(m);
        let t = sf_product(shift, counted);
        lemma_regroup(sf_sum_of(front), t, values.last(), shift);
        law_product_distributes(shift, counted, sf_one());
        law_product_identity(shift);
        law_product_commutes(shift, sf_one());
        lemma_base_count(m);
    }
}

/// `2^k` shifts make up the sum.
proof fn lemma_shifts_make_the_sum(sum: SecureField, k: nat)
    requires
        sum.wf(),
        1 <= k <= 31,
    ensures
        sf_product(cumsum_shift(sum, k), sf_of_base(m31_of(pow2(k) as int))) == sum,
        cumsum_shift(sum, k).wf(),
{
    let j = (31 - k) as nat;
    lemma2_to64();
    if k > 1 {
        lemma_pow2_strictly_increases(j, 30);
    }
    let inverse = M31(pow2(j) as u32);
    let rows = m31_of(pow2(k) as int);
    lemma_m31_of(pow2(k) as int);
    law_product_associates(sum, sf_of_base(inverse), sf_of_base(rows));
    // 2^j 2^k = 2^31 = 1.
    vstd::arithmetic::power2::lemma_pow2_adds(j, k);
    vstd::arithmetic::div_mod::lemma_mul_mod_noop_right(
        pow2(j) as int,
        pow2(k) as int,
        2_147_483_647,
    );
    vstd::arithmetic::div_mod::lemma_small_mod(1, 2_147_483_647);
    assert(pow2(31) as int == 0x8000_0000);
    assert(0x8000_0000int % 2_147_483_647 == 1);
    crate::range_checks::component::lemma_base_product(inverse, rows);
    assert(m31_of(inverse.0 * rows.0) == M31(1));
    law_product_identity(sum);
    law_product_commutes(sum, sf_one());
    lemma_results_reduced(sum, sf_of_base(inverse));
}

/// Law: an interaction column closes: the running sum of the shifted fractions
/// is zero after the last row.
pub proof fn law_running_sums_close(fractions: Seq<LogupFraction>, k: nat)
    requires
        1 <= k <= 31,
        fractions.len() == pow2(k),
    ensures
        ({
            let sum = sf_sum_of(fraction_values(fractions));
            running_sums(shifted_terms(fractions, sum, k))[pow2(k) - 1] == sf_zero()
        }),
{
    let values = fraction_values(fractions);
    let sum = sf_sum_of(values);
    let shift = cumsum_shift(sum, k);
    let terms = shifted_terms(fractions, sum, k);
    vstd::arithmetic::power2::lemma_pow2_pos(k);
    lemma_sum_of_reduced(values);
    lemma_shifts_make_the_sum(sum, k);
    assert forall|i: int| 0 <= i < values.len() implies (#[trigger] values[i]).wf() by {
        let f = fractions[i];
        lemma_results_reduced(f.numerator, sf_inverse(f.denominator));
    }
    lemma_sum_of_shifted(values, shift);
    assert(terms =~= values.map_values(|v: SecureField| sf_difference(v, shift)));
    assert(terms.take(pow2(k) as int) =~= terms);
    reveal(sf_of);
    vstd::arithmetic::div_mod::lemma_small_mod(0, 2_147_483_647);
    assert(sf_difference(sum, sum) == sf_zero());
}

} // verus!
