//! Constraint side of the range-check providers: what each row emits.
use crate::fields::{
    law_product_identity, law_product_zero, sf_difference, sf_of_base, sf_one, sf_product, sf_zero,
    SecureField, M31,
};
use crate::range_checks::interaction::{blind_numerator, provider_numerator, LogupFraction};
use crate::range_checks::trace::{carry_actives, carry_multiplicities, SignedCarryRangeClaim};
use crate::range_checks::{
    range_check_dummy_column_id, range_check_value_column_id, range_dummy_name, range_value_name,
    signed_carry_active_column_id, signed_carry_active_name, signed_carry_value_column_id,
    signed_carry_value_name, PreProcessedColumnId, RangeCheckRelation,
};
use vstd::prelude::*;

verus! {

/// Provider of the range table `0..2^log_size`.
///
/// The value column must hold `[0, 1, ..., 2^log_size - 1]`; the component does
/// not constrain the table contents.
#[derive(Clone, Copy, Debug)]
pub struct RangeCheckEval {
    pub relation: RangeCheckRelation,
    pub log_size: u32,
}

impl RangeCheckEval {
    pub fn new(relation: RangeCheckRelation, log_size: u32) -> (r: RangeCheckEval)
        ensures
            r.relation == relation,
            r.log_size == log_size,
    {
        RangeCheckEval { relation, log_size }
    }

    pub fn log_size(&self) -> (r: u32)
        ensures
            r == self.log_size,
    {
        self.log_size
    }

    pub fn max_constraint_log_degree_bound(&self) -> (r: u32)
        requires
            self.log_size < u32::MAX,
        ensures
            r == self.log_size + 1,
    {
        self.log_size + 1
    }

    /// The preprocessed column that a row reads.
    pub fn value_column_id(&self) -> (r: PreProcessedColumnId)
        ensures
            r.id@ == range_value_name(self.log_size as nat),
    {
        range_check_value_column_id(self.log_size)
    }

    /// The fraction of a row: `-multiplicity / (value - z)`.
    pub fn row_fraction(&self, value: M31, multiplicity: M31) -> (r: LogupFraction)
        requires
            self.relation.wf(),
            value.wf(),
            multiplicity.wf(),
        ensures
            r.numerator == provider_numerator(multiplicity),
            r.denominator == self.relation.spec_combine(value),
    {
        LogupFraction {
            numerator: SecureField::from_base(multiplicity).negated(),
            denominator: self.relation.combine(value),
        }
    }
}

/// Provider of a range table with blinded multiplicities.
///
/// The committed domain is one bit larger than the table. Its lower half holds
/// the real range and its upper half reserved keys, which a preprocessed
/// selector marks. A row emits `-(1 - is_dummy) * multiplicity`, so the blind
/// cells over the reserved keys do not reach the balance.
#[derive(Clone, Debug)]
pub struct BlindRangeCheckEval {
    pub relation: RangeCheckRelation,
    /// Width of the real table.
    pub real_log_size: u32,
    pub value_id: PreProcessedColumnId,
    pub dummy_id: PreProcessedColumnId,
}

impl BlindRangeCheckEval {
    pub fn new(relation: RangeCheckRelation, real_log_size: u32) -> (r: BlindRangeCheckEval)
        ensures
            r.relation == relation,
            r.real_log_size == real_log_size,
            r.value_id.id@ == range_value_name(real_log_size as nat),
            r.dummy_id.id@ == range_dummy_name(real_log_size as nat),
    {
        BlindRangeCheckEval {
            relation,
            real_log_size,
            value_id: range_check_value_column_id(real_log_size),
            dummy_id: range_check_dummy_column_id(real_log_size),
        }
    }

    pub fn log_size(&self) -> (r: u32)
        requires
            self.real_log_size < u32::MAX,
        ensures
            r == self.real_log_size + 1,
    {
        self.real_log_size + 1
    }

    pub fn max_constraint_log_degree_bound(&self) -> (r: u32)
        requires
            self.real_log_size < u32::MAX - 1,
        ensures
            r == self.real_log_size + 2,
    {
        self.real_log_size + 2
    }

    /// The fraction of a row: `-(1 - is_dummy) multiplicity / (value - z)`.
    pub fn row_fraction(&self, value: M31, is_dummy: M31, multiplicity: M31) -> (r: LogupFraction)
        requires
            self.relation.wf(),
            value.wf(),
            is_dummy.wf(),
            multiplicity.wf(),
        ensures
            r.numerator == blind_numerator(is_dummy, multiplicity),
            r.denominator == self.relation.spec_combine(value),
    {
        let gate: SecureField = SecureField::one().minus(SecureField::from_base(is_dummy));
        LogupFraction {
            numerator: gate.times(SecureField::from_base(multiplicity)).negated(),
            denominator: self.relation.combine(value),
        }
    }
}

/// Provider of a centered signed-carry table padded to a power of two.
#[derive(Clone, Debug)]
pub struct SignedCarryRangeEval {
    pub relation: RangeCheckRelation,
    pub log_size: u32,
    pub equation_name: String,
}

/// `active * (active - 1)`: zero where `active` is boolean.
pub open spec fn boolean_constraint(active: M31) -> SecureField {
    sf_product(sf_of_base(active), sf_difference(sf_of_base(active), sf_one()))
}

/// `(1 - active) * multiplicity`: zero where padding provides nothing.
pub open spec fn padding_constraint(active: M31, multiplicity: M31) -> SecureField {
    sf_product(sf_difference(sf_one(), sf_of_base(active)), sf_of_base(multiplicity))
}

impl SignedCarryRangeEval {
    pub fn new(relation: RangeCheckRelation, log_size: u32, equation_name: &str) -> (r:
        SignedCarryRangeEval)
        ensures
            r.relation == relation,
            r.log_size == log_size,
            r.equation_name@ == equation_name@,
    {
        SignedCarryRangeEval { relation, log_size, equation_name: equation_name.to_owned() }
    }

    pub fn log_size(&self) -> (r: u32)
        ensures
            r == self.log_size,
    {
        self.log_size
    }

    pub fn max_constraint_log_degree_bound(&self) -> (r: u32)
        requires
            self.log_size < u32::MAX,
        ensures
            r == self.log_size + 1,
    {
        self.log_size + 1
    }

    pub fn value_column_id(&self) -> (r: PreProcessedColumnId)
        ensures
            r.id@ == signed_carry_value_name(self.equation_name@),
    {
        signed_carry_value_column_id(self.equation_name.as_str())
    }

    pub fn active_column_id(&self) -> (r: PreProcessedColumnId)
        ensures
            r.id@ == signed_carry_active_name(self.equation_name@),
    {
        signed_carry_active_column_id(self.equation_name.as_str())
    }

    /// The two constraints of a row; both must be zero.
    pub fn row_constraints(&self, active: M31, multiplicity: M31) -> (r: (SecureField, SecureField))
        requires
            active.wf(),
            multiplicity.wf(),
        ensures
            r.0 == boolean_constraint(active),
            r.1 == padding_constraint(active, multiplicity),
    {
        let a: SecureField = SecureField::from_base(active);
        let one: SecureField = SecureField::one();
        (a.times(a.minus(one)), one.minus(a).times(SecureField::from_base(multiplicity)))
    }

    /// The fraction of a row: `-multiplicity / (value - z)`.
    pub fn row_fraction(&self, value: M31, multiplicity: M31) -> (r: LogupFraction)
        requires
            self.relation.wf(),
            value.wf(),
            multiplicity.wf(),
        ensures
            r.numerator == provider_numerator(multiplicity),
            r.denominator == self.relation.spec_combine(value),
    {
        LogupFraction {
            numerator: SecureField::from_base(multiplicity).negated(),
            denominator: self.relation.combine(value),
        }
    }
}

/// One use of a range check at `value`, weighted by `gate`.
pub fn add_range_check(relation: &RangeCheckRelation, gate: M31, value: M31) -> (r: LogupFraction)
    requires
        relation.wf(),
        value.wf(),
    ensures
        r.numerator == sf_of_base(gate),
        r.denominator == relation.spec_combine(value),
{
    LogupFraction { numerator: SecureField::from_base(gate), denominator: relation.combine(value) }
}

/// Law: the generated columns of a signed-carry table satisfy both constraints
/// in every row.
pub proof fn law_signed_carry_rows_satisfy_constraints(
    claim: SignedCarryRangeClaim,
    uses: Seq<i64>,
    row: int,
)
    requires
        claim.wf(),
        0 <= row < vstd::arithmetic::power2::pow2(claim.log_size as nat),
    ensures
        boolean_constraint(carry_actives(claim.log_size as nat, claim.bound as int)[row])
            == sf_zero(),
        padding_constraint(
            carry_actives(claim.log_size as nat, claim.bound as int)[row],
            carry_multiplicities(claim.log_size as nat, claim.bound as int, uses)[row],
        ) == sf_zero(),
{
    reveal(crate::fields::sf_of);
    let m = carry_multiplicities(claim.log_size as nat, claim.bound as int, uses)[row];
    vstd::arithmetic::div_mod::lemma_small_mod(0, 2_147_483_647);
    assert(sf_difference(sf_one(), sf_one()) == sf_zero());
    law_product_zero(sf_one());
    law_product_zero(sf_of_base(m));
    law_product_zero(sf_difference(sf_zero(), sf_one()));
    law_product_zero(sf_difference(sf_one(), sf_zero()));
}

/// Law: a row whose selector is one provides any multiplicity, and a row whose
/// selector is zero passes only with multiplicity zero.
pub proof fn law_padding_provides_nothing(multiplicity: M31)
    requires
        multiplicity.wf(),
    ensures
        padding_constraint(M31(1), multiplicity) == sf_zero(),
        padding_constraint(M31(0), multiplicity) == sf_zero() <==> multiplicity == M31(0),
{
    reveal(crate::fields::sf_of);
    vstd::arithmetic::div_mod::lemma_small_mod(0, 2_147_483_647);
    vstd::arithmetic::div_mod::lemma_small_mod(1, 2_147_483_647);
    assert(sf_difference(sf_one(), sf_one()) == sf_zero());
    assert(sf_difference(sf_one(), sf_of_base(M31(0))) == sf_one());
    law_product_zero(sf_of_base(multiplicity));
    law_product_identity(sf_of_base(multiplicity));
}

/// Law: the boolean constraint vanishes for zero and one only.
pub proof fn law_boolean_constraint_admits_bits_only(active: M31)
    requires
        active.wf(),
    ensures
        boolean_constraint(active) == sf_zero() <==> active.0 <= 1,
{
    reveal(crate::fields::sf_of);
    let p = 2_147_483_647int;
    let a = active.0 as int;
    let b = (a - 1) % p;
    vstd::arithmetic::div_mod::lemma_mod_bound(a - 1, p);
    vstd::arithmetic::div_mod::lemma_small_mod(0, p as nat);
    let less = sf_difference(sf_of_base(active), sf_one());
    assert(less.c0.0 == b && less.c1.0 == 0 && less.c2.0 == 0 && less.c3.0 == 0);
    let r = boolean_constraint(active);
    assert(r.c0.0 == (a * b) % p && r.c1.0 == 0 && r.c2.0 == 0 && r.c3.0 == 0) by {
        lemma_base_product(active, less.c0);
    }
    if r == sf_zero() {
        crate::primes::small::lemma_prime_2147483647();
        crate::primes::lemma_prime_factor(a, b, p);
        if a % p == 0 {
            vstd::arithmetic::div_mod::lemma_small_mod(a as nat, p as nat);
        } else {
            vstd::arithmetic::div_mod::lemma_small_mod(b as nat, p as nat);
            if a >= 1 {
                vstd::arithmetic::div_mod::lemma_small_mod((a - 1) as nat, p as nat);
            }
        }
    }
    if a == 0 {
        assert(a * b == 0) by (nonlinear_arith)
            requires
                a == 0,
        ;
    }
    if a == 1 {
        assert(b == 0);
        assert(a * b == 0) by (nonlinear_arith)
            requires
                b == 0,
        ;
    }
}

/// The product of two base elements is a base element.
pub proof fn lemma_base_product(a: M31, b: M31)
    ensures
        sf_product(sf_of_base(a), sf_of_base(b)) == sf_of_base(
            crate::fields::m31_of(a.0 * b.0),
        ),
{
    reveal(crate::fields::sf_of);
    reveal(crate::fields::pair_mul);
    let (x, y) = (a.0 as int, b.0 as int);
    assert(x * 0 == 0 && 0 * y == 0 && 0 * 0 == 0) by (nonlinear_arith);
    vstd::arithmetic::div_mod::lemma_small_mod(0, 2_147_483_647);
}

} // verus!
