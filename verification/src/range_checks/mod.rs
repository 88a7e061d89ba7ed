//! Range-check LogUp providers.
//!
//! Every range table shares one relation type, but each table draws its own
//! instance from the transcript. Independent randomness keeps the tables
//! apart: a use against one instance is balanced only by a provide against the
//! same instance.
//!
//! - [`component`]: what each provider emits per row.
//! - [`trace`]: preprocessed and multiplicity columns.
//! - [`interaction`]: the fractions of a provider and its claimed sum.
pub mod component;
pub mod interaction;
pub mod trace;

use crate::fields::{
    lemma_inverse_unique, qm31_batch_inverse, sf_difference, sf_inverse, sf_is_inverse, sf_of_base,
    sf_sum_of, sf_zero, SecureField, M31,
};
use crate::transcript::{blake2s_felt, felt_of, Transcript, MAX_DRAW_BLOCKS};
use vstd::prelude::*;

verus! {

pub const RANGE13_BITS: u32 = 13;

pub const RANGE16_BITS: u32 = 16;

pub const RANGE11_BITS: u32 = 11;

pub const RANGE9_BITS: u32 = 9;

pub const RANGE7_BITS: u32 = 7;

/// Mersenne-31 modulus `2^31 - 1`.
pub const M31_MODULUS_I64: i64 = 2_147_483_647;

/// Largest absolute carry with a centered encoding.
pub const M31_HALF: i64 = 1_073_741_823;

/// Largest table size: `2^31` rows would need a value outside the field.
pub const MAX_LOG_SIZE: u32 = 30;

/// Identifier of a preprocessed column.
#[derive(Clone, Debug, PartialEq, Eq)]
pub struct PreProcessedColumnId {
    pub id: String,
}

impl PreProcessedColumnId {
    /// Another handle on the same column.
    pub fn duplicate(&self) -> (r: PreProcessedColumnId)
        ensures
            r.id@ == self.id@,
    {
        PreProcessedColumnId { id: self.id.clone() }
    }

    /// Whether both name the same column.
    pub fn same(&self, other: &PreProcessedColumnId) -> (r: bool)
        ensures
            r == (self.id@ == other.id@),
    {
        self.id == other.id
    }
}

/// The character of a decimal digit.
pub open spec fn digit_char(d: int) -> char {
    if d == 0 {
        '0'
    } else if d == 1 {
        '1'
    } else if d == 2 {
        '2'
    } else if d == 3 {
        '3'
    } else if d == 4 {
        '4'
    } else if d == 5 {
        '5'
    } else if d == 6 {
        '6'
    } else if d == 7 {
        '7'
    } else if d == 8 {
        '8'
    } else {
        '9'
    }
}

/// Decimal notation of a number, without leading zeros.
pub open spec fn decimal(n: nat) -> Seq<char>
    decreases n,
{
    if n < 10 {
        seq![digit_char(n as int)]
    } else {
        decimal(n / 10).push(digit_char((n % 10) as int))
    }
}

/// Appends one decimal digit.
fn append_digit(out: &mut String, d: u64)
    requires
        d < 10,
    ensures
        final(out)@ == old(out)@.push(digit_char(d as int)),
{
    proof {
        reveal_strlit("0");
        reveal_strlit("1");
        reveal_strlit("2");
        reveal_strlit("3");
        reveal_strlit("4");
        reveal_strlit("5");
        reveal_strlit("6");
        reveal_strlit("7");
        reveal_strlit("8");
        reveal_strlit("9");
    }
    let ghost before = out@;
    if d == 0 {
        out.append("0");
    } else if d == 1 {
        out.append("1");
    } else if d == 2 {
        out.append("2");
    } else if d == 3 {
        out.append("3");
    } else if d == 4 {
        out.append("4");
    } else if d == 5 {
        out.append("5");
    } else if d == 6 {
        out.append("6");
    } else if d == 7 {
        out.append("7");
    } else if d == 8 {
        out.append("8");
    } else {
        out.append("9");
    }
    assert(out@ =~= before.push(digit_char(d as int)));
}

/// Appends a number in decimal notation.
pub(crate) fn append_decimal(out: &mut String, n: u64)
    ensures
        final(out)@ == old(out)@ + decimal(n as nat),
    decreases n,
{
    let ghost before = out@;
    if n >= 10 {
        append_decimal(out, n / 10);
    }
    append_digit(out, n % 10);
    assert(out@ =~= before + decimal(n as nat));
}

/// Name of the value column of the table with `2^log_size` rows.
pub open spec fn range_value_name(log_size: nat) -> Seq<char> {
    "p256_range"@ + decimal(log_size) + "_value"@
}

/// Name of the dummy selector of the blinded table over `2^log_size` values.
pub open spec fn range_dummy_name(log_size: nat) -> Seq<char> {
    "p256_range"@ + decimal(log_size) + "_dummy"@
}

pub open spec fn signed_carry_value_name(equation_name: Seq<char>) -> Seq<char> {
    "p256_signed_carry_"@ + equation_name + "_value"@
}

pub open spec fn signed_carry_active_name(equation_name: Seq<char>) -> Seq<char> {
    "p256_signed_carry_"@ + equation_name + "_active"@
}

pub fn range_check_value_column_id(log_size: u32) -> (r: PreProcessedColumnId)
    ensures
        r.id@ == range_value_name(log_size as nat),
{
    let mut id: String = "p256_range".to_owned();
    append_decimal(&mut id, log_size as u64);
    id.append("_value");
    PreProcessedColumnId { id }
}

pub fn range_check_dummy_column_id(log_size: u32) -> (r: PreProcessedColumnId)
    ensures
        r.id@ == range_dummy_name(log_size as nat),
{
    let mut id: String = "p256_range".to_owned();
    append_decimal(&mut id, log_size as u64);
    id.append("_dummy");
    PreProcessedColumnId { id }
}

pub fn signed_carry_value_column_id(equation_name: &str) -> (r: PreProcessedColumnId)
    ensures
        r.id@ == signed_carry_value_name(equation_name@),
{
    let mut id: String = "p256_signed_carry_".to_owned();
    id.append(equation_name);
    id.append("_value");
    PreProcessedColumnId { id }
}

pub fn signed_carry_active_column_id(equation_name: &str) -> (r: PreProcessedColumnId)
    ensures
        r.id@ == signed_carry_active_name(equation_name@),
{
    let mut id: String = "p256_signed_carry_".to_owned();
    id.append(equation_name);
    id.append("_active");
    PreProcessedColumnId { id }
}

/// The centered encoding of a signed carry: the representative of `carry`
/// modulo `2^31 - 1`.
pub open spec fn encoded_carry(carry: int) -> M31 {
    crate::fields::m31_of(carry)
}

/// Centered encoding of a signed carry with `|carry| <= M31_HALF`.
pub fn encode_signed_carry(carry: i64) -> (r: M31)
    requires
        -M31_HALF <= carry <= M31_HALF,
    ensures
        r == encoded_carry(carry as int),
        r.wf(),
{
    let encoded: u32 = if carry >= 0 {
        proof {
            vstd::arithmetic::div_mod::lemma_small_mod(carry as nat, 2_147_483_647);
        }
        carry as u32
    } else {
        proof {
            vstd::arithmetic::div_mod::lemma_fundamental_div_mod_converse(
                carry as int,
                2_147_483_647,
                -1,
                2_147_483_647 + carry,
            );
        }
        (M31_MODULUS_I64 + carry) as u32
    };
    M31::from_u32_unchecked(encoded)
}

/// The carry that an encoding stands for: elements of the upper half are
/// negative.
pub open spec fn decoded_carry(value: M31) -> int {
    if value.0 * 2 <= 2_147_483_647 {
        value.0 as int
    } else {
        value.0 - 2_147_483_647
    }
}

/// Inverse of the centered encoding.
pub fn decode_signed_carry(value: M31) -> (r: i64)
    ensures
        r == decoded_carry(value),
{
    let v: i64 = value.0 as i64;
    if v * 2 <= M31_MODULUS_I64 {
        v
    } else {
        v - M31_MODULUS_I64
    }
}

/// Law: decoding undoes encoding on the centered range.
pub proof fn law_carry_round_trips(carry: int)
    requires
        -M31_HALF <= carry <= M31_HALF,
    ensures
        decoded_carry(encoded_carry(carry)) == carry,
{
    if carry >= 0 {
        vstd::arithmetic::div_mod::lemma_small_mod(carry as nat, 2_147_483_647);
    } else {
        vstd::arithmetic::div_mod::lemma_fundamental_div_mod_converse(
            carry,
            2_147_483_647,
            -1,
            2_147_483_647 + carry,
        );
    }
}

/// Law: encoding undoes decoding on reduced elements, and what is decoded lies
/// in the centered range.
pub proof fn law_carry_decodes_into_range(value: M31)
    requires
        value.wf(),
    ensures
        -M31_HALF <= decoded_carry(value) <= M31_HALF,
        encoded_carry(decoded_carry(value)) == value,
{
    if value.0 * 2 <= 2_147_483_647 {
        vstd::arithmetic::div_mod::lemma_small_mod(value.0 as nat, 2_147_483_647);
    } else {
        vstd::arithmetic::div_mod::lemma_fundamental_div_mod_converse(
            value.0 - 2_147_483_647,
            2_147_483_647,
            -1,
            value.0 as int,
        );
    }
}

/// The random elements of one range-check relation instance.
#[derive(Clone, Copy, Debug, PartialEq, Eq, Structural)]
pub struct RangeCheckRelation {
    pub z: SecureField,
    pub alpha: SecureField,
}

impl RangeCheckRelation {
    pub open spec fn wf(self) -> bool {
        self.z.wf() && self.alpha.wf()
    }

    /// The denominator of a lookup of `value`: `value - z`.
    pub open spec fn spec_combine(self, value: M31) -> SecureField {
        sf_difference(sf_of_base(value), self.z)
    }

    /// The fixed instance used for sizing.
    pub fn dummy() -> (r: RangeCheckRelation)
        ensures
            r.z == (SecureField { c0: M31(1), c1: M31(2), c2: M31(3), c3: M31(4) }),
            r.alpha == (SecureField { c0: M31(4), c1: M31(3), c2: M31(2), c3: M31(1) }),
            r.wf(),
    {
        let (z, alpha) = dummy_lookup_elements();
        RangeCheckRelation { z, alpha }
    }

    /// Draws a fresh instance from the transcript.
    pub fn draw(channel: &mut Transcript) -> (r: RangeCheckRelation)
        requires
            old(channel).blocks < MAX_DRAW_BLOCKS,
        ensures
            r.z == felt_of(blake2s_felt(old(channel).digest@, (2 * old(channel).blocks) as nat)),
            r.alpha == felt_of(
                blake2s_felt(old(channel).digest@, (2 * old(channel).blocks + 1) as nat),
            ),
            r.wf(),
            final(channel).digest@ == old(channel).digest@,
            final(channel).blocks == old(channel).blocks + 1,
    {
        let (z, alpha) = channel.draw_pair();
        RangeCheckRelation { z, alpha }
    }

    /// The denominator of a lookup of `value`.
    pub fn combine(&self, value: M31) -> (r: SecureField)
        requires
            self.wf(),
            value.wf(),
        ensures
            r == self.spec_combine(value),
            r.wf(),
    {
        SecureField::from_base(value).minus(self.z)
    }
}

/// `LookupElements::dummy` of the constraint framework: `z = (1, 2, 3, 4)` and
/// `alpha = (4, 3, 2, 1)`.
#[verifier::external_body]
pub(crate) fn dummy_lookup_elements() -> (r: (SecureField, SecureField))
    ensures
        r.0 == (SecureField { c0: M31(1), c1: M31(2), c2: M31(3), c3: M31(4) }),
        r.1 == (SecureField { c0: M31(4), c1: M31(3), c2: M31(2), c3: M31(1) }),
{
    let e = stwo_constraint_framework::logup::LookupElements::<1>::dummy();
    let [a, b, c, d] = e.z.to_m31_array();
    let [p, q, r, s] = e.alpha.to_m31_array();
    (
        SecureField { c0: M31(a.0), c1: M31(b.0), c2: M31(c.0), c3: M31(d.0) },
        SecureField { c0: M31(p.0), c1: M31(q.0), c2: M31(r.0), c3: M31(s.0) },
    )
}

/// Sum of `1 / denominator` over the denominators, with one batch inversion.
pub fn batched_inverse_sum(denominators: &Vec<SecureField>) -> (r: SecureField)
    requires
        forall|i: int|
            0 <= i < denominators@.len() ==> (#[trigger] denominators@[i]).wf() && denominators@[i]
                != sf_zero(),
    ensures
        r == sf_sum_of(denominators@.map_values(|d: SecureField| sf_inverse(d))),
        r.wf(),
{
    let inverses: Vec<SecureField> = qm31_batch_inverse(denominators);
    let ghost expected = denominators@.map_values(|d: SecureField| sf_inverse(d));
    let mut sum: SecureField = SecureField::zero();
    let mut i: usize = 0;
    while i < inverses.len()
        invariant
            i <= inverses@.len(),
            inverses@.len() == denominators@.len(),
            expected == denominators@.map_values(|d: SecureField| sf_inverse(d)),
            forall|k: int|
                0 <= k < inverses@.len() ==> sf_is_inverse(denominators@[k], #[trigger] inverses@[k]),
            forall|k: int| 0 <= k < denominators@.len() ==> (#[trigger] denominators@[k]).wf(),
            sum.wf(),
            sum == sf_sum_of(expected.take(i as int)),
        decreases inverses@.len() - i,
    {
        proof {
            assert(sf_is_inverse(denominators@[i as int], inverses@[i as int]));
            lemma_inverse_unique(denominators@[i as int], inverses@[i as int]);
            assert(expected.take(i + 1).drop_last() =~= expected.take(i as int));
            assert(expected.take(i + 1).last() == inverses@[i as int]);
        }
        sum = sum.plus(inverses[i]);
        i = i + 1;
    }
    proof {
        assert(expected.take(i as int) =~= expected);
    }
    sum
}

/// Decimal notation determines the number.
proof fn lemma_decimal_injective(a: nat, b: nat)
    requires
        decimal(a) == decimal(b),
    ensures
        a == b,
    decreases a,
{
    let (s, t) = (decimal(a), decimal(b));
    lemma_decimal_nonempty(a / 10);
    lemma_decimal_nonempty(b / 10);
    assert(s.last() == digit_char((a % 10) as int));
    assert(t.last() == digit_char((b % 10) as int));
    assert(a % 10 == b % 10);
    if a >= 10 && b >= 10 {
        assert(s.drop_last() =~= decimal(a / 10));
        assert(t.drop_last() =~= decimal(b / 10));
        lemma_decimal_injective(a / 10, b / 10);
    } else if a >= 10 {
        assert(s.len() >= 2 && t.len() == 1);
    } else if b >= 10 {
        assert(t.len() >= 2 && s.len() == 1);
    }
}

proof fn lemma_decimal_nonempty(a: nat)
    ensures
        decimal(a).len() >= 1,
    decreases a,
{
    if a >= 10 {
        lemma_decimal_nonempty(a / 10);
    }
}

/// A common prefix and suffix can be cancelled.
proof fn lemma_cancel_affixes(p: Seq<char>, a: Seq<char>, b: Seq<char>, s: Seq<char>)
    requires
        p + a + s == p + b + s,
    ensures
        a == b,
{
    let (x, y) = (p + a + s, p + b + s);
    assert(x.len() == p.len() + a.len() + s.len());
    assert(y.len() == p.len() + b.len() + s.len());
    assert(x.subrange(p.len() as int, (p.len() + a.len()) as int) =~= a);
    assert(y.subrange(p.len() as int, (p.len() + a.len()) as int) =~= b);
}

/// Law: tables of different sizes have different value columns.
pub proof fn law_range_value_names_distinct(a: nat, b: nat)
    ensures
        range_value_name(a) == range_value_name(b) <==> a == b,
{
    if range_value_name(a) == range_value_name(b) {
        lemma_cancel_affixes("p256_range"@, decimal(a), decimal(b), "_value"@);
        lemma_decimal_injective(a, b);
    }
}

/// Law: value columns of different equations are different, and so are their
/// active columns; no value column is an active column.
pub proof fn law_signed_carry_names_distinct(a: Seq<char>, b: Seq<char>)
    ensures
        signed_carry_value_name(a) == signed_carry_value_name(b) <==> a == b,
        signed_carry_active_name(a) == signed_carry_active_name(b) <==> a == b,
        signed_carry_value_name(a) != signed_carry_active_name(b),
{
    if signed_carry_value_name(a) == signed_carry_value_name(b) {
        lemma_cancel_affixes("p256_signed_carry_"@, a, b, "_value"@);
    }
    if signed_carry_active_name(a) == signed_carry_active_name(b) {
        lemma_cancel_affixes("p256_signed_carry_"@, a, b, "_active"@);
    }
    let (x, y) = (signed_carry_value_name(a), signed_carry_active_name(b));
    reveal_strlit("_value");
    reveal_strlit("_active");
    assert(x[x.len() - 2] == 'u');
    assert(y[y.len() - 2] == 'v');
}

/// Law: a range table and a signed-carry table never share a column, and the
/// dummy selector of a table is not its value column.
pub proof fn law_families_distinct(a: nat, b: nat, equation_name: Seq<char>)
    ensures
        range_value_name(a) != signed_carry_value_name(equation_name),
        range_value_name(a) != signed_carry_active_name(equation_name),
        range_dummy_name(a) != signed_carry_value_name(equation_name),
        range_dummy_name(a) != signed_carry_active_name(equation_name),
        range_value_name(a) != range_dummy_name(b),
{
    reveal_strlit("p256_range");
    reveal_strlit("p256_signed_carry_");
    reveal_strlit("_value");
    reveal_strlit("_dummy");
    assert(range_value_name(a)[5] == 'r');
    assert(range_dummy_name(a)[5] == 'r');
    assert(signed_carry_value_name(equation_name)[5] == 's');
    assert(signed_carry_active_name(equation_name)[5] == 's');
    let (x, y) = (range_value_name(a), range_dummy_name(b));
    assert(x[x.len() - 1] == 'e');
    assert(y[y.len() - 1] == 'y');
}

} // verus!
