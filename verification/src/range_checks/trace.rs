//! Columns of the range-check providers.
use crate::fields::{lemma_m31_of, m31_of, m31_sum, M31};
use crate::range_checks::{encode_signed_carry, encoded_carry, M31_HALF, MAX_LOG_SIZE};
use crate::transcript::{absorb_words, Transcript};
use vstd::arithmetic::power2::{
    lemma2_to64, lemma_pow2_pos, lemma_pow2_strictly_increases, lemma_pow2_unfold, pow2,
};
use vstd::prelude::*;

verus! {

/// A domain of `2^k` points can be indexed on this machine.
pub open spec fn indexable(k: nat) -> bool {
    k <= 31 && 2 * pow2(k) <= usize::MAX
}

/// Up to `2^30` points can be indexed on every machine.
pub proof fn lemma_indexable(k: nat)
    requires
        k <= 30,
    ensures
        indexable(k),
{
    lemma2_to64();
    if k < 30 {
        lemma_pow2_strictly_increases(k, 30);
    }
}

/// The `k` low bits of `i` in reverse order.
pub open spec fn bit_reversed(i: nat, k: nat) -> nat
    decreases k,
{
    if k == 0 {
        0
    } else {
        (i % 2) * pow2((k - 1) as nat) + bit_reversed(i / 2, (k - 1) as nat)
    }
}

/// Position in circle-domain order of the point at a position in coset order:
/// even positions first, then the odd ones backwards.
pub open spec fn circle_position(i: nat, k: nat) -> nat {
    if i % 2 == 0 {
        i / 2
    } else {
        ((2 * pow2(k) - i) / 2) as nat
    }
}

/// Inverse of `circle_position`.
pub open spec fn coset_position(c: nat, k: nat) -> nat {
    if 2 * c < pow2(k) {
        2 * c
    } else {
        (2 * (pow2(k) - 1 - c) + 1) as nat
    }
}

/// Row that stores the value at a position in coset order.
pub open spec fn stored_row(i: nat, k: nat) -> nat {
    bit_reversed(circle_position(i, k), k)
}

/// Position in coset order of the value that a row stores.
pub open spec fn row_position(row: nat, k: nat) -> nat {
    coset_position(bit_reversed(row, k), k)
}

/// `stwo`'s bit reversal of an index below `2^log_size`: its `log_size` bits in
/// reverse order.
pub assume_specification[ stwo::core::utils::bit_reverse_index ](
    i: usize,
    log_size: u32,
) -> (r: usize)
    requires
        indexable(log_size as nat),
        i < pow2(log_size as nat),
    ensures
        r == bit_reversed(i as nat, log_size as nat),
;

/// `stwo`'s position in circle-domain order of an index below `2^log_size` in
/// coset order.
pub assume_specification[ stwo::core::utils::coset_index_to_circle_domain_index ](
    coset_index: usize,
    log_domain_size: u32,
) -> (r: usize)
    requires
        indexable(log_domain_size as nat),
        coset_index < pow2(log_domain_size as nat),
    ensures
        r == circle_position(coset_index as nat, log_domain_size as nat),
;

pub proof fn lemma_bit_reversed_bound(i: nat, k: nat)
    ensures
        bit_reversed(i, k) < pow2(k),
    decreases k,
{
    lemma_pow2_pos(k);
    if k > 0 {
        lemma_bit_reversed_bound(i / 2, (k - 1) as nat);
        lemma_pow2_unfold(k);
        let p = pow2((k - 1) as nat) as int;
        let b = (i % 2) as int;
        assert(b * p <= p) by (nonlinear_arith)
            requires
                0 <= b <= 1,
                p >= 0,
        ;
    }
}

/// Reversal seen from the top bit.
pub proof fn lemma_bit_reversed_top(low: nat, top: nat, k: nat)
    requires
        k >= 1,
        low < pow2((k - 1) as nat),
        top <= 1,
    ensures
        bit_reversed(top * pow2((k - 1) as nat) + low, k) == 2 * bit_reversed(low, (k - 1) as nat)
            + top,
    decreases k,
{
    let p = pow2((k - 1) as nat);
    let i = top * p + low;
    if k == 1 {
        lemma2_to64();
        assert(p == 1 && low == 0 && i == top);
        reveal_with_fuel(bit_reversed, 2);
        assert((i % 2) * pow2(0) == i % 2);
    } else {
        let q = pow2((k - 2) as nat);
        lemma_pow2_unfold((k - 1) as nat);
        assert(p == 2 * q);
        assert(top * p == 2 * (top * q)) by (nonlinear_arith)
            requires
                p == 2 * q,
        ;
        assert(i % 2 == low % 2);
        assert(i / 2 == top * q + low / 2);
        lemma_bit_reversed_top(low / 2, top, (k - 1) as nat);
        let b = low % 2;
        assert(2 * (b * q) == b * p) by (nonlinear_arith)
            requires
                p == 2 * q,
        ;
    }
}

/// Law: reversing the bits twice gives the index back.
pub proof fn law_bit_reversal_is_an_involution(i: nat, k: nat)
    requires
        i < pow2(k),
    ensures
        bit_reversed(bit_reversed(i, k), k) == i,
    decreases k,
{
    lemma2_to64();
    if k > 0 {
        lemma_pow2_unfold(k);
        law_bit_reversal_is_an_involution(i / 2, (k - 1) as nat);
        lemma_bit_reversed_bound(i / 2, (k - 1) as nat);
        lemma_bit_reversed_top(bit_reversed(i / 2, (k - 1) as nat), i % 2, k);
    }
}

pub proof fn lemma_circle_position(i: nat, k: nat)
    requires
        k >= 1,
        i < pow2(k),
    ensures
        circle_position(i, k) < pow2(k),
        coset_position(circle_position(i, k), k) == i,
{
    lemma_pow2_unfold(k);
}

proof fn lemma_coset_position(c: nat, k: nat)
    requires
        k >= 1,
        c < pow2(k),
    ensures
        coset_position(c, k) < pow2(k),
        circle_position(coset_position(c, k), k) == c,
{
    lemma_pow2_unfold(k);
}

/// Law: the storage order is a permutation: rows and positions determine each
/// other.
pub proof fn law_storage_order_is_a_permutation(k: nat)
    requires
        k >= 1,
    ensures
        forall|i: nat|
            i < pow2(k) ==> #[trigger] stored_row(i, k) < pow2(k) && row_position(
                stored_row(i, k),
                k,
            ) == i,
        forall|row: nat|
            row < pow2(k) ==> #[trigger] row_position(row, k) < pow2(k) && stored_row(
                row_position(row, k),
                k,
            ) == row,
{
    assert forall|i: nat| i < pow2(k) implies #[trigger] stored_row(i, k) < pow2(k) && row_position(
        stored_row(i, k),
        k,
    ) == i by {
        lemma_circle_position(i, k);
        lemma_bit_reversed_bound(circle_position(i, k), k);
        law_bit_reversal_is_an_involution(circle_position(i, k), k);
    }
    assert forall|row: nat| row < pow2(k) implies #[trigger] row_position(row, k) < pow2(k)
        && stored_row(row_position(row, k), k) == row by {
        lemma_bit_reversed_bound(row, k);
        lemma_coset_position(bit_reversed(row, k), k);
        law_bit_reversal_is_an_involution(row, k);
    }
}

/// The evaluation domain of a column.
#[derive(Clone, Copy, Debug, PartialEq, Eq, Structural)]
pub struct ColumnDomain {
    pub log_size: u32,
}

impl ColumnDomain {
    pub fn log_size(&self) -> (r: u32)
        ensures
            r == self.log_size,
    {
        self.log_size
    }

    /// Number of rows.
    pub fn size(&self) -> (r: usize)
        requires
            indexable(self.log_size as nat),
        ensures
            r == pow2(self.log_size as nat),
    {
        two_to_the(self.log_size)
    }
}

/// `2^k`.
pub(crate) fn two_to_the(k: u32) -> (r: usize)
    requires
        k <= 31,
    ensures
        r == pow2(k as nat),
        r <= 0x8000_0000,
{
    let mut r: usize = 1;
    let mut i: u32 = 0;
    proof {
        lemma2_to64();
    }
    while i < k
        invariant
            i <= k <= 31,
            r == pow2(i as nat),
        decreases k - i,
    {
        proof {
            lemma_pow2_unfold((i + 1) as nat);
            lemma2_to64();
            lemma_pow2_strictly_increases(i as nat, 31);
        }
        r = r * 2;
        i = i + 1;
    }
    proof {
        lemma2_to64();
        if k < 31 {
            lemma_pow2_strictly_increases(k as nat, 31);
        }
    }
    r
}

/// A column of base-field values over a circle domain, in bit-reversed
/// circle-domain order.
#[derive(Clone, Debug)]
pub struct ColumnEval {
    pub domain: ColumnDomain,
    pub values: Vec<M31>,
}

impl ColumnEval {
    /// There is one value per row.
    pub open spec fn wf(&self) -> bool {
        &&& 1 <= self.domain.log_size
        &&& indexable(self.domain.log_size as nat)
        &&& self.values@.len() == pow2(self.domain.log_size as nat)
    }

    /// The column stores the given values, listed in coset order.
    pub open spec fn stores(&self, log_size: nat, coset_values: Seq<M31>) -> bool {
        &&& self.wf()
        &&& self.domain.log_size == log_size
        &&& coset_values.len() == pow2(log_size)
        &&& forall|i: int|
            0 <= i < coset_values.len() ==> self.values@[stored_row(i as nat, log_size) as int]
                == #[trigger] coset_values[i]
    }
}

/// Every cell of a column is the value at the position that its row stores.
pub proof fn lemma_stored_cells(column: ColumnEval, k: nat, coset_values: Seq<M31>)
    requires
        column.stores(k, coset_values),
    ensures
        forall|row: int|
            0 <= row < column.values@.len() ==> 0 <= row_position(row as nat, k) < pow2(k)
                && #[trigger] column.values@[row] == coset_values[row_position(
                row as nat,
                k,
            ) as int],
{
    law_storage_order_is_a_permutation(k);
    assert forall|row: int| 0 <= row < column.values@.len() implies 0 <= row_position(
        row as nat,
        k,
    ) < pow2(k) && #[trigger] column.values@[row] == coset_values[row_position(
        row as nat,
        k,
    ) as int] by {
        let i = row_position(row as nat, k);
        assert(i < pow2(k));
        assert(column.values@[stored_row(i, k) as int] == coset_values[i as int]);
    }
}

/// Stores values given in coset order.
pub(crate) fn column_eval(log_size: u32, values: &Vec<M31>) -> (r: ColumnEval)
    requires
        1 <= log_size,
        indexable(log_size as nat),
        values@.len() == pow2(log_size as nat),
    ensures
        r.stores(log_size as nat, values@),
{
    ColumnEval {
        domain: ColumnDomain { log_size },
        values: coset_order_to_circle_domain_order(log_size, values),
    }
}

/// Moves values from coset order to bit-reversed circle-domain order.
pub fn coset_order_to_circle_domain_order(log_size: u32, values: &Vec<M31>) -> (ordered: Vec<M31>)
    requires
        1 <= log_size,
        indexable(log_size as nat),
        values@.len() == pow2(log_size as nat),
    ensures
        ordered@.len() == values@.len(),
        forall|i: int|
            0 <= i < values@.len() ==> ordered@[stored_row(i as nat, log_size as nat) as int]
                == #[trigger] values@[i],
{
    let ghost k = log_size as nat;
    let n: usize = values.len();
    let mut ordered: Vec<M31> = Vec::new();
    ordered.resize(n, M31::from_u32_unchecked(0));
    proof {
        law_storage_order_is_a_permutation(k);
    }
    let mut i: usize = 0;
    while i < n
        invariant
            i <= n,
            n == values@.len(),
            n == pow2(k),
            k == log_size,
            1 <= log_size,
            indexable(k),
            ordered@.len() == n,
            forall|j: nat|
                j < pow2(k) ==> #[trigger] stored_row(j, k) < pow2(k) && row_position(
                    stored_row(j, k),
                    k,
                ) == j,
            forall|j: int|
                0 <= j < i ==> ordered@[stored_row(j as nat, k) as int] == #[trigger] values@[j],
        decreases n - i,
    {
        proof {
            lemma_circle_position(i as nat, k);
            assert(stored_row(i as nat, k) < pow2(k));
        }
        let circle: usize = stwo::core::utils::coset_index_to_circle_domain_index(i, log_size);
        let row: usize = stwo::core::utils::bit_reverse_index(circle, log_size);
        let ghost before = ordered@;
        ordered.set(row, values[i]);
        proof {
            assert forall|j: int| 0 <= j < i + 1 implies ordered@[stored_row(j as nat, k) as int]
                == #[trigger] values@[j] by {
                if j < i {
                    assert(stored_row(j as nat, k) != stored_row(i as nat, k));
                }
            }
        }
        i = i + 1;
    }
    ordered
}

/// How often `v` occurs in a list of uses.
pub open spec fn use_count(uses: Seq<M31>, v: int) -> nat
    decreases uses.len(),
{
    if uses.len() == 0 {
        0
    } else {
        use_count(uses.drop_last(), v) + (if uses.last().0 == v {
            1nat
        } else {
            0
        })
    }
}

/// How often the carry `c` occurs in a list of uses.
pub open spec fn carry_count(uses: Seq<i64>, c: int) -> nat
    decreases uses.len(),
{
    if uses.len() == 0 {
        0
    } else {
        carry_count(uses.drop_last(), c) + (if uses.last() == c {
            1nat
        } else {
            0
        })
    }
}

/// `[0, 1, ..., 2^k - 1]`.
pub open spec fn range_values(k: nat) -> Seq<M31> {
    Seq::new(pow2(k), |i: int| M31(i as u32))
}

/// Row `v` counts the uses of `v`, in the field.
pub open spec fn range_multiplicities(k: nat, uses: Seq<M31>) -> Seq<M31> {
    Seq::new(pow2(k), |i: int| m31_of(use_count(uses, i) as int))
}

/// Zero over the lower half, one over the upper half.
pub open spec fn blind_selectors(k: nat) -> Seq<M31> {
    Seq::new(
        pow2(k + 1),
        |i: int|
            if i < pow2(k) {
                M31(0)
            } else {
                M31(1)
            },
    )
}

/// Use counts over the lower half, blind cells over the upper half.
pub open spec fn blind_multiplicities(k: nat, uses: Seq<M31>, cells: Seq<M31>) -> Seq<M31> {
    range_multiplicities(k, uses) + cells
}

/// Centered encodings of `[-bound, ..., bound]`, then zeros.
pub open spec fn carry_values(k: nat, bound: int) -> Seq<M31> {
    Seq::new(
        pow2(k),
        |i: int|
            if i < 2 * bound + 1 {
                encoded_carry(i - bound)
            } else {
                M31(0)
            },
    )
}

/// One over the real rows, zero over the padding.
pub open spec fn carry_actives(k: nat, bound: int) -> Seq<M31> {
    Seq::new(
        pow2(k),
        |i: int|
            if i < 2 * bound + 1 {
                M31(1)
            } else {
                M31(0)
            },
    )
}

/// Row `c + bound` counts the uses of the carry `c`; padding stays zero.
pub open spec fn carry_multiplicities(k: nat, bound: int, uses: Seq<i64>) -> Seq<M31> {
    Seq::new(
        pow2(k),
        |i: int|
            if i < 2 * bound + 1 {
                m31_of(carry_count(uses, i - bound) as int)
            } else {
                M31(0)
            },
    )
}

/// Counting one more in the field.
pub proof fn lemma_count_step(c: int)
    ensures
        m31_sum(m31_of(c), M31(1)) == m31_of(c + 1),
{
    lemma_m31_of(c);
    vstd::arithmetic::div_mod::lemma_add_mod_noop(c, 1, 2_147_483_647);
    vstd::arithmetic::div_mod::lemma_small_mod(1, 2_147_483_647);
}

/// Claim of a provider of the range table `0..2^log_size`.
#[derive(Clone, Copy, Debug, PartialEq, Eq, Structural)]
pub struct RangeCheckClaim {
    pub log_size: u32,
}

impl RangeCheckClaim {
    /// The table fits the field.
    pub open spec fn wf(&self) -> bool {
        self.log_size <= MAX_LOG_SIZE
    }

    pub fn new(log_size: u32) -> (r: RangeCheckClaim)
        requires
            log_size <= MAX_LOG_SIZE,
        ensures
            r.log_size == log_size,
            r.wf(),
    {
        RangeCheckClaim { log_size }
    }

    /// Absorbs the table size.
    pub fn mix_into(&self, channel: &mut Transcript)
        ensures
            final(channel).digest@ == absorb_words(
                old(channel).digest@,
                seq![self.log_size as u64],
            ),
            final(channel).blocks == 0,
    {
        let mut words: Vec<u64> = Vec::new();
        words.push(self.log_size as u64);
        proof {
            assert(words@ =~= seq![self.log_size as u64]);
        }
        channel.mix_words(&words);
    }

    /// Preprocessed column `[0, 1, ..., 2^log_size - 1]`.
    pub fn gen_preprocessed_column(&self) -> (r: ColumnEval)
        requires
            self.wf(),
            1 <= self.log_size,
        ensures
            r.stores(self.log_size as nat, range_values(self.log_size as nat)),
    {
        proof {
            lemma_indexable(self.log_size as nat);
        }
        counting_column(self.log_size)
    }

    /// Multiplicity column: row `v` holds the number of uses of `v`.
    pub fn gen_multiplicity_trace(&self, uses: &Vec<M31>) -> (r: ColumnEval)
        requires
            self.wf(),
            1 <= self.log_size,
            forall|i: int|
                0 <= i < uses@.len() ==> (#[trigger] uses@[i]).0 < pow2(self.log_size as nat),
        ensures
            r.stores(self.log_size as nat, range_multiplicities(self.log_size as nat, uses@)),
    {
        proof {
            lemma_indexable(self.log_size as nat);
        }
        let multiplicity: Vec<M31> = count_uses(self.log_size, uses);
        column_eval(self.log_size, &multiplicity)
    }

    /// Size of the blinded table: one more than the real one.
    pub fn blind_log_size(&self) -> (r: u32)
        requires
            self.log_size < u32::MAX,
        ensures
            r == self.log_size + 1,
    {
        self.log_size + 1
    }

    /// Value column of the blinded table: `[0, 1, ..., 2^(log_size + 1) - 1]`.
    /// The upper half holds reserved keys.
    pub fn gen_blind_preprocessed_column(&self) -> (r: ColumnEval)
        requires
            self.wf(),
            indexable((self.log_size + 1) as nat),
        ensures
            r.stores((self.log_size + 1) as nat, range_values((self.log_size + 1) as nat)),
    {
        counting_column(self.blind_log_size())
    }

    /// Selector of the reserved keys.
    pub fn gen_blind_dummy_column(&self) -> (r: ColumnEval)
        requires
            self.wf(),
            indexable((self.log_size + 1) as nat),
        ensures
            r.stores((self.log_size + 1) as nat, blind_selectors(self.log_size as nat)),
    {
        let real_rows: usize = two_to_the(self.log_size);
        let size: usize = two_to_the(self.blind_log_size());
        let mut values: Vec<M31> = Vec::new();
        let mut i: usize = 0;
        while i < size
            invariant
                i <= size,
                values@.len() == i,
                real_rows == pow2(self.log_size as nat),
                forall|j: int|
                    0 <= j < i ==> #[trigger] values@[j] == (if j < real_rows {
                        M31(0)
                    } else {
                        M31(1)
                    }),
            decreases size - i,
        {
            values.push(
                if i < real_rows {
                    M31::zero()
                } else {
                    M31::one()
                },
            );
            i = i + 1;
        }
        proof {
            assert(values@ =~= blind_selectors(self.log_size as nat));
        }
        column_eval(self.blind_log_size(), &values)
    }

    /// Multiplicity column of the blinded table: use counts over the lower
    /// half, and one blind cell per reserved key.
    pub fn gen_blind_multiplicity_trace(&self, uses: &Vec<M31>, blind_cells: &Vec<M31>) -> (r:
        ColumnEval)
        requires
            self.wf(),
            indexable((self.log_size + 1) as nat),
            forall|i: int|
                0 <= i < uses@.len() ==> (#[trigger] uses@[i]).0 < pow2(self.log_size as nat),
            blind_cells@.len() == pow2(self.log_size as nat),
        ensures
            r.stores(
                (self.log_size + 1) as nat,
                blind_multiplicities(self.log_size as nat, uses@, blind_cells@),
            ),
    {
        let ghost k = self.log_size as nat;
        let mut multiplicity: Vec<M31> = count_uses(self.log_size, uses);
        let mut i: usize = 0;
        while i < blind_cells.len()
            invariant
                i <= blind_cells@.len(),
                multiplicity@ == range_multiplicities(k, uses@) + blind_cells@.take(i as int),
            decreases blind_cells@.len() - i,
        {
            proof {
                assert(blind_cells@.take(i + 1) =~= blind_cells@.take(i as int).push(
                    blind_cells@[i as int],
                ));
            }
            multiplicity.push(blind_cells[i]);
            assert(multiplicity@ =~= range_multiplicities(k, uses@) + blind_cells@.take(i + 1));
            i = i + 1;
        }
        proof {
            assert(blind_cells@.take(i as int) =~= blind_cells@);
            lemma_pow2_unfold(k + 1);
        }
        column_eval(self.blind_log_size(), &multiplicity)
    }
}

/// The column `[0, 1, ..., 2^log_size - 1]`.
fn counting_column(log_size: u32) -> (r: ColumnEval)
    requires
        1 <= log_size,
        indexable(log_size as nat),
    ensures
        r.stores(log_size as nat, range_values(log_size as nat)),
{
    let size: usize = two_to_the(log_size);
    let mut values: Vec<M31> = Vec::new();
    let mut i: usize = 0;
    while i < size
        invariant
            i <= size <= 0x8000_0000,
            values@.len() == i,
            forall|j: int| 0 <= j < i ==> #[trigger] values@[j] == M31(j as u32),
        decreases size - i,
    {
        values.push(M31::from_u32_unchecked(i as u32));
        i = i + 1;
    }
    proof {
        assert(values@ =~= range_values(log_size as nat));
    }
    column_eval(log_size, &values)
}

/// Counts the uses of every table value.
fn count_uses(log_size: u32, uses: &Vec<M31>) -> (r: Vec<M31>)
    requires
        log_size <= 31,
        forall|i: int| 0 <= i < uses@.len() ==> (#[trigger] uses@[i]).0 < pow2(log_size as nat),
    ensures
        r@ == range_multiplicities(log_size as nat, uses@),
{
    let ghost k = log_size as nat;
    let size: usize = two_to_the(log_size);
    let mut multiplicity: Vec<M31> = Vec::new();
    multiplicity.resize(size, M31::zero());
    proof {
        assert(uses@.take(0) =~= Seq::<M31>::empty());
        vstd::arithmetic::div_mod::lemma_small_mod(0, 2_147_483_647);
        assert(multiplicity@ =~= range_multiplicities(k, uses@.take(0)));
    }
    let mut i: usize = 0;
    while i < uses.len()
        invariant
            i <= uses@.len(),
            size == pow2(k),
            size <= 0x8000_0000,
            forall|j: int| 0 <= j < uses@.len() ==> (#[trigger] uses@[j]).0 < pow2(k),
            multiplicity@ == range_multiplicities(k, uses@.take(i as int)),
        decreases uses@.len() - i,
    {
        let idx: usize = uses[i].0 as usize;
        let ghost before = multiplicity@;
        let ghost prefix = uses@.take(i as int);
        proof {
            assert(uses@[i as int].0 < pow2(k));
            lemma_m31_of(use_count(prefix, idx as int) as int);
        }
        let counted: M31 = multiplicity[idx].plus(M31::one());
        multiplicity.set(idx, counted);
        proof {
            let next = uses@.take(i + 1);
            assert(next.drop_last() =~= prefix);
            assert(next.last() == uses@[i as int]);
            lemma_count_step(use_count(prefix, idx as int) as int);
            assert(multiplicity@ =~= range_multiplicities(k, next));
        }
        i = i + 1;
    }
    proof {
        assert(uses@.take(i as int) =~= uses@);
    }
    multiplicity
}

/// Claim of a provider of a centered signed-carry table.
#[derive(Clone, Debug)]
pub struct SignedCarryRangeClaim {
    pub log_size: u32,
    pub bound: i64,
    pub equation_name: String,
}

impl SignedCarryRangeClaim {
    /// The carries `[-bound, bound]` have encodings and fit the table.
    pub open spec fn wf(&self) -> bool {
        &&& self.log_size <= MAX_LOG_SIZE
        &&& 1 <= self.bound <= M31_HALF
        &&& 2 * self.bound + 1 <= pow2(self.log_size as nat)
    }

    pub fn new(log_size: u32, bound: i64, equation_name: &str) -> (r: SignedCarryRangeClaim)
        requires
            log_size <= MAX_LOG_SIZE,
            1 <= bound <= M31_HALF,
            2 * bound + 1 <= pow2(log_size as nat),
        ensures
            r.log_size == log_size,
            r.bound == bound,
            r.equation_name@ == equation_name@,
            r.wf(),
    {
        SignedCarryRangeClaim { log_size, bound, equation_name: equation_name.to_owned() }
    }

    /// Absorbs the table size and the bound.
    pub fn mix_into(&self, channel: &mut Transcript)
        ensures
            final(channel).digest@ == absorb_words(
                old(channel).digest@,
                seq![self.log_size as u64, self.bound as u64],
            ),
            final(channel).blocks == 0,
    {
        let mut words: Vec<u64> = Vec::new();
        words.push(self.log_size as u64);
        words.push(self.bound as u64);
        proof {
            assert(words@ =~= seq![self.log_size as u64, self.bound as u64]);
        }
        channel.mix_words(&words);
    }

    /// Number of real rows, `2 * bound + 1`.
    pub fn real_entries(&self) -> (r: usize)
        requires
            self.wf(),
        ensures
            r == 2 * self.bound + 1,
    {
        (2 * self.bound + 1) as usize
    }

    /// Rows of the table: at least three, so the table has at least two bits.
    proof fn lemma_shape(&self)
        requires
            self.wf(),
        ensures
            2 <= self.log_size,
            indexable(self.log_size as nat),
    {
        lemma2_to64();
        lemma_indexable(self.log_size as nat);
    }

    /// Preprocessed value column: encodings of `[-bound, ..., bound]`, then
    /// zeros.
    pub fn gen_value_column(&self) -> (r: ColumnEval)
        requires
            self.wf(),
        ensures
            r.stores(self.log_size as nat, carry_values(self.log_size as nat, self.bound as int)),
    {
        proof {
            self.lemma_shape();
        }
        let size: usize = two_to_the(self.log_size);
        let real_rows: usize = self.real_entries();
        let mut values: Vec<M31> = Vec::new();
        let mut i: usize = 0;
        while i < size
            invariant
                i <= size <= 0x8000_0000,
                self.wf(),
                real_rows == 2 * self.bound + 1,
                size == pow2(self.log_size as nat),
                values@.len() == i,
                forall|j: int|
                    0 <= j < i ==> #[trigger] values@[j] == carry_values(
                        self.log_size as nat,
                        self.bound as int,
                    )[j],
            decreases size - i,
        {
            values.push(
                if i < real_rows {
                    encode_signed_carry(i as i64 - self.bound)
                } else {
                    M31::zero()
                },
            );
            i = i + 1;
        }
        proof {
            assert(values@ =~= carry_values(self.log_size as nat, self.bound as int));
        }
        column_eval(self.log_size, &values)
    }

    /// Preprocessed active column: one over the real rows, zero over the
    /// padding.
    pub fn gen_active_column(&self) -> (r: ColumnEval)
        requires
            self.wf(),
        ensures
            r.stores(self.log_size as nat, carry_actives(self.log_size as nat, self.bound as int)),
    {
        proof {
            self.lemma_shape();
        }
        let size: usize = two_to_the(self.log_size);
        let real_rows: usize = self.real_entries();
        let mut values: Vec<M31> = Vec::new();
        let mut i: usize = 0;
        while i < size
            invariant
                i <= size,
                real_rows == 2 * self.bound + 1,
                size == pow2(self.log_size as nat),
                values@.len() == i,
                forall|j: int|
                    0 <= j < i ==> #[trigger] values@[j] == carry_actives(
                        self.log_size as nat,
                        self.bound as int,
                    )[j],
            decreases size - i,
        {
            values.push(
                if i < real_rows {
                    M31::one()
                } else {
                    M31::zero()
                },
            );
            i = i + 1;
        }
        proof {
            assert(values@ =~= carry_actives(self.log_size as nat, self.bound as int));
        }
        column_eval(self.log_size, &values)
    }

    /// Multiplicity column: row `c + bound` counts the uses of the carry `c`.
    pub fn gen_multiplicity_trace(&self, uses: &Vec<i64>) -> (r: ColumnEval)
        requires
            self.wf(),
            forall|i: int|
                0 <= i < uses@.len() ==> -self.bound <= #[trigger] uses@[i] <= self.bound,
        ensures
            r.stores(
                self.log_size as nat,
                carry_multiplicities(self.log_size as nat, self.bound as int, uses@),
            ),
    {
        proof {
            self.lemma_shape();
        }
        let ghost k = self.log_size as nat;
        let ghost b = self.bound as int;
        let size: usize = two_to_the(self.log_size);
        let mut multiplicity: Vec<M31> = Vec::new();
        multiplicity.resize(size, M31::zero());
        proof {
            assert(uses@.take(0) =~= Seq::<i64>::empty());
            vstd::arithmetic::div_mod::lemma_small_mod(0, 2_147_483_647);
            assert(multiplicity@ =~= carry_multiplicities(k, b, uses@.take(0)));
        }
        let mut i: usize = 0;
        while i < uses.len()
            invariant
                i <= uses@.len(),
                self.wf(),
                k == self.log_size,
                b == self.bound,
                size == pow2(k),
                forall|j: int|
                    0 <= j < uses@.len() ==> -self.bound <= #[trigger] uses@[j] <= self.bound,
                multiplicity@ == carry_multiplicities(k, b, uses@.take(i as int)),
            decreases uses@.len() - i,
        {
            let ghost prefix = uses@.take(i as int);
            assert(-self.bound <= uses@[i as int] <= self.bound);
            let row: usize = (uses[i] + self.bound) as usize;
            proof {
                lemma_m31_of(carry_count(prefix, uses@[i as int] as int) as int);
            }
            let counted: M31 = multiplicity[row].plus(M31::one());
            multiplicity.set(row, counted);
            proof {
                let next = uses@.take(i + 1);
                assert(next.drop_last() =~= prefix);
                assert(next.last() == uses@[i as int]);
                lemma_count_step(carry_count(prefix, uses@[i as int] as int) as int);
                assert(multiplicity@ =~= carry_multiplicities(k, b, next));
            }
            i = i + 1;
        }
        proof {
            assert(uses@.take(i as int) =~= uses@);
        }
        column_eval(self.log_size, &multiplicity)
    }
}

/// How many uses have a value below `n`.
pub open spec fn uses_below(uses: Seq<M31>, n: nat) -> nat
    decreases n,
{
    if n == 0 {
        0
    } else {
        uses_below(uses, (n - 1) as nat) + use_count(uses, n - 1)
    }
}

/// One more use adds one to the count of the values up to it.
proof fn lemma_uses_below_push(uses: Seq<M31>, n: nat)
    requires
        uses.len() > 0,
    ensures
        uses_below(uses, n) == uses_below(uses.drop_last(), n) + (if uses.last().0 < n {
            1nat
        } else {
            0
        }),
    decreases n,
{
    if n > 0 {
        lemma_uses_below_push(uses, (n - 1) as nat);
    }
}

/// The sum of a list of base-field elements.
pub open spec fn m31_sum_of(cells: Seq<M31>) -> M31
    decreases cells.len(),
{
    if cells.len() == 0 {
        M31(0)
    } else {
        m31_sum(m31_sum_of(cells.drop_last()), cells.last())
    }
}

/// The first cells of a multiplicity table sum to the uses of their values.
proof fn lemma_first_cells_sum(k: nat, uses: Seq<M31>, n: nat)
    requires
        n <= pow2(k),
    ensures
        m31_sum_of(range_multiplicities(k, uses).take(n as int)) == m31_of(
            uses_below(uses, n) as int,
        ),
    decreases n,
{
    let cells = range_multiplicities(k, uses);
    if n == 0 {
        lemma_m31_of(0);
        vstd::arithmetic::div_mod::lemma_small_mod(0, 2_147_483_647);
    } else {
        lemma_first_cells_sum(k, uses, (n - 1) as nat);
        assert(cells.take(n as int).drop_last() =~= cells.take(n - 1));
        let a = uses_below(uses, (n - 1) as nat) as int;
        let b = use_count(uses, n - 1) as int;
        lemma_m31_of(a);
        lemma_m31_of(b);
        lemma_m31_of(a + b);
        vstd::arithmetic::div_mod::lemma_add_mod_noop(a, b, 2_147_483_647);
    }
}

/// Law: every use is counted once. The counts over a table that holds all the
/// used values add up to the number of uses, and so do the cells of the
/// multiplicity column, in the field.
pub proof fn law_multiplicities_sum_to_the_uses(k: nat, uses: Seq<M31>)
    requires
        forall|i: int| 0 <= i < uses.len() ==> (#[trigger] uses[i]).0 < pow2(k),
    ensures
        uses_below(uses, pow2(k)) == uses.len(),
        m31_sum_of(range_multiplicities(k, uses)) == m31_of(uses.len() as int),
{
    lemma_all_uses_counted(uses, pow2(k));
    lemma_first_cells_sum(k, uses, pow2(k));
    assert(range_multiplicities(k, uses).take(pow2(k) as int) =~= range_multiplicities(k, uses));
}

/// A table that holds all the used values counts every use.
proof fn lemma_all_uses_counted(uses: Seq<M31>, n: nat)
    requires
        forall|i: int| 0 <= i < uses.len() ==> (#[trigger] uses[i]).0 < n,
    ensures
        uses_below(uses, n) == uses.len(),
    decreases uses.len(),
{
    if uses.len() == 0 {
        lemma_no_uses(n);
        assert(uses =~= Seq::<M31>::empty());
    } else {
        let front = uses.drop_last();
        assert forall|i: int| 0 <= i < front.len() implies (#[trigger] front[i]).0 < n by {
            assert(front[i] == uses[i]);
        }
        assert(uses[uses.len() - 1].0 < n);
        lemma_all_uses_counted(front, n);
        lemma_uses_below_push(uses, n);
    }
}

/// Without uses there is nothing to count.
proof fn lemma_no_uses(n: nat)
    ensures
        uses_below(Seq::<M31>::empty(), n) == 0,
    decreases n,
{
    if n > 0 {
        lemma_no_uses((n - 1) as nat);
    }
}

/// The count of a value is its number of occurrences.
proof fn lemma_use_count_multiset(uses: Seq<M31>, v: u32)
    ensures
        use_count(uses, v as int) == uses.to_multiset().count(M31(v)),
    decreases uses.len(),
{
    broadcast use vstd::seq_lib::group_to_multiset_ensures;

    if uses.len() > 0 {
        lemma_use_count_multiset(uses.drop_last(), v);
        assert(uses =~= uses.drop_last().push(uses.last()));
        if uses.last().0 == v {
            assert(uses.last() == M31(v));
        }
    } else {
        assert(uses =~= Seq::<M31>::empty());
    }
}

/// Law: the order of the uses does not matter to a multiplicity column.
pub proof fn law_order_of_uses_does_not_matter(k: nat, uses: Seq<M31>, other: Seq<M31>)
    requires
        k <= 31,
        uses.to_multiset() == other.to_multiset(),
    ensures
        range_multiplicities(k, uses) == range_multiplicities(k, other),
{
    lemma2_to64();
    if k < 31 {
        lemma_pow2_strictly_increases(k, 31);
    }
    assert forall|i: int| 0 <= i < pow2(k) implies use_count(uses, i) == use_count(other, i) by {
        lemma_use_count_multiset(uses, i as u32);
        lemma_use_count_multiset(other, i as u32);
    }
    assert(range_multiplicities(k, uses) =~= range_multiplicities(k, other));
}

} // verus!
