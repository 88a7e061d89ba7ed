//! Sums of points, the products and signs of a certificate, and the check of a key.
use crate::collinear::{
    lemma_combine2, lemma_inverse_is_reflection, lemma_reflected, lemma_sum_is_joined, vanishes,
};
use crate::curve::{additive_inverses, curve_b, field_p, group_add, reflected};
use crate::ecdsa::{lemma_curve_rhs, valid_public_key};
use crate::fields::{
    law_product_associates, law_product_commutes, law_product_identity, sf_inverse, sf_product,
    sf_sum_of, M31,
};
use crate::pipeline::final_add::{
    active_rows, certificate_product, certificate_products, flagged, setup_products, sign_bit,
    signed_point, FakeGlvScalarRow, PreparedAffinePoint, ScalarModMulInstance, ScalarSetupRow,
};
use crate::public_inputs::PublicEcdsaInstance;
use crate::public_key_check::{
    build_error, first_build_error, first_row_error, lemma_below_modulus, limb_error, outcome,
    row_error, PublicKeyOnCurveError, PublicKeyOnCurveRow,
};
use crate::range_checks::interaction::{
    batch_count, batch_entries, fold_fractions, fraction_values, invertible_denominators,
    law_folded_fraction_is_the_sum, row_fractions, LogupEntry,
};
use crate::types::AffinePoint;
use crate::words::two_256;
use vstd::arithmetic::div_mod::{lemma_fundamental_div_mod, lemma_small_mod};
use vstd::prelude::*;

verus! {

/// The point reflected from `d` lies on the line with slope `l` through `a`.
proof fn lemma_on_line(l: int, c: int, a: (int, int), d: (int, int)) -> (f: int)
    requires
        valid_public_key(d),
        vanishes(a.1 - l * a.0 - c),
        vanishes(reflected(d).1 - l * reflected(d).0 - c),
    ensures
        f == (d.1 + a.1) + l * (d.0 - a.0),
        vanishes(f),
{
    let e = reflected(d);
    lemma_reflected(d);
    let h1 = a.1 - l * a.0 - c;
    let h3 = e.1 - l * e.0 - c;
    let s = d.1 + e.1;
    let f = (d.1 + a.1) + l * (d.0 - a.0);
    lemma_combine2(h1 - h3, 1, h1, -1, h3);
    assert(f == s + (h1 - h3)) by (nonlinear_arith)
        requires
            f == (d.1 + a.1) + l * (d.0 - a.0),
            s == d.1 + e.1,
            h1 == a.1 - l * a.0 - c,
            h3 == e.1 - l * e.0 - c,
            e.0 == d.0,
    ;
    lemma_combine2(f, 1, s, 1, h1 - h3);
    f
}

/// Law: two points of the curve have no finite sum exactly where one is the reflection
/// of the other. Otherwise the sum is a point of the curve, and its reflection lies on
/// the chord through two different points, or on the tangent at a point that is
/// doubled.
pub proof fn law_sum_lies_on_the_line(a: (int, int), b: (int, int))
    requires
        valid_public_key(a),
        valid_public_key(b),
    ensures
        group_add(Some(a), Some(b)) is None <==> a.0 == b.0 && (a.1 + b.1) % field_p() == 0,
        group_add(Some(a), Some(b)) matches Some(d) ==> {
            &&& valid_public_key(d)
            &&& a != b ==> ((d.0 - a.0) * (b.1 - a.1) + (d.1 + a.1) * (b.0 - a.0)) % field_p()
                == 0
            &&& a == b ==> (2 * a.1 * (d.1 + a.1) + (3 * (a.0 * a.0) - 3) * (d.0 - a.0))
                % field_p() == 0
        },
{
    if additive_inverses(a, b) {
        lemma_inverse_is_reflection(a, b);
        crate::group_law::lemma_not_own_reflection(a);
        if a == b {
            crate::group_law::lemma_twice_y(a);
        }
    } else {
        let (l, c) = lemma_sum_is_joined(a, b);
        let d = group_add(Some(a), Some(b))->0;
        let e = reflected(d);
        let f = lemma_on_line(l, c, a, d);
        let (x1, y1) = a;
        let (x2, y2) = b;
        let h1 = y1 - l * x1 - c;
        let x3 = d.0;
        let v = d.1 + y1;
        if a == b {
            let q = l * l - x1 - x1 - x3;
            let p = 2 * (l * c) + 3 + x1 * x1 + x1 * x3 + x1 * x3;
            let g = 2 * (y1 * l) - (3 * (x1 * x1) - 3);
            let s = 2 * x1 * q + p;
            lemma_combine2(s, 2 * x1, q, 1, p);
            lemma_tangent_identity(l, c, x1, y1, x3);
            lemma_combine2(g, 2 * l, h1, 1, s);
            let w = 2 * y1 * v + (3 * (x1 * x1) - 3) * (x3 - x1);
            let t = x3 - x1;
            assert(w == (2 * y1) * f + (-t) * g) by (nonlinear_arith)
                requires
                    w == 2 * y1 * v + (3 * (x1 * x1) - 3) * t,
                    f == v + l * t,
                    g == 2 * (y1 * l) - (3 * (x1 * x1) - 3),
            ;
            lemma_combine2(w, 2 * y1, f, -t, g);
        } else {
            let h2 = y2 - l * x2 - c;
            let k = (y2 - y1) - l * (x2 - x1);
            assert(k == h2 - h1) by (nonlinear_arith)
                requires
                    k == (y2 - y1) - l * (x2 - x1),
                    h1 == y1 - l * x1 - c,
                    h2 == y2 - l * x2 - c,
            ;
            lemma_combine2(k, 1, h2, -1, h1);
            let (t, u) = (x3 - x1, x2 - x1);
            let w = t * (y2 - y1) + v * u;
            assert(w == t * k + u * f) by (nonlinear_arith)
                requires
                    w == t * (y2 - y1) + v * u,
                    f == v + l * t,
                    k == (y2 - y1) - l * u,
            ;
            lemma_combine2(w, t, k, u, f);
        }
    }
}

proof fn lemma_tangent_identity(l: int, c: int, x1: int, y1: int, x3: int)
    ensures
        2 * (y1 * l) - (3 * (x1 * x1) - 3) == (2 * l) * (y1 - l * x1 - c) + (2 * x1 * (l * l - x1
            - x1 - x3) + (2 * (l * c) + 3 + x1 * x1 + x1 * x3 + x1 * x3)),
{
    let m = l * l;
    let h = y1 - l * x1 - c;
    assert((2 * l) * h == 2 * (y1 * l) - 2 * (m * x1) - 2 * (l * c)) by (nonlinear_arith)
        requires
            h == y1 - l * x1 - c,
            m == l * l,
    ;
    let q = m - x1 - x1 - x3;
    assert(2 * x1 * q == 2 * (m * x1) - 4 * (x1 * x1) - 2 * (x1 * x3)) by (nonlinear_arith)
        requires
            q == m - x1 - x1 - x3,
    ;
}

/// Law: the products of the scalar setup are `s u1` and `s u2` of each statement, in
/// this order, numbered from zero.
pub proof fn law_setup_products(rows: Seq<ScalarSetupRow>, i: int)
    requires
        2 * rows.len() <= u32::MAX,
        0 <= i < rows.len(),
    ensures
        setup_products(rows).len() == 2 * rows.len(),
        setup_products(rows)[2 * i].mul_id == 2 * i,
        setup_products(rows)[2 * i].lhs == rows[i].s,
        setup_products(rows)[2 * i].rhs == rows[i].u1,
        setup_products(rows)[2 * i + 1].mul_id == 2 * i + 1,
        setup_products(rows)[2 * i + 1].lhs == rows[i].s,
        setup_products(rows)[2 * i + 1].rhs == rows[i].u2,
    decreases rows.len(),
{
    let front = rows.drop_last();
    crate::pipeline::final_add::lemma_setup_ids(front);
    if i < front.len() {
        law_setup_products(front, i);
        assert(front[i] == rows[i]);
    }
}

/// Law: the product of a certificate is its scalar times the decomposed one, under the
/// number of its statement and certificate.
pub proof fn law_certificate_product(instance: ScalarModMulInstance, row: FakeGlvScalarRow)
    requires
        certificate_product(instance, row),
        row.scalar.canonical(),
    ensures
        instance.lhs.spec_value() * instance.rhs.spec_value() == row.scalar.spec_value()
            * row.s2_abs.spec_value(),
        instance.mul_id == 1_000_000 + 2 * row.sig_id.0 + row.cert_id.0,
{
    row.scalar.lemma_canonical_range();
    lemma_small_mod(row.scalar.spec_value() as nat, two_256() as nat);
}

/// Law: the active certificates are those whose flag is not zero, in order.
pub proof fn law_active_certificates(a: Seq<FakeGlvScalarRow>, b: Seq<FakeGlvScalarRow>)
    ensures
        active_rows(a + b) == active_rows(a) + active_rows(b),
        a.len() == 1 ==> active_rows(a) == (if a[0].cert_active.0 == 0 {
            Seq::<FakeGlvScalarRow>::empty()
        } else {
            a
        }),
    decreases b.len(),
{
    if b.len() == 0 {
        assert(a + b =~= a);
        assert(active_rows(a) + active_rows(b) =~= active_rows(a));
    } else {
        assert((a + b).drop_last() =~= a + b.drop_last());
        law_active_certificates(a, b.drop_last());
        assert(active_rows(a + b) =~= active_rows(a) + active_rows(b));
    }
    if a.len() == 1 {
        reveal_with_fuel(active_rows, 2);
        assert(active_rows(a) =~= (if a[0].cert_active.0 == 0 {
            Seq::<FakeGlvScalarRow>::empty()
        } else {
            a
        }));
    }
}

/// Law: the sign bit of a certificate is that of the first active row with its statement
/// and number; where there is none it is one.
pub proof fn law_sign_bit(rows: Seq<FakeGlvScalarRow>, sig_id: M31, cert_id: u32, k: int)
    requires
        0 <= k <= rows.len(),
        forall|i: int|
            0 <= i < k ==> (#[trigger] rows[i]).sig_id != sig_id || rows[i].cert_id.0 != cert_id
                || rows[i].cert_active.0 != 1,
        k < rows.len() ==> rows[k].sig_id == sig_id && rows[k].cert_id.0 == cert_id
            && rows[k].cert_active.0 == 1,
    ensures
        k < rows.len() ==> sign_bit(rows, sig_id, cert_id) == rows[k].s2_sign_bit,
        k == rows.len() ==> sign_bit(rows, sig_id, cert_id) == M31(1),
    decreases rows.len(),
{
    if rows.len() > 0 && k > 0 {
        let rest = rows.skip(1);
        assert(rows[0].sig_id != sig_id || rows[0].cert_id.0 != cert_id || rows[0].cert_active.0
            != 1);
        assert forall|i: int| 0 <= i < k - 1 implies (#[trigger] rest[i]).sig_id != sig_id
            || rest[i].cert_id.0 != cert_id || rest[i].cert_active.0 != 1 by {
            assert(rest[i] == rows[i + 1]);
        }
        if k < rows.len() {
            assert(rest[k - 1] == rows[k]);
        }
        law_sign_bit(rest, sig_id, cert_id, k - 1);
    }
}

/// Law: a hint point keeps its x-coordinate under its sign: with sign zero it stays, with
/// any other it becomes the point that cancels it.
pub proof fn law_signed_point(a: (int, int), sign: M31)
    requires
        valid_public_key(a),
    ensures
        signed_point(None, sign) is None,
        signed_point(Some(a), sign) matches Some(b) && b.0 == a.0 && valid_public_key(b),
        sign.0 == 0 ==> signed_point(Some(a), sign) == Some(a),
        sign.0 != 0 ==> signed_point(Some(a), sign) != Some(a) && group_add(
            Some(a),
            signed_point(Some(a), sign),
        ) is None,
{
    lemma_reflected(a);
    crate::group_law::lemma_not_own_reflection(a);
    if reflected(a) == a {
        crate::group_law::lemma_twice_y(a);
    }
}

/// Law: for a statement whose limbs are digits, the check of the key fails with the first
/// reason that there is: an x-coordinate that is not below the modulus, such a
/// y-coordinate, or a point off the curve.
pub proof fn law_key_errors(public: PublicEcdsaInstance)
    requires
        public.pub_x.canonical(),
        public.pub_y.canonical(),
    ensures
        ({
            let (x, y) = (public.pub_x.spec_value(), public.pub_y.spec_value());
            &&& x >= field_p() ==> build_error(public) == Some(
                PublicKeyOnCurveError::FieldElementOutOfRange { field: "pub_x" },
            )
            &&& x < field_p() <= y ==> build_error(public) == Some(
                PublicKeyOnCurveError::FieldElementOutOfRange { field: "pub_y" },
            )
            &&& x < field_p() && y < field_p() && (y * y) % field_p() != (x * x * x - 3 * x
                + curve_b()) % field_p() ==> build_error(public) == Some(
                PublicKeyOnCurveError::PointOffCurve { sig_id: public.sig_id.0 },
            )
            &&& x < field_p() && y < field_p() && (y * y) % field_p() == (x * x * x - 3 * x
                + curve_b()) % field_p() ==> build_error(public) is None
        }),
{
    lemma_below_modulus(public.pub_x);
    lemma_below_modulus(public.pub_y);
    public.pub_x.lemma_canonical_range();
    public.pub_y.lemma_canonical_range();
    lemma_small_mod(public.pub_x.spec_value() as nat, two_256() as nat);
    lemma_small_mod(public.pub_y.spec_value() as nat, two_256() as nat);
}

/// Law: a row that passes records the check in full: the right-hand side of the curve
/// equation, the square of y equal to it, and the products that they are made of.
pub proof fn law_passing_row_records_the_equation(row: PublicKeyOnCurveRow)
    requires
        row_error(row) is None,
        row.x.canonical(),
        row.y.canonical(),
        row.rhs.canonical(),
    ensures
        ({
            let (x, y) = (row.x.spec_value(), row.y.spec_value());
            let p = field_p();
            &&& row.y_squared.result.spec_value() == (y * y) % p
            &&& row.x_squared.result.spec_value() == (x * x) % p
            &&& row.x_cubed.result.spec_value() == (x * x * x) % p
            &&& row.three_x.result.spec_value() == (3 * x) % p
            &&& row.rhs.spec_value() == (x * x * x - 3 * x + curve_b()) % p
            &&& row.y_squared.result.spec_value() == row.rhs.spec_value()
        }),
{
    let (x, y) = (row.x.spec_value(), row.y.spec_value());
    let p = field_p();
    row.x.lemma_canonical_range();
    row.y.lemma_canonical_range();
    row.rhs.lemma_canonical_range();
    row.x_squared.result.lemma_canonical_range();
    row.x_cubed.result.lemma_canonical_range();
    row.three_x.result.lemma_canonical_range();
    row.y_squared.result.lemma_canonical_range();
    lemma_small_mod(x as nat, two_256() as nat);
    lemma_small_mod(y as nat, two_256() as nat);
    lemma_small_mod(3, two_256() as nat);
    lemma_small_mod(row.rhs.spec_value() as nat, two_256() as nat);
    lemma_small_mod(row.x_squared.result.spec_value() as nat, two_256() as nat);
    lemma_small_mod(row.x_cubed.result.spec_value() as nat, two_256() as nat);
    lemma_small_mod(row.three_x.result.spec_value() as nat, two_256() as nat);
    lemma_small_mod(row.y_squared.result.spec_value() as nat, two_256() as nat);
    lemma_curve_rhs(x);
    vstd::arithmetic::div_mod::lemma_mul_mod_noop_left(x * x, x, p);
}

/// Law: rows, and statements, are checked in order: an error is that of the first that
/// has one, and there is none exactly where none has.
pub proof fn law_first_key_errors(
    rows: Seq<PublicKeyOnCurveRow>,
    instances: Seq<PublicEcdsaInstance>,
    k: int,
)
    requires
        0 <= k,
    ensures
        k <= rows.len() && (forall|i: int| 0 <= i < k ==> row_error(#[trigger] rows[i]) is None)
            ==> (if k < rows.len() && row_error(rows[k]) is Some {
            first_row_error(rows) == row_error(rows[k])
        } else {
            k == rows.len() ==> first_row_error(rows) is None
        }),
        k <= instances.len() && (forall|i: int|
            0 <= i < k ==> build_error(#[trigger] instances[i]) is None) ==> (if k
            < instances.len() && build_error(instances[k]) is Some {
            first_build_error(instances) == build_error(instances[k])
        } else {
            k == instances.len() ==> first_build_error(instances) is None
        }),
    decreases rows.len() + instances.len(),
{
    if rows.len() > 0 {
        let front = rows.drop_last();
        assert forall|i: int| 0 <= i < front.len() implies #[trigger] rows[i] == front[i] by {}
        if k < rows.len() {
            law_first_key_errors(front, instances, k);
        } else {
            law_first_key_errors(front, instances, front.len() as int);
        }
        assert(rows[rows.len() - 1] == rows.last());
    }
    if instances.len() > 0 {
        let front = instances.drop_last();
        assert forall|i: int| 0 <= i < front.len() implies #[trigger] instances[i]
            == front[i] by {}
        if k < instances.len() {
            law_first_key_errors(rows, front, k);
        } else {
            law_first_key_errors(rows, front, front.len() as int);
        }
        assert(instances[instances.len() - 1] == instances.last());
    }
}

/// Law: of limbs that are not digits, those of the y-coordinate are reported first, by the
/// trace that they do not match.
pub proof fn law_limb_errors(public: PublicEcdsaInstance)
    ensures
        limb_error(public) is None <==> public.pub_x.canonical() && public.pub_y.canonical(),
        !public.pub_y.canonical() ==> limb_error(public) == Some(
            PublicKeyOnCurveError::TraceInputMismatch {
                sig_id: public.sig_id.0,
                trace: "y_squared",
            },
        ),
        public.pub_y.canonical() && !public.pub_x.canonical() ==> limb_error(public) == Some(
            PublicKeyOnCurveError::TraceInputMismatch {
                sig_id: public.sig_id.0,
                trace: "x_squared",
            },
        ),
{
}

/// Law: every entry is folded into one column: entry `j` into column `j / batch`, at place
/// `j % batch`; columns are full but for the last, and none is empty.
pub proof fn law_each_entry_has_one_batch(entries: Seq<LogupEntry>, batch: int, j: int, c: int)
    requires
        batch > 0,
        0 <= j < entries.len(),
        0 <= c < batch_count(entries.len() as int, batch),
    ensures
        0 <= j / batch < batch_count(entries.len() as int, batch),
        j % batch < batch_entries(entries, batch, j / batch).len(),
        batch_entries(entries, batch, j / batch)[j % batch] == entries[j],
        batch_entries(entries, batch, c).len() == (if (c + 1) * batch <= entries.len() {
            batch
        } else {
            entries.len() - c * batch
        }),
        batch_entries(entries, batch, c).len() >= 1,
{
    let n = entries.len() as int;
    let q = j / batch;
    let m = batch_count(n, batch);
    lemma_fundamental_div_mod(j, batch);
    lemma_fundamental_div_mod(n + batch - 1, batch);
    vstd::arithmetic::div_mod::lemma_mod_bound(j, batch);
    vstd::arithmetic::div_mod::lemma_mod_bound(n + batch - 1, batch);
    assert(q >= 0 && q < m) by (nonlinear_arith)
        requires
            batch > 0,
            j == batch * q + j % batch,
            0 <= j % batch < batch,
            0 <= j < n,
            n + batch - 1 == batch * m + (n + batch - 1) % batch,
            0 <= (n + batch - 1) % batch < batch,
    ;
    assert(c * batch < n) by (nonlinear_arith)
        requires
            batch > 0,
            0 <= c < m,
            n + batch - 1 == batch * m + (n + batch - 1) % batch,
            0 <= (n + batch - 1) % batch < batch,
    ;
    assert((c + 1) * batch == c * batch + batch) by (nonlinear_arith);
    assert((q + 1) * batch == q * batch + batch) by (nonlinear_arith);
    assert(q * batch == batch * q) by (nonlinear_arith);
    assert(c * batch >= 0) by (nonlinear_arith)
        requires
            c >= 0,
            batch > 0,
    ;
    assert(q * batch >= 0) by (nonlinear_arith)
        requires
            q >= 0,
            batch > 0,
    ;
}

/// Law: a flagged pair is at infinity exactly where its flag says so, and then has zero
/// coordinates; a prepared point is at infinity exactly where it is marked.
pub proof fn law_flagged_points(
    pair: (AffinePoint, bool),
    point: PreparedAffinePoint,
)
    requires
        flagged(pair, point.spec_point()),
    ensures
        pair.1 == point.is_infinity,
        pair.1 ==> pair.0.x.spec_value() == 0 && pair.0.y.spec_value() == 0,
        !pair.1 ==> pair.0.x.spec_value() == point.x.spec_value() && pair.0.y.spec_value()
            == point.y.spec_value(),
{
}

/// Law: a check fails exactly where there is a reason, and with it.
pub proof fn law_outcome(error: Option<PublicKeyOnCurveError>)
    ensures
        outcome(error) is Ok <==> error is None,
        error matches Some(e) ==> outcome(error) == Err::<(), PublicKeyOnCurveError>(e),
{
}

/// Law: the products of the certificates are those of the active ones, one each, in order.
pub proof fn law_products_of_active_certificates(
    instances: Seq<ScalarModMulInstance>,
    rows: Seq<FakeGlvScalarRow>,
    i: int,
)
    requires
        certificate_products(instances, active_rows(rows)),
        0 <= i < active_rows(rows).len(),
        active_rows(rows)[i].scalar.canonical(),
    ensures
        instances.len() == active_rows(rows).len(),
        instances[i].lhs.spec_value() == active_rows(rows)[i].scalar.spec_value(),
        instances[i].rhs.spec_value() == active_rows(rows)[i].s2_abs.spec_value(),
        instances[i].mul_id == 1_000_000 + 2 * active_rows(rows)[i].sig_id.0
            + active_rows(rows)[i].cert_id.0,
{
    let row = active_rows(rows)[i];
    assert(certificate_product(instances[i], row));
    row.scalar.lemma_canonical_range();
    lemma_small_mod(row.scalar.spec_value() as nat, two_256() as nat);
}

/// Law: a cell of a batched column is the sum of the fractions that the entries of its batch
/// have in its row.
pub proof fn law_batched_cell_is_the_sum(entries: Seq<LogupEntry>, row: int, i: int)
    requires
        entries.len() > 0,
        0 <= i < entries.len(),
        invertible_denominators(row_fractions(entries, row)),
    ensures
        row_fractions(entries, row).len() == entries.len(),
        row_fractions(entries, row)[i].numerator == entries[i].numerators@[row],
        row_fractions(entries, row)[i].denominator == entries[i].denominators@[row],
        sf_product(
            row_fractions(entries, row)[i].spec_value(),
            entries[i].denominators@[row],
        ) == entries[i].numerators@[row],
        fold_fractions(row_fractions(entries, row)).spec_value() == sf_sum_of(
            fraction_values(row_fractions(entries, row)),
        ),
{
    let s = row_fractions(entries, row);
    law_folded_fraction_is_the_sum(s);
    let (n, d) = (s[i].numerator, s[i].denominator);
    assert(s[i].wf());
    // (n / d) d = n (d / d) = n.
    law_product_associates(n, sf_inverse(d), d);
    law_product_commutes(sf_inverse(d), d);
    law_product_identity(n);
}

} // verus!
