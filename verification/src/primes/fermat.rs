//! Fermat's little theorem.
use crate::primes::{lemma_prime_factor, prime};
use vstd::arithmetic::div_mod::{
    lemma_fundamental_div_mod, lemma_mod_bound, lemma_mod_multiples_vanish,
    lemma_mul_mod_noop_left, lemma_mul_mod_noop_right, lemma_small_mod, lemma_sub_mod_noop,
};
use vstd::arithmetic::power::{lemma_pow0, lemma_pow1, lemma_pow_adds, pow};
use vstd::prelude::*;

verus! {

/// The product of a list of numbers.
spec fn product(s: Seq<int>) -> int
    decreases s.len(),
{
    if s.len() == 0 {
        1
    } else {
        product(s.drop_last()) * s.last()
    }
}

/// Taking a factor out of a list.
proof fn lemma_product_of_remove(s: Seq<int>, j: int)
    requires
        0 <= j < s.len(),
    ensures
        product(s) == product(s.remove(j)) * s[j],
    decreases s.len(),
{
    let last = s.len() - 1;
    if j == last {
        assert(s.remove(j) =~= s.drop_last());
    } else {
        lemma_product_of_remove(s.drop_last(), j);
        assert(s.remove(j).drop_last() =~= s.drop_last().remove(j));
        assert(s.remove(j).last() == s.last());
        let (a, b, c) = (product(s.drop_last().remove(j)), s[j], s.last());
        assert((a * b) * c == (a * c) * b) by (nonlinear_arith);
    }
}

/// A product does not depend on the order of its factors.
proof fn lemma_product_rearranged(s: Seq<int>, t: Seq<int>, place: spec_fn(int) -> int)
    requires
        s.len() == t.len(),
        forall|i: int|
            0 <= i < t.len() ==> 0 <= #[trigger] place(i) < s.len() && t[i] == s[place(i)],
        forall|i: int, j: int|
            0 <= i < j < t.len() ==> #[trigger] place(i) != #[trigger] place(j),
    ensures
        product(t) == product(s),
    decreases t.len(),
{
    if t.len() > 0 {
        let last = t.len() - 1;
        let j = place(last as int);
        let s2 = s.remove(j);
        let t2 = t.drop_last();
        let place2 = |i: int|
            if place(i) > j {
                place(i) - 1
            } else {
                place(i)
            };
        assert forall|i: int| 0 <= i < t2.len() implies 0 <= #[trigger] place2(i) < s2.len()
            && t2[i] == s2[place2(i)] by {
            assert(0 <= place(i) < s.len());
            assert(place(i) != place(last as int));
            assert(t2[i] == t[i]);
        }
        assert forall|a: int, b: int| 0 <= a < b < t2.len() implies #[trigger] place2(a)
            != #[trigger] place2(b) by {
            assert(place(a) != place(b));
            assert(place(a) != place(last as int));
            assert(place(b) != place(last as int));
        }
        lemma_product_rearranged(s2, t2, place2);
        lemma_product_of_remove(s, j);
    } else {
        assert(s =~= t);
    }
}

/// The numbers from one to `n`.
spec fn counting(n: nat) -> Seq<int> {
    Seq::new(n, |i: int| i + 1)
}

/// The multiples of `a` up to `n a`, reduced.
spec fn multiples(a: int, n: nat, p: int) -> Seq<int> {
    Seq::new(n, |i: int| (a * (i + 1)) % p)
}

/// The product of the multiples is the product of the numbers, times a power.
proof fn lemma_product_of_multiples(a: int, n: nat, p: int)
    requires
        p > 1,
    ensures
        product(multiples(a, n, p)) % p == (pow(a, n) * product(counting(n))) % p,
    decreases n,
{
    if n == 0 {
        lemma_pow0(a);
    } else {
        let m = (n - 1) as nat;
        lemma_product_of_multiples(a, m, p);
        assert(multiples(a, n, p).drop_last() =~= multiples(a, m, p));
        assert(counting(n).drop_last() =~= counting(m));
        let (u, v) = (product(multiples(a, m, p)), a * n);
        let (w, c) = (pow(a, m), product(counting(m)));
        lemma_mul_mod_noop_right(u, v, p);
        lemma_mul_mod_noop_left(u, v, p);
        lemma_mul_mod_noop_left(w * c, v, p);
        lemma_pow_adds(a, m, 1);
        lemma_pow1(a);
        assert((w * c) * (a * n) == (w * a) * (c * n)) by (nonlinear_arith);
        assert(counting(n).last() == n);
    }
}

/// No product of numbers below a prime is a multiple of it.
proof fn lemma_product_not_multiple(n: nat, p: int)
    requires
        prime(p),
        n < p,
    ensures
        product(counting(n)) % p != 0,
    decreases n,
{
    if n == 0 {
        lemma_small_mod(1, p as nat);
    } else {
        lemma_product_not_multiple((n - 1) as nat, p);
        assert(counting(n).drop_last() =~= counting((n - 1) as nat));
        if product(counting(n)) % p == 0 {
            lemma_prime_factor(product(counting((n - 1) as nat)), n as int, p);
            lemma_small_mod(n, p as nat);
        }
    }
}

/// Law: modulo a prime, the power `p - 1` of every residue but zero is one.
pub proof fn law_fermat(a: int, p: int)
    requires
        prime(p),
        0 < a < p,
    ensures
        pow(a, (p - 1) as nat) % p == 1,
{
    let n = (p - 1) as nat;
    let t = multiples(a, n, p);
    let s = counting(n);
    let place = |i: int| (a * (i + 1)) % p - 1;
    assert forall|i: int| 0 <= i < n implies 0 <= #[trigger] place(i) < n && t[i] == s[place(
        i,
    )] by {
        lemma_mod_bound(a * (i + 1), p);
        if (a * (i + 1)) % p == 0 {
            lemma_prime_factor(a, i + 1, p);
            lemma_small_mod(a as nat, p as nat);
            lemma_small_mod((i + 1) as nat, p as nat);
        }
    }
    assert forall|i: int, j: int| 0 <= i < j < n implies #[trigger] place(i) != #[trigger] place(
        j,
    ) by {
        if place(i) == place(j) {
            let (x, y) = (a * (i + 1), a * (j + 1));
            lemma_sub_mod_noop(y, x, p);
            assert(y - x == a * (j - i)) by (nonlinear_arith)
                requires
                    x == a * (i + 1),
                    y == a * (j + 1),
            ;
            lemma_small_mod(0, p as nat);
            lemma_prime_factor(a, j - i, p);
            lemma_small_mod(a as nat, p as nat);
            lemma_small_mod((j - i) as nat, p as nat);
        }
    }
    lemma_product_rearranged(s, t, place);
    lemma_product_of_multiples(a, n, p);
    lemma_product_not_multiple(n, p);
    // (a^n - 1) n! is a multiple of p.
    let (w, c) = (pow(a, n), product(s));
    lemma_sub_mod_noop(w * c, c, p);
    lemma_small_mod(0, p as nat);
    assert(w * c - c == (w - 1) * c) by (nonlinear_arith);
    lemma_prime_factor(w - 1, c, p);
    lemma_fundamental_div_mod(w - 1, p);
    lemma_mod_multiples_vanish((w - 1) / p, 1, p);
    lemma_small_mod(1, p as nat);
}

} // verus!
