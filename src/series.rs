//! Mathematical statistics over series of unsigned integers, and the
//! lemmas that relate them.

use vstd::prelude::*;

verus! {

/// Sum of every value of the series.
pub open spec fn total(s: Seq<u64>) -> int
    decreases s.len(),
{
    if s.len() == 0 {
        0
    } else {
        total(s.drop_last()) + s.last()
    }
}

/// Largest value of the series, or 0 when it is empty.
pub open spec fn peak(s: Seq<u64>) -> u64
    decreases s.len(),
{
    if s.len() == 0 {
        0
    } else {
        let m = peak(s.drop_last());
        if s.last() > m {
            s.last()
        } else {
            m
        }
    }
}

/// Truncating integer mean, absent for an empty series.
pub open spec fn mean(s: Seq<u64>) -> Option<u64> {
    if s.len() == 0 {
        None
    } else {
        Some((total(s) / (s.len() as int)) as u64)
    }
}

/// Largest value, absent for an empty series.
pub open spec fn maximum(s: Seq<u64>) -> Option<u64> {
    if s.len() == 0 {
        None
    } else {
        Some(peak(s))
    }
}

/// Whether every value of the series is the same.
pub open spec fn all_equal(s: Seq<u64>) -> bool {
    forall|i: int, j: int| 0 <= i < s.len() && 0 <= j < s.len() ==> s[i] == s[j]
}

pub proof fn lemma_total_bounds(s: Seq<u64>)
    ensures
        0 <= total(s) <= s.len() * (u64::MAX as int),
        total(s) <= s.len() * (peak(s) as int),
    decreases s.len(),
{
    if s.len() > 0 {
        let p = s.drop_last();
        lemma_total_bounds(p);
        let n = p.len() as int;
        let m = peak(p) as int;
        let q = peak(s) as int;
        assert(m <= q);
        assert(n * m <= n * q) by (nonlinear_arith)
            requires
                n >= 0,
                m <= q,
        ;
        assert(s.len() * q == n * q + q) by (nonlinear_arith)
            requires
                s.len() == n + 1,
        ;
        assert(s.len() * (u64::MAX as int) == n * (u64::MAX as int) + (u64::MAX as int))
            by (nonlinear_arith)
            requires
                s.len() == n + 1,
        ;
    }
}

pub proof fn lemma_peak_is_upper_bound(s: Seq<u64>, i: int)
    requires
        0 <= i < s.len(),
    ensures
        s[i] <= peak(s),
    decreases s.len(),
{
    if i < s.len() - 1 {
        lemma_peak_is_upper_bound(s.drop_last(), i);
    }
}

/// Where one value falls short of the peak, the total falls short of
/// `len * peak` by at least as much.
pub proof fn lemma_total_gap(s: Seq<u64>, i: int)
    requires
        0 <= i < s.len(),
    ensures
        total(s) + (peak(s) - s[i]) <= s.len() * (peak(s) as int),
    decreases s.len(),
{
    let p = s.drop_last();
    let n = p.len() as int;
    let q = peak(s) as int;
    lemma_peak_is_upper_bound(s, s.len() - 1);
    lemma_total_bounds(p);
    assert(n * (peak(p) as int) <= n * q) by (nonlinear_arith)
        requires
            n >= 0,
            peak(p) <= q,
    ;
    if i < s.len() - 1 {
        lemma_total_gap(p, i);
        assert(p[i] == s[i]);
        let pp = peak(p) as int;
        assert((n - 1) * pp <= (n - 1) * q) by (nonlinear_arith)
            requires
                n >= 1,
                pp <= q,
        ;
        assert(n * pp == (n - 1) * pp + pp) by (nonlinear_arith);
        assert(n * q == (n - 1) * q + q) by (nonlinear_arith);
        assert(q == pp || q == s.last());
    }
    assert(s.len() * q == n * q + q) by (nonlinear_arith)
        requires
            s.len() == n + 1,
    ;
}

pub proof fn lemma_peak_is_member(s: Seq<u64>)
    requires
        s.len() > 0,
    ensures
        exists|i: int| 0 <= i < s.len() && s[i] == peak(s),
    decreases s.len(),
{
    if s.len() == 1 {
        assert(peak(s.drop_last()) == 0);
        assert(s[0] == peak(s));
    } else {
        let p = s.drop_last();
        if s.last() <= peak(p) {
            lemma_peak_is_member(p);
            let i = choose|i: int| 0 <= i < p.len() && p[i] == peak(p);
            assert(s[i] == peak(s));
        } else {
            assert(s[s.len() - 1] == peak(s));
        }
    }
}

pub proof fn lemma_total_of_constant(s: Seq<u64>)
    requires
        all_equal(s),
        s.len() > 0,
    ensures
        total(s) == s.len() * (s[0] as int),
    decreases s.len(),
{
    let p = s.drop_last();
    if p.len() > 0 {
        assert(all_equal(p));
        lemma_total_of_constant(p);
        assert(p[0] == s[0]);
    } else {
        assert(total(p) == 0);
    }
    assert(s.last() == s[0]);
    let c = s[0] as int;
    assert(s.len() * c == p.len() * c + c) by (nonlinear_arith)
        requires
            s.len() == p.len() + 1,
    ;
}

pub proof fn lemma_peak_of_constant(s: Seq<u64>)
    requires
        all_equal(s),
        s.len() > 0,
    ensures
        peak(s) == s[0],
{
    lemma_peak_is_member(s);
}

/// A quotient bounded through its dividend.
pub proof fn lemma_quotient_bound(a: int, n: int, m: int)
    requires
        n > 0,
        0 <= a <= n * m,
    ensures
        0 <= a / n <= m,
{
    assert(0 <= a / n <= m) by (nonlinear_arith)
        requires
            n > 0,
            0 <= a <= n * m,
    ;
}

/// In a series with at least one value, the peak is never below the mean;
/// the two coincide where all values are equal, and the mean is strictly
/// below the peak where they are not.
pub proof fn lemma_peak_at_least_mean(s: Seq<u64>)
    requires
        s.len() > 0,
    ensures
        mean(s) matches Some(m) && m <= peak(s),
        all_equal(s) ==> mean(s) == Some(peak(s)),
        !all_equal(s) ==> (mean(s) matches Some(m) && m < peak(s)),
{
    lemma_total_bounds(s);
    lemma_quotient_bound(total(s), s.len() as int, peak(s) as int);
    if all_equal(s) {
        lemma_total_of_constant(s);
        lemma_peak_of_constant(s);
        let n = s.len() as int;
        let c = s[0] as int;
        assert((n * c) / n == c) by (nonlinear_arith)
            requires
                n > 0,
        ;
    } else {
        let (i, j) = choose|i: int, j: int| 0 <= i < s.len() && 0 <= j < s.len() && s[i] != s[j];
        lemma_peak_is_upper_bound(s, i);
        lemma_peak_is_upper_bound(s, j);
        let k = if s[i] < peak(s) { i } else { j };
        lemma_total_gap(s, k);
        let n = s.len() as int;
        let a = total(s);
        let q = peak(s) as int;
        assert(a / n < q) by (nonlinear_arith)
            requires
                n > 0,
                0 <= a,
                a < n * q,
        ;
    }
}

} // verus!
