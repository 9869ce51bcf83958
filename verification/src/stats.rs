//! Sums, means and least-squares fits over sequences of fixed-point values.

use vstd::prelude::*;
use crate::fixed::{
    difference, divide, divide_to_weight, divide_trunc, multiply, product, quotient, subtract,
    trunc_div, weight_quotient, weighted, apply_weight, SCALE,
};

verus! {

/// Exact sum of the first `n` items of `s`.
pub open spec fn total(s: Seq<i64>, n: nat) -> int
    decreases n,
{
    if n == 0 {
        0
    } else {
        total(s, (n - 1) as nat) + s[n - 1]
    }
}

/// Mean of all items of `s`, rounded toward zero; zero for the empty sequence.
pub open spec fn mean(s: Seq<i64>) -> int {
    if s.len() == 0 {
        0
    } else {
        trunc_div(total(s, s.len()), s.len() as int)
    }
}

/// Sum over the first `n` pairs of the product of the deviations
/// `xs[i] - mx` and `ys[i] - my`.
pub open spec fn product_total(xs: Seq<i64>, ys: Seq<i64>, mx: int, my: int, n: nat) -> int
    decreases n,
{
    if n == 0 {
        0
    } else {
        product_total(xs, ys, mx, my, (n - 1) as nat) + product(
            difference(xs[n - 1] as int, mx),
            difference(ys[n - 1] as int, my),
        )
    }
}

/// Mean over the first `n` pairs of the product of deviations, rounded
/// toward zero; zero where `n` is zero.
pub open spec fn moment(xs: Seq<i64>, ys: Seq<i64>, mx: int, my: int, n: nat) -> int {
    if n == 0 {
        0
    } else {
        trunc_div(product_total(xs, ys, mx, my, n), n as int)
    }
}

/// Least-squares slope of `ys` against `xs`, as a weight: the mean product of
/// deviations divided by the mean squared deviation of `xs`, and zero where
/// the latter is not positive.
pub open spec fn ols_slope(xs: Seq<i64>, ys: Seq<i64>) -> int {
    let mx = mean(xs);
    let my = mean(ys);
    weight_quotient(moment(xs, ys, mx, my, xs.len()), moment(xs, xs, mx, mx, xs.len()))
}

/// Least-squares intercept of `ys` against `xs`: the mean of `ys` less the
/// slope applied to the mean of `xs`.
pub open spec fn ols_intercept(xs: Seq<i64>, ys: Seq<i64>) -> int {
    difference(mean(ys), weighted(ols_slope(xs, ys), mean(xs)))
}

/// Item by item, `targets[i] - predictions[i]`, for the first `n` pairs.
pub open spec fn residuals(targets: Seq<i64>, predictions: Seq<i64>, n: nat) -> Seq<i64> {
    Seq::new(n, |i: int| difference(targets[i] as int, predictions[i] as int) as i64)
}

/// Coefficient of determination of `predictions` against `targets`, over the
/// pairs that both sequences have: one less the mean squared residual divided
/// by the mean squared deviation of the targets from their mean. Zero where
/// either sequence is empty or that mean squared deviation is zero.
pub open spec fn r_squared(targets: Seq<i64>, predictions: Seq<i64>) -> int {
    let n = if targets.len() <= predictions.len() {
        targets.len()
    } else {
        predictions.len()
    };
    let m = mean(targets);
    let spread = moment(targets, targets, m, m, n);
    let res = residuals(targets, predictions, n);
    let error = moment(res, res, 0, 0, n);
    if n == 0 || spread == 0 {
        0
    } else {
        difference(SCALE as int, quotient(error, spread))
    }
}

/// A sum of `n` 64-bit integers lies between `n` times the least and `n`
/// times the greatest of them.
proof fn lemma_total_bounds(s: Seq<i64>, n: nat)
    requires
        n <= s.len(),
    ensures
        n * (i64::MIN as int) <= total(s, n) <= n * (i64::MAX as int),
    decreases n,
{
    if n > 0 {
        lemma_total_bounds(s, (n - 1) as nat);
        assert(n * (i64::MIN as int) == (n - 1) * (i64::MIN as int) + (i64::MIN as int))
            by (nonlinear_arith);
        assert(n * (i64::MAX as int) == (n - 1) * (i64::MAX as int) + (i64::MAX as int))
            by (nonlinear_arith);
    }
}

/// The sum of `n` products of deviations lies within the same bounds.
proof fn lemma_product_total_bounds(xs: Seq<i64>, ys: Seq<i64>, mx: int, my: int, n: nat)
    ensures
        n * (i64::MIN as int) <= product_total(xs, ys, mx, my, n) <= n * (i64::MAX as int),
    decreases n,
{
    if n > 0 {
        lemma_product_total_bounds(xs, ys, mx, my, (n - 1) as nat);
        assert(n * (i64::MIN as int) == (n - 1) * (i64::MIN as int) + (i64::MIN as int))
            by (nonlinear_arith);
        assert(n * (i64::MAX as int) == (n - 1) * (i64::MAX as int) + (i64::MAX as int))
            by (nonlinear_arith);
    }
}

/// A sum of squared deviations is never negative.
proof fn lemma_square_total_nonnegative(xs: Seq<i64>, m: int, n: nat)
    ensures
        product_total(xs, xs, m, m, n) >= 0,
    decreases n,
{
    if n > 0 {
        lemma_square_total_nonnegative(xs, m, (n - 1) as nat);
        let d = difference(xs[n - 1] as int, m);
        assert(d * d >= 0) by (nonlinear_arith);
    }
}

/// The coefficient of determination never exceeds one.
pub proof fn lemma_r_squared_at_most_one(targets: Seq<i64>, predictions: Seq<i64>)
    ensures
        r_squared(targets, predictions) <= SCALE,
{
    let n = if targets.len() <= predictions.len() {
        targets.len()
    } else {
        predictions.len()
    };
    let m = mean(targets);
    let spread = moment(targets, targets, m, m, n);
    let res = residuals(targets, predictions, n);
    let error = moment(res, res, 0, 0, n);
    if n != 0 && spread != 0 {
        lemma_square_total_nonnegative(res, 0, n);
        assert(error >= 0) by {
            let t = product_total(res, res, 0, 0, n);
            assert(t / (n as int) >= 0) by (nonlinear_arith)
                requires
                    t >= 0,
                    n > 0,
            ;
        }
        if spread > 0 {
            assert((error * SCALE) / spread >= 0) by (nonlinear_arith)
                requires
                    error >= 0,
                    spread > 0,
                    SCALE == 1_000_000,
            ;
            assert(error * SCALE >= 0) by (nonlinear_arith)
                requires
                    error >= 0,
                    SCALE == 1_000_000,
            ;
        }
    }
}

/// A mean of 64-bit integers is a 64-bit integer.
proof fn lemma_mean_in_range(t: int, n: int)
    requires
        n > 0,
        n * (i64::MIN as int) <= t <= n * (i64::MAX as int),
    ensures
        i64::MIN <= trunc_div(t, n) <= i64::MAX,
{
    let lo = i64::MIN as int;
    let hi = i64::MAX as int;
    if t >= 0 {
        assert(t / n <= hi) by (nonlinear_arith)
            requires
                n > 0,
                0 <= t <= n * hi,
        ;
        assert(0 <= t / n) by (nonlinear_arith)
            requires
                n > 0,
                0 <= t,
        ;
    } else {
        assert((-t) / n <= -lo) by (nonlinear_arith)
            requires
                n > 0,
                0 <= -t <= n * (-lo),
        ;
        assert(0 <= (-t) / n) by (nonlinear_arith)
            requires
                n > 0,
                0 <= -t,
        ;
    }
}

/// Mean of a slice, rounded toward zero; zero for the empty slice.
pub fn mean_of(values: &[i64]) -> (r: i64)
    ensures
        r == mean(values@),
{
    let n: usize = values.len();
    if n == 0 {
        return 0;
    }
    let mut acc: i128 = 0;
    let mut i: usize = 0;
    while i < n
        invariant
            n == values@.len(),
            i <= n,
            acc == total(values@, i as nat),
            i * (i64::MIN as int) <= acc <= i * (i64::MAX as int),
        decreases n - i,
    {
        proof {
            lemma_total_bounds(values@, (i + 1) as nat);
            assert(i * (i64::MAX as int) <= 0xffff_ffff_ffff_ffff * (i64::MAX as int))
                by (nonlinear_arith)
                requires
                    i <= 0xffff_ffff_ffff_ffff,
            ;
            assert(i * (i64::MIN as int) >= 0xffff_ffff_ffff_ffff * (i64::MIN as int))
                by (nonlinear_arith)
                requires
                    i <= 0xffff_ffff_ffff_ffff,
            ;
        }
        acc = acc + values[i] as i128;
        i = i + 1;
    }
    proof {
        lemma_mean_in_range(acc as int, n as int);
    }
    divide_trunc(acc, n as i128) as i64
}

/// Mean product of deviations over the first `n` pairs.
pub fn moment_of(xs: &[i64], ys: &[i64], mx: i64, my: i64, n: usize) -> (r: i64)
    requires
        n <= xs@.len(),
        n <= ys@.len(),
    ensures
        r == moment(xs@, ys@, mx as int, my as int, n as nat),
{
    if n == 0 {
        return 0;
    }
    let mut acc: i128 = 0;
    let mut i: usize = 0;
    while i < n
        invariant
            n <= xs@.len(),
            n <= ys@.len(),
            i <= n,
            acc == product_total(xs@, ys@, mx as int, my as int, i as nat),
            i * (i64::MIN as int) <= acc <= i * (i64::MAX as int),
        decreases n - i,
    {
        proof {
            lemma_product_total_bounds(xs@, ys@, mx as int, my as int, (i + 1) as nat);
            assert(i * (i64::MAX as int) <= 0xffff_ffff_ffff_ffff * (i64::MAX as int))
                by (nonlinear_arith)
                requires
                    i <= 0xffff_ffff_ffff_ffff,
            ;
            assert(i * (i64::MIN as int) >= 0xffff_ffff_ffff_ffff * (i64::MIN as int))
                by (nonlinear_arith)
                requires
                    i <= 0xffff_ffff_ffff_ffff,
            ;
        }
        let term: i64 = multiply(subtract(xs[i], mx), subtract(ys[i], my));
        acc = acc + term as i128;
        i = i + 1;
    }
    proof {
        lemma_mean_in_range(acc as int, n as int);
    }
    divide_trunc(acc, n as i128) as i64
}

/// Least-squares line through the points `(xs[i], ys[i])`: the slope, as a
/// weight, and the intercept, as a value.
pub fn fit_line(xs: &[i64], ys: &[i64]) -> (r: (i64, i64))
    requires
        xs@.len() == ys@.len(),
    ensures
        r.0 == ols_slope(xs@, ys@),
        r.1 == ols_intercept(xs@, ys@),
{
    let n: usize = xs.len();
    let mx: i64 = mean_of(xs);
    let my: i64 = mean_of(ys);
    let cross: i64 = moment_of(xs, ys, mx, my, n);
    let spread: i64 = moment_of(xs, xs, mx, mx, n);
    let slope: i64 = divide_to_weight(cross, spread);
    let intercept: i64 = subtract(my, apply_weight(slope, mx));
    (slope, intercept)
}

/// Coefficient of determination of `predictions` against `targets`.
pub fn score(targets: &[i64], predictions: &[i64]) -> (r: i64)
    ensures
        r == r_squared(targets@, predictions@),
{
    let n: usize = if targets.len() <= predictions.len() {
        targets.len()
    } else {
        predictions.len()
    };
    if n == 0 {
        return 0;
    }
    let m: i64 = mean_of(targets);
    let spread: i64 = moment_of(targets, targets, m, m, n);
    let mut res: Vec<i64> = Vec::new();
    let mut i: usize = 0;
    while i < n
        invariant
            n <= targets@.len(),
            n <= predictions@.len(),
            i <= n,
            res@ =~= residuals(targets@, predictions@, i as nat),
        decreases n - i,
    {
        res.push(subtract(targets[i], predictions[i]));
        i = i + 1;
    }
    let error: i64 = moment_of(res.as_slice(), res.as_slice(), 0, 0, n);
    if spread == 0 {
        0
    } else {
        subtract(SCALE, divide(error, spread))
    }
}

} // verus!
