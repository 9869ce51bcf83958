//! The ensemble of regression units that predicts a bounded quality score.

use vstd::prelude::*;
use crate::features::{bitrates, collect_bitrates, PredictionFeatures};
use crate::fixed::{clamp, divide_trunc, multiply, product, sat, saturate, trunc_div, SCALE};
use crate::stats::{fit_line, ols_intercept, ols_slope, r_squared, score};
use crate::tree::{copy_units, same_units, DecisionTree};

verus! {

/// The greatest score that an ensemble predicts: 100.
pub const SCORE_MAX: i64 = 100_000_000;

/// The weight that every fitted unit gives the frame-drop ratio, before its
/// variation: -5.
pub const FRAME_DROP_PENALTY: i64 = -5_000_000_000_000;

/// Half the step between the variation factors of neighbouring units: 0.01.
pub const VARIATION_HALF_STEP: i64 = 10_000;

/// An ordered sequence of regression units that are fitted together and
/// whose outputs are averaged. Their number is fixed when the ensemble is
/// made.
#[derive(Debug, PartialEq, Eq)]
pub struct SimpleRandomForest {
    trees: Vec<DecisionTree>,
}

impl View for SimpleRandomForest {
    type V = Seq<DecisionTree>;

    closed spec fn view(&self) -> Seq<DecisionTree> {
        self.trees@
    }
}

impl Clone for SimpleRandomForest {
    fn clone(&self) -> (r: Self)
        ensures
            r@ == self@,
    {
        SimpleRandomForest { trees: copy_units(&self.trees) }
    }
}

/// The factor by which unit `i` of `n` departs from the common trend:
/// `1 + (i - n/2) * 0.02`, which is `1 + (2i - n) * 0.01`.
pub open spec fn variation(i: nat, n: nat) -> int {
    sat(SCALE + (2 * i - n) * VARIATION_HALF_STEP)
}

/// Unit `i` of `n` for a trend with the given slope and intercept: the
/// intercept, the bitrate weight and the frame-drop penalty, each multiplied
/// by the unit's variation factor.
pub open spec fn perturbed(slope: int, intercept: int, i: nat, n: nat) -> DecisionTree {
    let v = variation(i, n);
    DecisionTree::trend(
        product(intercept, v) as i64,
        product(slope, v) as i64,
        product(FRAME_DROP_PENALTY as int, v) as i64,
    )
}

/// The `n` units fitted to targets `ys` observed at bitrates `xs`.
pub open spec fn fitted(n: nat, xs: Seq<i64>, ys: Seq<i64>) -> Seq<DecisionTree> {
    Seq::new(n, |i: int| perturbed(ols_slope(xs, ys), ols_intercept(xs, ys), i as nat, n))
}

/// The units after a fit: unchanged where the training data are empty or
/// their lengths differ, else every unit refitted.
pub open spec fn trained(
    units: Seq<DecisionTree>,
    features: Seq<PredictionFeatures>,
    targets: Seq<i64>,
) -> Seq<DecisionTree> {
    if features.len() == 0 || features.len() != targets.len() {
        units
    } else {
        fitted(units.len(), bitrates(features), targets)
    }
}

/// Sum of the outputs of the first `n` units on input `x`.
pub open spec fn output_total(units: Seq<DecisionTree>, x: Seq<i64>, n: nat) -> int
    decreases n,
{
    if n == 0 {
        0
    } else {
        output_total(units, x, (n - 1) as nat) + units[n - 1].output(x)
    }
}

/// The ensemble's prediction on input `x`: the mean output of its units,
/// limited to `[0, 100]`; zero for an ensemble without units.
pub open spec fn ensemble_output(units: Seq<DecisionTree>, x: Seq<i64>) -> int {
    if units.len() == 0 {
        0
    } else {
        clamp(
            trunc_div(output_total(units, x, units.len()), units.len() as int),
            0,
            SCORE_MAX as int,
        )
    }
}

/// The ensemble's prediction for each of `records`, in order.
pub open spec fn ensemble_outputs(
    units: Seq<DecisionTree>,
    records: Seq<PredictionFeatures>,
) -> Seq<i64> {
    Seq::new(records.len(), |i: int| ensemble_output(units, records[i].vector()) as i64)
}

/// The sum of `n` unit outputs lies between `n` times the least and `n`
/// times the greatest value.
proof fn lemma_output_total_bounds(units: Seq<DecisionTree>, x: Seq<i64>, n: nat)
    ensures
        n * (i64::MIN as int) <= output_total(units, x, n) <= n * (i64::MAX as int),
    decreases n,
{
    if n > 0 {
        lemma_output_total_bounds(units, x, (n - 1) as nat);
        assert(n * (i64::MIN as int) == (n - 1) * (i64::MIN as int) + (i64::MIN as int))
            by (nonlinear_arith);
        assert(n * (i64::MAX as int) == (n - 1) * (i64::MAX as int) + (i64::MAX as int))
            by (nonlinear_arith);
    }
}

/// A fit keeps the number of units, and every fitted unit weighs only the
/// bitrate and the frame-drop ratio: resolution, frame rate and motion
/// intensity do not enter into its output.
pub proof fn lemma_fitted_units(n: nat, xs: Seq<i64>, ys: Seq<i64>, i: int)
    requires
        0 <= i < n,
    ensures
        fitted(n, xs, ys).len() == n,
        fitted(n, xs, ys)[i].weights[1] == 0,
        fitted(n, xs, ys)[i].weights[2] == 0,
        fitted(n, xs, ys)[i].weights[3] == 0,
        fitted(n, xs, ys)[i].weights[5] == 0,
{
}

/// The variation factor of unit `i` of `n`.
pub fn variation_factor(i: usize, n: usize) -> (r: i64)
    ensures
        r == variation(i as nat, n as nat),
{
    let offset: i128 = 2 * (i as i128) - (n as i128);
    assert(-0x1_0000_0000_0000_0000 * 10_000 <= offset * VARIATION_HALF_STEP
        <= 0x2_0000_0000_0000_0000 * 10_000) by (nonlinear_arith)
        requires
            -0x1_0000_0000_0000_0000 <= offset <= 0x2_0000_0000_0000_0000,
            VARIATION_HALF_STEP == 10_000,
    ;
    saturate(SCALE as i128 + offset * (VARIATION_HALF_STEP as i128))
}

impl SimpleRandomForest {
    /// An ensemble of `n_trees` units that all predict zero.
    pub fn new(n_trees: usize) -> (r: Self)
        ensures
            r@.len() == n_trees,
            forall|i: int| 0 <= i < n_trees ==> r@[i] == DecisionTree::trend(0, 0, 0),
    {
        let mut trees: Vec<DecisionTree> = Vec::new();
        let mut i: usize = 0;
        while i < n_trees
            invariant
                i <= n_trees,
                trees@.len() == i,
                forall|k: int| 0 <= k < i ==> trees@[k] == DecisionTree::trend(0, 0, 0),
            decreases n_trees - i,
        {
            trees.push(DecisionTree::zero());
            i = i + 1;
        }
        SimpleRandomForest { trees }
    }

    /// An ensemble of the given units.
    pub fn from_units(units: Vec<DecisionTree>) -> (r: Self)
        ensures
            r@ == units@,
    {
        SimpleRandomForest { trees: units }
    }

    /// The number of units.
    pub fn n_trees(&self) -> (r: usize)
        ensures
            r == self@.len(),
    {
        self.trees.len()
    }

    /// Whether two ensembles hold the same units in the same order.
    pub fn same_as(&self, other: &SimpleRandomForest) -> (r: bool)
        ensures
            r == (self@ == other@),
    {
        same_units(&self.trees, &other.trees)
    }

    /// The units, in order.
    pub fn trees(&self) -> (r: &Vec<DecisionTree>)
        ensures
            r@ == self@,
    {
        &self.trees
    }

    /// Fits every unit to `targets` observed at the bitrates of `features`.
    /// Leaves the ensemble as it is where the training data are empty or
    /// their lengths differ.
    pub fn train(&mut self, features: &[PredictionFeatures], targets: &[i64])
        ensures
            final(self)@ == trained(old(self)@, features@, targets@),
            features@.len() == 0 || targets@.len() == 0 ==> final(self)@ == old(self)@,
            final(self)@.len() == old(self)@.len(),
    {
        if features.len() == 0 || features.len() != targets.len() {
            return;
        }
        let xs: Vec<i64> = collect_bitrates(features);
        let (slope, intercept) = fit_line(xs.as_slice(), targets);
        let n: usize = self.trees.len();
        let mut trees: Vec<DecisionTree> = Vec::new();
        let mut i: usize = 0;
        while i < n
            invariant
                i <= n,
                trees@.len() == i,
                forall|k: int|
                    0 <= k < i ==> trees@[k] == perturbed(
                        slope as int,
                        intercept as int,
                        k as nat,
                        n as nat,
                    ),
            decreases n - i,
        {
            let v: i64 = variation_factor(i, n);
            trees.push(
                DecisionTree::with_trend(
                    multiply(intercept, v),
                    multiply(slope, v),
                    multiply(FRAME_DROP_PENALTY, v),
                ),
            );
            i = i + 1;
        }
        self.trees = trees;
    }

    /// The mean output of the units for `features`, limited to `[0, 100]`.
    pub fn predict(&self, features: &PredictionFeatures) -> (r: i64)
        ensures
            r == ensemble_output(self@, features.vector()),
            0 <= r <= SCORE_MAX,
    {
        let n: usize = self.trees.len();
        if n == 0 {
            return 0;
        }
        let mut acc: i128 = 0;
        let mut i: usize = 0;
        while i < n
            invariant
                n == self.trees@.len(),
                i <= n,
                acc == output_total(self.trees@, features.vector(), i as nat),
                i * (i64::MIN as int) <= acc <= i * (i64::MAX as int),
            decreases n - i,
        {
            proof {
                lemma_output_total_bounds(self.trees@, features.vector(), (i + 1) as nat);
                assert(i * (i64::MAX as int) <= 0xffff_ffff_ffff_ffff * (i64::MAX as int))
                    by (nonlinear_arith)
                    requires
                        i <= 0xffff_ffff_ffff_ffff,
                ;
                assert(i * (i64::MIN as int) >= 0xffff_ffff_ffff_ffff * (i64::MIN as int))
                    by (nonlinear_arith)
                    requires
                        i <= 0xffff_ffff_ffff_ffff,
                ;
            }
            acc = acc + self.trees[i].evaluate(features) as i128;
            i = i + 1;
        }
        let avg: i128 = divide_trunc(acc, n as i128);
        if avg < 0 {
            0
        } else if avg > SCORE_MAX as i128 {
            SCORE_MAX
        } else {
            avg as i64
        }
    }

    /// The ensemble's prediction for each of `records`, in order.
    pub fn predict_all(&self, records: &[PredictionFeatures]) -> (r: Vec<i64>)
        ensures
            r@ == ensemble_outputs(self@, records@),
    {
        let n: usize = records.len();
        let mut out: Vec<i64> = Vec::new();
        let mut i: usize = 0;
        while i < n
            invariant
                n == records@.len(),
                i <= n,
                out@ =~= ensemble_outputs(self@, records@).take(i as int),
            decreases n - i,
        {
            out.push(self.predict(&records[i]));
            i = i + 1;
        }
        out
    }

    /// Coefficient of determination of the ensemble's predictions for
    /// `features` against `targets`, over the pairs that both have. Zero
    /// where either is empty or the targets do not vary.
    pub fn r2_score(&self, features: &[PredictionFeatures], targets: &[i64]) -> (r: i64)
        ensures
            r == r_squared(targets@, ensemble_outputs(self@, features@)),
    {
        let predictions: Vec<i64> = self.predict_all(features);
        score(targets, predictions.as_slice())
    }
}

} // verus!
