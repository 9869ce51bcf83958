//! The linear regression unit that both model families are built from.

use vstd::prelude::*;
use crate::features::PredictionFeatures;
use crate::fixed::{
    apply_weight, distance, lemma_weighted_error, sat, saturate, trunc_div, weighted, WEIGHT_SCALE,
};

verus! {

/// An intercept, as a value, and one weight for each of the six features.
#[derive(Debug, Clone, Copy, PartialEq, Eq)]
pub struct DecisionTree {
    pub intercept: i64,
    pub weights: [i64; 6],
}

impl DecisionTree {
    /// The intercept plus each weight applied to its feature value, limited
    /// to what a value can hold.
    pub open spec fn output(self, x: Seq<i64>) -> int {
        sat(
            self.intercept + weighted(self.weights[0] as int, x[0] as int) + weighted(
                self.weights[1] as int,
                x[1] as int,
            ) + weighted(self.weights[2] as int, x[2] as int) + weighted(
                self.weights[3] as int,
                x[3] as int,
            ) + weighted(self.weights[4] as int, x[4] as int) + weighted(
                self.weights[5] as int,
                x[5] as int,
            ),
        )
    }

    /// A unit with the given intercept that weighs only the bitrate and the
    /// frame-drop ratio.
    pub open spec fn trend(intercept: i64, bitrate_weight: i64, frame_drop_weight: i64) -> Self {
        DecisionTree {
            intercept,
            weights: [bitrate_weight, 0, 0, 0, frame_drop_weight, 0],
        }
    }

    /// The unit that predicts zero everywhere.
    pub fn zero() -> (r: Self)
        ensures
            r == Self::trend(0, 0, 0),
    {
        DecisionTree { intercept: 0, weights: [0, 0, 0, 0, 0, 0] }
    }

    /// A unit with the given intercept that weighs only the bitrate and the
    /// frame-drop ratio.
    pub fn with_trend(intercept: i64, bitrate_weight: i64, frame_drop_weight: i64) -> (r: Self)
        ensures
            r == Self::trend(intercept, bitrate_weight, frame_drop_weight),
    {
        DecisionTree { intercept, weights: [bitrate_weight, 0, 0, 0, frame_drop_weight, 0] }
    }

    /// Whether two units have the same intercept and the same weights.
    pub fn same_as(&self, other: &DecisionTree) -> (r: bool)
        ensures
            r == (*self == *other),
    {
        if self.intercept != other.intercept {
            return false;
        }
        let mut i: usize = 0;
        while i < 6
            invariant
                i <= 6,
                forall|k: int| 0 <= k < i ==> self.weights[k] == other.weights[k],
            decreases 6 - i,
        {
            if self.weights[i] != other.weights[i] {
                return false;
            }
            i = i + 1;
        }
        assert(self.weights =~= other.weights);
        true
    }

    /// What the unit predicts for `features`.
    pub fn evaluate(&self, features: &PredictionFeatures) -> (r: i64)
        ensures
            r == self.output(features.vector()),
    {
        let x: [i64; 6] = features.to_vector();
        let acc: i128 = self.intercept as i128 + apply_weight(self.weights[0], x[0]) as i128
            + apply_weight(self.weights[1], x[1]) as i128 + apply_weight(
            self.weights[2],
            x[2],
        ) as i128 + apply_weight(self.weights[3], x[3]) as i128 + apply_weight(
            self.weights[4],
            x[4],
        ) as i128 + apply_weight(self.weights[5], x[5]) as i128;
        saturate(acc)
    }

    /// The exact value of the intercept plus each weight times its feature
    /// value, in units of `1 / WEIGHT_SCALE` raw units.
    pub open spec fn exact_output(self, x: Seq<i64>) -> int {
        self.intercept * WEIGHT_SCALE + self.weights[0] * x[0] + self.weights[1] * x[1]
            + self.weights[2] * x[2] + self.weights[3] * x[3] + self.weights[4] * x[4]
            + self.weights[5] * x[5]
    }

    /// Whether neither a term nor the sum of the output on `x` saturates.
    pub open spec fn in_range(self, x: Seq<i64>) -> bool {
        &&& forall|i: int|
            0 <= i < 6 ==> i64::MIN <= #[trigger] trunc_div(
                self.weights[i] * x[i],
                WEIGHT_SCALE as int,
            ) <= i64::MAX
        &&& i64::MIN <= self.intercept + weighted(self.weights[0] as int, x[0] as int)
            + weighted(self.weights[1] as int, x[1] as int) + weighted(
            self.weights[2] as int,
            x[2] as int,
        ) + weighted(self.weights[3] as int, x[3] as int) + weighted(
            self.weights[4] as int,
            x[4] as int,
        ) + weighted(self.weights[5] as int, x[5] as int) <= i64::MAX
    }

    /// Where nothing saturates, the output is the exact value of the
    /// intercept plus each weight times its feature value, to within six raw
    /// units: one for the rounding of each term.
    pub proof fn lemma_output_error(self, x: Seq<i64>)
        requires
            self.in_range(x),
        ensures
            distance(self.output(x) * WEIGHT_SCALE, self.exact_output(x)) < 6 * WEIGHT_SCALE,
    {
        assert forall|i: int| 0 <= i < 6 implies distance(
            #[trigger] weighted(self.weights[i] as int, x[i] as int) * WEIGHT_SCALE,
            self.weights[i] * x[i],
        ) < WEIGHT_SCALE by {
            lemma_weighted_error(self.weights[i] as int, x[i] as int);
        }
    }

    /// A unit whose weights are all zero predicts its intercept for every
    /// input.
    pub proof fn lemma_constant_unit(self, x: Seq<i64>)
        requires
            forall|i: int| 0 <= i < 6 ==> self.weights[i] == 0,
        ensures
            self.output(x) == self.intercept,
    {
    }
}

/// Whether two sequences of units hold the same units in the same order.
pub fn same_units(a: &Vec<DecisionTree>, b: &Vec<DecisionTree>) -> (r: bool)
    ensures
        r == (a@ == b@),
{
    let n: usize = a.len();
    if b.len() != n {
        return false;
    }
    let mut i: usize = 0;
    while i < n
        invariant
            n == a@.len(),
            n == b@.len(),
            i <= n,
            forall|k: int| 0 <= k < i ==> a@[k] == b@[k],
        decreases n - i,
    {
        if !a[i].same_as(&b[i]) {
            return false;
        }
        i = i + 1;
    }
    assert(a@ =~= b@);
    true
}

/// A copy of `units`.
pub fn copy_units(units: &Vec<DecisionTree>) -> (r: Vec<DecisionTree>)
    ensures
        r@ == units@,
{
    let n: usize = units.len();
    let mut out: Vec<DecisionTree> = Vec::new();
    let mut i: usize = 0;
    while i < n
        invariant
            n == units@.len(),
            i <= n,
            out@ =~= units@.take(i as int),
        decreases n - i,
    {
        out.push(units[i]);
        i = i + 1;
    }
    out
}

} // verus!
