//! The residual-boosted model that predicts a non-negative quantity.

use vstd::prelude::*;
use crate::features::{bitrates, collect_bitrates, PredictionFeatures};
use crate::fixed::{clamp, multiply, product, SCALE};
use crate::stats::{fit_line, mean, mean_of, ols_slope};
use crate::tree::{copy_units, same_units, DecisionTree};

verus! {

/// The number of correction units that one fit appends.
pub const CORRECTIONS_PER_FIT: usize = 5;

/// The amount by which the influence of each further correction unit of a
/// fit falls: 0.1.
pub const DECAY_STEP: i64 = 100_000;

/// A base level, a learning rate in `(0, 1]`, and the correction units that
/// the fits so far have appended.
#[derive(Debug, PartialEq, Eq)]
pub struct SimpleGradientBoosting {
    base_prediction: i64,
    trees: Vec<DecisionTree>,
    learning_rate: i64,
}

/// The state of a boosting model.
pub struct BoostingModel {
    pub base_prediction: i64,
    pub trees: Seq<DecisionTree>,
    pub learning_rate: i64,
}

impl BoostingModel {
    /// The learning rate lies in `(0, 1]`.
    pub open spec fn wf(self) -> bool {
        0 < self.learning_rate <= SCALE
    }
}

impl View for SimpleGradientBoosting {
    type V = BoostingModel;

    closed spec fn view(&self) -> BoostingModel {
        BoostingModel {
            base_prediction: self.base_prediction,
            trees: self.trees@,
            learning_rate: self.learning_rate,
        }
    }
}

/// Correction unit `i` of a fit with the given slope: no intercept, and on
/// the bitrate the slope times the learning rate times `1 - i * 0.1`.
pub open spec fn correction(slope: int, learning_rate: int, i: nat) -> DecisionTree {
    DecisionTree::trend(
        0,
        product(slope, product(learning_rate, SCALE - i * DECAY_STEP)) as i64,
        0,
    )
}

/// The correction units that one fit appends.
pub open spec fn corrections(slope: int, learning_rate: int) -> Seq<DecisionTree> {
    Seq::new(CORRECTIONS_PER_FIT as nat, |i: int| correction(slope, learning_rate, i as nat))
}

/// The model after a fit: unchanged where the training data are empty or
/// their lengths differ; else the base is the mean target and five
/// correction units follow those that were there.
pub open spec fn boosted(
    m: BoostingModel,
    features: Seq<PredictionFeatures>,
    targets: Seq<i64>,
) -> BoostingModel {
    if features.len() == 0 || features.len() != targets.len() {
        m
    } else {
        BoostingModel {
            base_prediction: mean(targets) as i64,
            trees: m.trees + corrections(ols_slope(bitrates(features), targets), m.learning_rate as int),
            learning_rate: m.learning_rate,
        }
    }
}

/// Sum over the first `n` units of the learning rate times the unit's output
/// on input `x`.
pub open spec fn correction_total(
    trees: Seq<DecisionTree>,
    learning_rate: int,
    x: Seq<i64>,
    n: nat,
) -> int
    decreases n,
{
    if n == 0 {
        0
    } else {
        correction_total(trees, learning_rate, x, (n - 1) as nat) + product(
            learning_rate,
            trees[n - 1].output(x),
        )
    }
}

/// The model's prediction on input `x`: the base plus the corrections,
/// limited to the non-negative values.
pub open spec fn boosted_output(m: BoostingModel, x: Seq<i64>) -> int {
    clamp(
        m.base_prediction + correction_total(m.trees, m.learning_rate as int, x, m.trees.len()),
        0,
        i64::MAX as int,
    )
}

/// The sum of `n` corrections lies between `n` times the least and `n` times
/// the greatest value.
proof fn lemma_correction_total_bounds(
    trees: Seq<DecisionTree>,
    learning_rate: int,
    x: Seq<i64>,
    n: nat,
)
    ensures
        n * (i64::MIN as int) <= correction_total(trees, learning_rate, x, n) <= n * (
        i64::MAX as int),
    decreases n,
{
    if n > 0 {
        lemma_correction_total_bounds(trees, learning_rate, x, (n - 1) as nat);
        assert(n * (i64::MIN as int) == (n - 1) * (i64::MIN as int) + (i64::MIN as int))
            by (nonlinear_arith);
        assert(n * (i64::MAX as int) == (n - 1) * (i64::MAX as int) + (i64::MAX as int))
            by (nonlinear_arith);
    }
}

/// A model without correction units predicts its base, where that is not
/// negative, for every input.
pub proof fn lemma_base_without_corrections(m: BoostingModel, x: Seq<i64>)
    requires
        m.trees.len() == 0,
        m.base_prediction >= 0,
    ensures
        boosted_output(m, x) == m.base_prediction,
{
}

impl Clone for SimpleGradientBoosting {
    fn clone(&self) -> (r: Self)
        ensures
            r@ == self@,
    {
        proof {
            use_type_invariant(self);
        }
        SimpleGradientBoosting {
            base_prediction: self.base_prediction,
            trees: copy_units(&self.trees),
            learning_rate: self.learning_rate,
        }
    }
}

impl SimpleGradientBoosting {
    #[verifier::type_invariant]
    spec fn rate_in_range(&self) -> bool {
        0 < self.learning_rate <= SCALE
    }

    /// A model with base zero and no correction units.
    pub fn new(learning_rate: i64) -> (r: Self)
        requires
            0 < learning_rate <= SCALE,
        ensures
            r@ == (BoostingModel {
                base_prediction: 0,
                trees: Seq::<DecisionTree>::empty(),
                learning_rate,
            }),
            r@.wf(),
    {
        SimpleGradientBoosting { base_prediction: 0, trees: Vec::new(), learning_rate }
    }

    /// A model with the given state; `None` where the learning rate lies
    /// outside `(0, 1]`.
    pub fn from_parts(base_prediction: i64, trees: Vec<DecisionTree>, learning_rate: i64) -> (r:
        Option<Self>)
        ensures
            r is Some <==> 0 < learning_rate <= SCALE,
            r matches Some(m) ==> m@ == (BoostingModel {
                base_prediction,
                trees: trees@,
                learning_rate,
            }),
    {
        if 0 < learning_rate && learning_rate <= SCALE {
            Some(SimpleGradientBoosting { base_prediction, trees, learning_rate })
        } else {
            None
        }
    }

    /// Whether two models are in the same state.
    pub fn same_as(&self, other: &SimpleGradientBoosting) -> (r: bool)
        ensures
            r == (self@ == other@),
    {
        self.base_prediction == other.base_prediction && self.learning_rate
            == other.learning_rate && same_units(&self.trees, &other.trees)
    }

    /// The base level.
    pub fn base_prediction(&self) -> (r: i64)
        ensures
            r == self@.base_prediction,
    {
        self.base_prediction
    }

    /// The learning rate.
    pub fn learning_rate(&self) -> (r: i64)
        ensures
            r == self@.learning_rate,
            self@.wf(),
    {
        proof {
            use_type_invariant(self);
        }
        self.learning_rate
    }

    /// The correction units, oldest first.
    pub fn trees(&self) -> (r: &Vec<DecisionTree>)
        ensures
            r@ == self@.trees,
    {
        &self.trees
    }

    /// Sets the base to the mean of `targets` and appends five correction
    /// units for the trend of `targets` over the bitrates of `features`.
    /// Leaves the model as it is where the training data are empty or their
    /// lengths differ.
    pub fn train(&mut self, features: &[PredictionFeatures], targets: &[i64])
        ensures
            final(self)@ == boosted(old(self)@, features@, targets@),
            features@.len() == 0 || targets@.len() == 0 ==> final(self)@ == old(self)@,
            final(self)@.learning_rate == old(self)@.learning_rate,
            old(self)@.trees.is_prefix_of(final(self)@.trees),
            features@.len() > 0 && features@.len() == targets@.len() ==> final(self)@.trees.len()
                == old(self)@.trees.len() + CORRECTIONS_PER_FIT,
    {
        if features.len() == 0 || features.len() != targets.len() {
            return;
        }
        proof {
            use_type_invariant(&*self);
        }
        let xs: Vec<i64> = collect_bitrates(features);
        let (slope, _) = fit_line(xs.as_slice(), targets);
        let rate: i64 = self.learning_rate;
        let mut trees: Vec<DecisionTree> = copy_units(&self.trees);
        let mut i: usize = 0;
        while i < CORRECTIONS_PER_FIT
            invariant
                i <= CORRECTIONS_PER_FIT,
                trees@ =~= self.trees@ + corrections(slope as int, rate as int).take(i as int),
            decreases CORRECTIONS_PER_FIT - i,
        {
            let factor: i64 = multiply(rate, SCALE - (i as i64) * DECAY_STEP);
            trees.push(DecisionTree::with_trend(0, multiply(slope, factor), 0));
            i = i + 1;
        }
        assert(trees@ =~= self.trees@ + corrections(slope as int, rate as int));
        self.base_prediction = mean_of(targets);
        self.trees = trees;
    }

    /// The base plus the learning rate times the output of every correction
    /// unit for `features`, limited to the non-negative values.
    pub fn predict(&self, features: &PredictionFeatures) -> (r: i64)
        ensures
            r == boosted_output(self@, features.vector()),
            r >= 0,
    {
        let n: usize = self.trees.len();
        let mut acc: i128 = 0;
        let mut i: usize = 0;
        while i < n
            invariant
                n == self.trees@.len(),
                i <= n,
                acc == correction_total(
                    self.trees@,
                    self.learning_rate as int,
                    features.vector(),
                    i as nat,
                ),
                i * (i64::MIN as int) <= acc <= i * (i64::MAX as int),
            decreases n - i,
        {
            proof {
                lemma_correction_total_bounds(
                    self.trees@,
                    self.learning_rate as int,
                    features.vector(),
                    (i + 1) as nat,
                );
                assert(i * (i64::MAX as int) <= 0xffff_ffff_ffff_ffff * (i64::MAX as int))
                    by (nonlinear_arith)
                    requires
                        i <= 0xffff_ffff_ffff_ffff,
                ;
                assert(i * (i64::MIN as int) >= 0xffff_ffff_ffff_ffff * (i64::MIN as int))
                    by (nonlinear_arith)
                    requires
                        i <= 0xffff_ffff_ffff_ffff,
                ;
            }
            acc = acc + multiply(self.learning_rate, self.trees[i].evaluate(features)) as i128;
            i = i + 1;
        }
        let raw: i128 = self.base_prediction as i128 + acc;
        if raw < 0 {
            0
        } else if raw > i64::MAX as i128 {
            i64::MAX
        } else {
            raw as i64
        }
    }
}

} // verus!
