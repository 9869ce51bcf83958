//! The four models that together predict for one job, and the bundle that
//! stands in where none was trained.

use vstd::prelude::*;
use crate::boosting::{boosted, BoostingModel, SimpleGradientBoosting};
use crate::features::PredictionFeatures;
use crate::forest::{trained, SimpleRandomForest};
use crate::tree::DecisionTree;

verus! {

/// The number of units in each quality ensemble of a new bundle.
pub const ENSEMBLE_SIZE: usize = 10;

/// The learning rate of the cost and emission models of a new bundle: 0.1.
pub const LEARNING_RATE: i64 = 100_000;

/// Two quality ensembles (VMAF, PSNR) and two boosting models (cost, CO2)
/// under one version tag.
#[derive(Debug, PartialEq, Eq)]
pub struct ModelBundle {
    pub version: String,
    pub vmaf_model: SimpleRandomForest,
    pub psnr_model: SimpleRandomForest,
    pub cost_model: SimpleGradientBoosting,
    pub co2_model: SimpleGradientBoosting,
}

/// The state of a bundle.
pub struct BundleModel {
    pub version: Seq<char>,
    pub vmaf_model: Seq<DecisionTree>,
    pub psnr_model: Seq<DecisionTree>,
    pub cost_model: BoostingModel,
    pub co2_model: BoostingModel,
}

impl BundleModel {
    /// Both boosting models are well formed.
    pub open spec fn wf(self) -> bool {
        self.cost_model.wf() && self.co2_model.wf()
    }
}

impl View for ModelBundle {
    type V = BundleModel;

    open spec fn view(&self) -> BundleModel {
        BundleModel {
            version: self.version@,
            vmaf_model: self.vmaf_model@,
            psnr_model: self.psnr_model@,
            cost_model: self.cost_model@,
            co2_model: self.co2_model@,
        }
    }
}

impl Clone for ModelBundle {
    fn clone(&self) -> (r: Self)
        ensures
            r@ == self@,
    {
        ModelBundle {
            version: self.version.clone(),
            vmaf_model: self.vmaf_model.clone(),
            psnr_model: self.psnr_model.clone(),
            cost_model: self.cost_model.clone(),
            co2_model: self.co2_model.clone(),
        }
    }
}

/// The version tag of a new bundle.
pub open spec fn current_version() -> Seq<char> {
    "1.0.0"@
}

/// The state of a bundle that has not been trained.
pub open spec fn untrained_bundle() -> BundleModel {
    BundleModel {
        version: current_version(),
        vmaf_model: Seq::new(ENSEMBLE_SIZE as nat, |i: int| DecisionTree::trend(0, 0, 0)),
        psnr_model: Seq::new(ENSEMBLE_SIZE as nat, |i: int| DecisionTree::trend(0, 0, 0)),
        cost_model: BoostingModel {
            base_prediction: 0,
            trees: Seq::empty(),
            learning_rate: LEARNING_RATE,
        },
        co2_model: BoostingModel {
            base_prediction: 0,
            trees: Seq::empty(),
            learning_rate: LEARNING_RATE,
        },
    }
}

/// The three jobs of the synthetic training set: 720p at 1000 kbps, 1080p at
/// 2500 kbps and 4K at 5000 kbps.
pub open spec fn synthetic_features() -> Seq<PredictionFeatures> {
    seq![
        PredictionFeatures {
            bitrate_kbps: 1_000_000_000,
            resolution_width: 1280,
            resolution_height: 720,
            frame_rate: 30_000_000,
            frame_drop: 10_000,
            motion_intensity: 500_000,
        },
        PredictionFeatures {
            bitrate_kbps: 2_500_000_000,
            resolution_width: 1920,
            resolution_height: 1080,
            frame_rate: 30_000_000,
            frame_drop: 5_000,
            motion_intensity: 600_000,
        },
        PredictionFeatures {
            bitrate_kbps: 5_000_000_000,
            resolution_width: 3840,
            resolution_height: 2160,
            frame_rate: 60_000_000,
            frame_drop: 2_000,
            motion_intensity: 700_000,
        },
    ]
}

/// VMAF of the three synthetic jobs: 75, 85, 92.
pub open spec fn synthetic_vmaf() -> Seq<i64> {
    seq![75_000_000i64, 85_000_000i64, 92_000_000i64]
}

/// PSNR of the three synthetic jobs: 35, 38, 42.
pub open spec fn synthetic_psnr() -> Seq<i64> {
    seq![35_000_000i64, 38_000_000i64, 42_000_000i64]
}

/// Cost of the three synthetic jobs: 0.05, 0.12, 0.30.
pub open spec fn synthetic_cost() -> Seq<i64> {
    seq![50_000i64, 120_000i64, 300_000i64]
}

/// Emissions of the three synthetic jobs: 0.01, 0.025, 0.06.
pub open spec fn synthetic_co2() -> Seq<i64> {
    seq![10_000i64, 25_000i64, 60_000i64]
}

/// The state of the default bundle: an untrained bundle whose four models
/// were each fitted to the synthetic training set.
pub open spec fn default_bundle() -> BundleModel {
    let fresh = untrained_bundle();
    BundleModel {
        version: fresh.version,
        vmaf_model: trained(fresh.vmaf_model, synthetic_features(), synthetic_vmaf()),
        psnr_model: trained(fresh.psnr_model, synthetic_features(), synthetic_psnr()),
        cost_model: boosted(fresh.cost_model, synthetic_features(), synthetic_cost()),
        co2_model: boosted(fresh.co2_model, synthetic_features(), synthetic_co2()),
    }
}

impl ModelBundle {
    /// Whether two bundles have the same version and models in the same
    /// state.
    pub fn same_as(&self, other: &ModelBundle) -> (r: bool)
        ensures
            r == (self@ == other@),
    {
        self.version == other.version && self.vmaf_model.same_as(&other.vmaf_model)
            && self.psnr_model.same_as(&other.psnr_model) && self.cost_model.same_as(
            &other.cost_model,
        ) && self.co2_model.same_as(&other.co2_model)
    }

    /// A bundle of untrained models: ensembles of ten units, boosting models
    /// with a learning rate of 0.1.
    pub fn new() -> (r: Self)
        ensures
            r@ == untrained_bundle(),
    {
        let r = ModelBundle {
            version: "1.0.0".to_owned(),
            vmaf_model: SimpleRandomForest::new(ENSEMBLE_SIZE),
            psnr_model: SimpleRandomForest::new(ENSEMBLE_SIZE),
            cost_model: SimpleGradientBoosting::new(LEARNING_RATE),
            co2_model: SimpleGradientBoosting::new(LEARNING_RATE),
        };
        assert(r@.vmaf_model =~= untrained_bundle().vmaf_model);
        assert(r@.psnr_model =~= untrained_bundle().psnr_model);
        r
    }
}

/// The bundle that is used where none was trained: every model fitted to the
/// synthetic training set.
pub fn create_default_model() -> (r: ModelBundle)
    ensures
        r@ == default_bundle(),
{
    let mut model = ModelBundle::new();
    let features: Vec<PredictionFeatures> = vec![
        PredictionFeatures {
            bitrate_kbps: 1_000_000_000,
            resolution_width: 1280,
            resolution_height: 720,
            frame_rate: 30_000_000,
            frame_drop: 10_000,
            motion_intensity: 500_000,
        },
        PredictionFeatures {
            bitrate_kbps: 2_500_000_000,
            resolution_width: 1920,
            resolution_height: 1080,
            frame_rate: 30_000_000,
            frame_drop: 5_000,
            motion_intensity: 600_000,
        },
        PredictionFeatures {
            bitrate_kbps: 5_000_000_000,
            resolution_width: 3840,
            resolution_height: 2160,
            frame_rate: 60_000_000,
            frame_drop: 2_000,
            motion_intensity: 700_000,
        },
    ];
    let vmaf_targets: Vec<i64> = vec![75_000_000, 85_000_000, 92_000_000];
    let psnr_targets: Vec<i64> = vec![35_000_000, 38_000_000, 42_000_000];
    let cost_targets: Vec<i64> = vec![50_000, 120_000, 300_000];
    let co2_targets: Vec<i64> = vec![10_000, 25_000, 60_000];
    model.vmaf_model.train(features.as_slice(), vmaf_targets.as_slice());
    model.psnr_model.train(features.as_slice(), psnr_targets.as_slice());
    model.cost_model.train(features.as_slice(), cost_targets.as_slice());
    model.co2_model.train(features.as_slice(), co2_targets.as_slice());
    model
}

/// Retraining on collected data is not offered yet: the result is the
/// default bundle, whatever the data.
pub fn retrain(
    _features: &[PredictionFeatures],
    _targets_vmaf: &[i64],
    _targets_psnr: &[i64],
    _targets_cost: &[i64],
    _targets_co2: &[i64],
) -> (r: ModelBundle)
    ensures
        r@ == default_bundle(),
{
    create_default_model()
}

} // verus!
