use ml_rust::boosting::SimpleGradientBoosting;
use ml_rust::forest::variation_factor;
use ml_rust::{create_default_model, DecisionTree, ModelBundle, PredictionFeatures, SimpleRandomForest};

const ONE: i64 = 1_000_000;

fn job(bitrate: i64, width: u32, height: u32, fps: i64, frame_drop: i64, motion: i64) -> PredictionFeatures {
    PredictionFeatures {
        bitrate_kbps: bitrate,
        resolution_width: width,
        resolution_height: height,
        frame_rate: fps,
        frame_drop,
        motion_intensity: motion,
    }
}

fn tiers() -> Vec<PredictionFeatures> {
    vec![
        job(1000 * ONE, 1280, 720, 30 * ONE, 10_000, 500_000),
        job(2500 * ONE, 1920, 1080, 30 * ONE, 5_000, 600_000),
        job(5000 * ONE, 3840, 2160, 60 * ONE, 2_000, 700_000),
    ]
}

fn two_points() -> (Vec<PredictionFeatures>, Vec<i64>) {
    (
        vec![
            job(1000 * ONE, 640, 480, 24 * ONE, 0, 0),
            job(2000 * ONE, 7680, 4320, 120 * ONE, 900_000, ONE),
        ],
        vec![50 * ONE, 60 * ONE],
    )
}

fn trend(intercept: i64, bitrate_weight: i64, frame_drop_weight: i64) -> DecisionTree {
    DecisionTree { intercept, weights: [bitrate_weight, 0, 0, 0, frame_drop_weight, 0] }
}

#[test]
fn unit_adds_weighted_features_to_intercept() {
    let unit = DecisionTree {
        intercept: 2 * ONE,
        weights: [
            1_000_000_000,
            2_000_000_000_000,
            -1_000_000_000_000,
            500_000_000_000,
            -5_000_000_000_000,
            3_000_000_000_000,
        ],
    };
    let f = job(1000 * ONE, 10, 4, 30 * ONE, 100_000, 500_000);
    // 2 + 0.001*1000 + 2*10 - 1*4 + 0.5*30 - 5*0.1 + 3*0.5
    assert_eq!(unit.evaluate(&f), 35 * ONE);
}

#[test]
fn unit_without_weights_predicts_its_intercept() {
    let unit = trend(-7_250_000, 0, 0);
    assert_eq!(unit.evaluate(&job(5000 * ONE, 3840, 2160, 60 * ONE, 2_000, 700_000)), -7_250_000);
    assert_eq!(unit.evaluate(&job(0, 0, 0, 0, 0, 0)), -7_250_000);
    assert_eq!(DecisionTree::zero().evaluate(&job(i64::MAX, u32::MAX, u32::MAX, i64::MAX, i64::MAX, i64::MAX)), 0);
}

#[test]
fn unit_output_saturates() {
    let unit = DecisionTree { intercept: i64::MAX, weights: [i64::MAX; 6] };
    let f = job(i64::MAX, u32::MAX, u32::MAX, i64::MAX, i64::MAX, i64::MAX);
    assert_eq!(unit.evaluate(&f), i64::MAX);
    let unit = DecisionTree { intercept: i64::MIN, weights: [i64::MIN; 6] };
    assert_eq!(unit.evaluate(&f), i64::MIN);
}

#[test]
fn variation_steps_by_two_percent_around_the_middle() {
    assert_eq!(variation_factor(0, 10), 900_000);
    assert_eq!(variation_factor(5, 10), 1_000_000);
    assert_eq!(variation_factor(9, 10), 1_080_000);
    assert_eq!(variation_factor(0, 3), 970_000);
    assert_eq!(variation_factor(1, 3), 990_000);
    assert_eq!(variation_factor(0, 1), 990_000);
    assert_eq!(variation_factor(0, usize::MAX), i64::MIN);
}

#[test]
fn new_forest_has_zero_units() {
    let rf = SimpleRandomForest::new(4);
    assert_eq!(rf.n_trees(), 4);
    assert_eq!(rf.trees(), &vec![trend(0, 0, 0); 4]);
    assert_eq!(rf.predict(&tiers()[0]), 0);
    assert_eq!(SimpleRandomForest::new(0).n_trees(), 0);
}

#[test]
fn forest_fit_perturbs_one_trend() {
    let (features, targets) = two_points();
    let mut rf = SimpleRandomForest::new(10);
    rf.train(&features, &targets);
    assert_eq!(rf.n_trees(), 10);
    assert_eq!(rf.trees()[0], trend(36 * ONE, 9_000_000_000, -4_500_000_000_000));
    assert_eq!(rf.trees()[5], trend(40 * ONE, 10_000_000_000, -5_000_000_000_000));
    assert_eq!(rf.trees()[9], trend(43_200_000, 10_800_000_000, -5_400_000_000_000));

    let mut small = SimpleRandomForest::new(3);
    small.train(&features, &targets);
    assert_eq!(
        small.trees(),
        &vec![
            trend(38_800_000, 9_700_000_000, -4_850_000_000_000),
            trend(39_600_000, 9_900_000_000, -4_950_000_000_000),
            trend(40_400_000, 10_100_000_000, -5_050_000_000_000),
        ]
    );
}

#[test]
fn forest_predicts_the_mean_of_its_units() {
    let (features, targets) = two_points();
    let mut rf = SimpleRandomForest::new(10);
    rf.train(&features, &targets);
    let f = job(1500 * ONE, 1920, 1080, 30 * ONE, 20_000, 500_000);
    assert_eq!(rf.trees()[0].evaluate(&f), 49_410_000);
    assert_eq!(rf.trees()[9].evaluate(&f), 59_292_000);
    assert_eq!(rf.predict(&f), 54_351_000);
    // Resolution, frame rate and motion do not enter into it.
    let g = job(1500 * ONE, 16, 16, ONE, 20_000, 0);
    assert_eq!(rf.predict(&g), 54_351_000);
}

#[test]
fn forest_prediction_is_limited_to_0_and_100() {
    let high = SimpleRandomForest::from_units(vec![trend(150 * ONE, 0, 0), trend(250 * ONE, 0, 0)]);
    assert_eq!(high.predict(&tiers()[0]), 100 * ONE);
    let low = SimpleRandomForest::from_units(vec![trend(-150 * ONE, 0, 0), trend(10 * ONE, 0, 0)]);
    assert_eq!(low.predict(&tiers()[0]), 0);
    let inside = SimpleRandomForest::from_units(vec![trend(99 * ONE, 0, 0), trend(100 * ONE, 0, 0)]);
    assert_eq!(inside.predict(&tiers()[0]), 99_500_000);
    let extreme = SimpleRandomForest::from_units(vec![trend(i64::MAX, 0, 0); 3]);
    assert_eq!(extreme.predict(&tiers()[0]), 100 * ONE);
    let extreme = SimpleRandomForest::from_units(vec![trend(i64::MIN, 0, 0); 3]);
    assert_eq!(extreme.predict(&tiers()[0]), 0);
}

#[test]
fn forest_fit_on_empty_or_mismatched_data_changes_nothing() {
    let (features, targets) = two_points();
    let mut rf = SimpleRandomForest::new(5);
    rf.train(&features, &targets);
    let before = rf.clone();
    rf.train(&[], &[]);
    assert_eq!(rf, before);
    rf.train(&features, &[]);
    assert_eq!(rf, before);
    rf.train(&[], &targets);
    assert_eq!(rf, before);
    rf.train(&features, &targets[..1]);
    assert_eq!(rf, before);
    rf.train(&features[..1], &targets);
    assert_eq!(rf, before);

    let mut fresh = SimpleRandomForest::new(2);
    fresh.train(&[], &[]);
    assert_eq!(fresh, SimpleRandomForest::new(2));
}

#[test]
fn forest_fit_replaces_an_earlier_fit() {
    let (features, targets) = two_points();
    let mut once = SimpleRandomForest::new(10);
    once.train(&features, &targets);
    let mut twice = SimpleRandomForest::new(10);
    twice.train(&tiers(), &[75 * ONE, 85 * ONE, 92 * ONE]);
    twice.train(&features, &targets);
    assert_eq!(once, twice);
}

#[test]
fn forest_fit_on_constant_bitrate_has_no_slope() {
    let features = vec![tiers()[0]; 3];
    let mut rf = SimpleRandomForest::new(10);
    rf.train(&features, &[10 * ONE, 20 * ONE, 30 * ONE]);
    assert_eq!(rf.trees()[5], trend(20 * ONE, 0, -5_000_000_000_000));
}

#[test]
fn default_vmaf_model_fits_the_synthetic_set() {
    let model = create_default_model();
    assert_eq!(model.vmaf_model.trees()[0], trend(65_139_796, 3_691_836_734, -4_500_000_000_000));
    assert_eq!(model.vmaf_model.trees()[9], trend(78_167_756, 4_430_204_081, -5_400_000_000_000));
    let predictions: Vec<i64> = tiers().iter().map(|f| model.vmaf_model.predict(f)).collect();
    assert_eq!(predictions, vec![75_665_295, 81_781_576, 91_948_977]);
    assert_eq!(
        model.vmaf_model.r2_score(&tiers(), &[75 * ONE, 85 * ONE, 92 * ONE]),
        926_004
    );
    assert_eq!(
        model.psnr_model.r2_score(&tiers(), &[35 * ONE, 38 * ONE, 42 * ONE]),
        975_868
    );
}

#[test]
fn default_bundle_predicts_about_75_for_the_first_tier() {
    let model = create_default_model();
    let vmaf = model.vmaf_model.predict(&tiers()[0]) as f64 / 1e6;
    assert!((vmaf - 75.0).abs() < 2.0, "{}", vmaf);
}

#[test]
fn r2_score_is_zero_for_degenerate_input() {
    let model = create_default_model();
    assert_eq!(model.vmaf_model.r2_score(&[], &[]), 0);
    assert_eq!(model.vmaf_model.r2_score(&tiers(), &[]), 0);
    assert_eq!(model.vmaf_model.r2_score(&[], &[75 * ONE]), 0);
    assert_eq!(model.vmaf_model.r2_score(&tiers(), &[80 * ONE, 80 * ONE, 80 * ONE]), 0);
}

#[test]
fn r2_score_can_be_negative() {
    let flat = SimpleRandomForest::from_units(vec![trend(0, 0, 0)]);
    // Predicting 0 for targets 1 and 3: mean squared error 5, variance 1.
    let features = vec![tiers()[0], tiers()[1]];
    assert_eq!(flat.r2_score(&features, &[ONE, 3 * ONE]), -4 * ONE);
}

#[test]
fn r2_score_pairs_up_to_the_shorter_input() {
    let flat = SimpleRandomForest::from_units(vec![trend(2 * ONE, 0, 0)]);
    // Mean of all three targets is 2; the two pairs have deviations -1 and 0
    // and residuals -1 and 0.
    let features = vec![tiers()[0], tiers()[1]];
    assert_eq!(flat.r2_score(&features, &[ONE, 2 * ONE, 3 * ONE]), 0);
    // One job more than targets: only the targets' pairs count. Residuals
    // -2 and 0 against deviations -1 and 1.
    let flat = SimpleRandomForest::from_units(vec![trend(3 * ONE, 0, 0)]);
    assert_eq!(flat.r2_score(&tiers(), &[ONE, 3 * ONE]), -ONE);
}

#[test]
fn new_boosting_model_predicts_its_base() {
    let model = SimpleGradientBoosting::new(100_000);
    assert_eq!(model.base_prediction(), 0);
    assert_eq!(model.learning_rate(), 100_000);
    assert!(model.trees().is_empty());
    assert_eq!(model.predict(&tiers()[2]), 0);
}

#[test]
fn boosting_without_units_predicts_exactly_its_base() {
    for base in [0, 1, 156_666, 75 * ONE, i64::MAX] {
        let model = SimpleGradientBoosting::from_parts(base, vec![], 100_000).unwrap();
        for f in tiers() {
            assert_eq!(model.predict(&f), base);
        }
    }
    let negative = SimpleGradientBoosting::from_parts(-3 * ONE, vec![], ONE).unwrap();
    assert_eq!(negative.predict(&tiers()[0]), 0);
}

#[test]
fn boosting_learning_rate_must_lie_in_unit_interval() {
    assert!(SimpleGradientBoosting::from_parts(0, vec![], 0).is_none());
    assert!(SimpleGradientBoosting::from_parts(0, vec![], -1).is_none());
    assert!(SimpleGradientBoosting::from_parts(0, vec![], ONE + 1).is_none());
    assert!(SimpleGradientBoosting::from_parts(0, vec![], i64::MIN).is_none());
    assert!(SimpleGradientBoosting::from_parts(0, vec![], 1).is_some());
    assert!(SimpleGradientBoosting::from_parts(0, vec![], ONE).is_some());
}

#[test]
fn boosting_fit_appends_five_decaying_corrections() {
    let mut model = SimpleGradientBoosting::new(100_000);
    model.train(&tiers(), &[50_000, 120_000, 300_000]);
    assert_eq!(model.base_prediction(), 156_666);
    assert_eq!(model.learning_rate(), 100_000);
    let weights: Vec<i64> = model.trees().iter().map(|t| t.weights[0]).collect();
    assert_eq!(weights, vec![6_346_938, 5_712_244, 5_077_550, 4_442_857, 3_808_163]);
    for unit in model.trees() {
        assert_eq!(unit.intercept, 0);
        assert_eq!(unit.weights[1..], [0, 0, 0, 0, 0]);
    }
    let predictions: Vec<i64> = tiers().iter().map(|f| model.predict(f)).collect();
    assert_eq!(predictions, vec![159_202, 163_011, 169_358]);

    model.train(&tiers(), &[10_000, 25_000, 60_000]);
    assert_eq!(model.base_prediction(), 31_666);
    assert_eq!(model.trees().len(), 10);
    assert_eq!(model.trees()[0].weights[0], 6_346_938);
    assert_eq!(model.trees()[5].weights[0], 1_265_306);
    assert_eq!(model.trees()[9].weights[0], 759_183);
}

#[test]
fn boosting_with_full_rate_uses_the_whole_slope() {
    let (features, targets) = two_points();
    let mut model = SimpleGradientBoosting::new(ONE);
    model.train(&features, &targets);
    assert_eq!(model.base_prediction(), 55 * ONE);
    let weights: Vec<i64> = model.trees().iter().map(|t| t.weights[0]).collect();
    assert_eq!(
        weights,
        vec![10_000_000_000, 9_000_000_000, 8_000_000_000, 7_000_000_000, 6_000_000_000]
    );
    // 55 + (0.010 + 0.009 + 0.008 + 0.007 + 0.006) * 1000
    assert_eq!(model.predict(&features[0]), 95 * ONE);
}

#[test]
fn boosting_fit_on_empty_or_mismatched_data_changes_nothing() {
    let mut model = SimpleGradientBoosting::new(100_000);
    model.train(&tiers(), &[50_000, 120_000, 300_000]);
    let before = model.clone();
    model.train(&[], &[]);
    assert_eq!(model, before);
    model.train(&tiers(), &[]);
    assert_eq!(model, before);
    model.train(&[], &[ONE]);
    assert_eq!(model, before);
    model.train(&tiers(), &[ONE, ONE]);
    assert_eq!(model, before);
}

#[test]
fn boosting_prediction_is_never_negative() {
    let unit = trend(-1000 * ONE, 0, 0);
    let model = SimpleGradientBoosting::from_parts(5 * ONE, vec![unit], ONE).unwrap();
    assert_eq!(model.predict(&tiers()[0]), 0);
    let model = SimpleGradientBoosting::from_parts(5 * ONE, vec![unit], 1_000).unwrap();
    assert_eq!(model.predict(&tiers()[0]), 4 * ONE);
    let huge = trend(i64::MAX, 0, 0);
    let model = SimpleGradientBoosting::from_parts(i64::MAX, vec![huge; 4], ONE).unwrap();
    assert_eq!(model.predict(&tiers()[0]), i64::MAX);
}

#[test]
fn new_bundle_is_untrained() {
    let bundle = ModelBundle::new();
    assert_eq!(bundle.version, "1.0.0");
    assert_eq!(bundle.vmaf_model, SimpleRandomForest::new(10));
    assert_eq!(bundle.psnr_model, SimpleRandomForest::new(10));
    assert_eq!(bundle.cost_model, SimpleGradientBoosting::new(100_000));
    assert_eq!(bundle.co2_model, SimpleGradientBoosting::new(100_000));
}

#[test]
fn default_bundle_is_trained_on_the_synthetic_set() {
    let bundle = create_default_model();
    let mut expected = ModelBundle::new();
    expected.vmaf_model.train(&tiers(), &[75 * ONE, 85 * ONE, 92 * ONE]);
    expected.psnr_model.train(&tiers(), &[35 * ONE, 38 * ONE, 42 * ONE]);
    expected.cost_model.train(&tiers(), &[50_000, 120_000, 300_000]);
    expected.co2_model.train(&tiers(), &[10_000, 25_000, 60_000]);
    assert_eq!(bundle, expected);
    assert_eq!(bundle.clone(), expected);
}

#[test]
fn retrain_returns_the_default_bundle() {
    let (features, targets) = two_points();
    let bundle = ml_rust::retrain(&features, &targets, &targets, &targets, &targets);
    assert_eq!(bundle, create_default_model());
    assert_eq!(ml_rust::retrain(&[], &[], &[], &[], &[]), create_default_model());
}
