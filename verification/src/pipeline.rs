//! From the four raw predictions to one result record.

use vstd::prelude::*;
use crate::boosting::boosted_output;
use crate::bundle::{BundleModel, ModelBundle};
use crate::features::{PredictionFeatures, PredictionResult};
use crate::fixed::{clamp, trunc_div, SCALE};
use crate::forest::{ensemble_output, SCORE_MAX};

verus! {

/// The confidence before any adjustment: 0.8.
pub const CONFIDENCE_BASE: i64 = 800_000;

/// Frame-drop ratio below which confidence rises by 0.1: 0.01.
pub const FRAME_DROP_LOW: i64 = 10_000;

/// Frame-drop ratio above which confidence falls by 0.2: 0.05.
pub const FRAME_DROP_HIGH: i64 = 50_000;

/// Predicted VMAF above which confidence rises by 0.05: 80.
pub const VMAF_GOOD: i64 = 80_000_000;

/// Predicted VMAF below which confidence falls by 0.1: 60.
pub const VMAF_POOR: i64 = 60_000_000;

/// Predicted VMAF below which the recommended bitrate is raised: 70.
pub const VMAF_RAISE: i64 = 70_000_000;

/// Predicted VMAF above which the recommended bitrate is lowered: 90.
pub const VMAF_LOWER: i64 = 90_000_000;

/// The confidence in a prediction: 0.8, raised by 0.1 for a frame-drop ratio
/// below 0.01 or lowered by 0.2 for one above 0.05, raised by 0.05 for a
/// predicted VMAF above 80 or lowered by 0.1 for one below 60, and limited to
/// `[0, 1]`.
pub open spec fn confidence(frame_drop: int, predicted_vmaf: int) -> int {
    let by_drop: int = if frame_drop < FRAME_DROP_LOW {
        100_000
    } else if frame_drop > FRAME_DROP_HIGH {
        -200_000
    } else {
        0
    };
    let by_vmaf: int = if predicted_vmaf > VMAF_GOOD {
        50_000
    } else if predicted_vmaf < VMAF_POOR {
        -100_000
    } else {
        0
    };
    clamp(CONFIDENCE_BASE + by_drop + by_vmaf, 0, SCALE as int)
}

/// Pixels per second: width times height times the frame rate (the latter a
/// fixed-point value).
pub open spec fn pixel_rate(features: PredictionFeatures) -> int {
    features.resolution_width * features.resolution_height * features.frame_rate
}

/// The bitrate in kbps before any adjustment: 0.07 times the pixels per
/// second, rounded toward zero and limited to what a `u32` holds.
pub open spec fn base_bitrate(features: PredictionFeatures) -> int {
    clamp(trunc_div(pixel_rate(features) * 7, 100 * SCALE), 0, u32::MAX as int)
}

/// The recommended bitrate in kbps: the base bitrate, times 1.3 where the
/// predicted VMAF is below 70, times 0.9 where it is above 90; rounded toward
/// zero and limited to what a `u32` holds.
pub open spec fn recommended(features: PredictionFeatures, predicted_vmaf: int) -> int {
    let base = base_bitrate(features);
    if predicted_vmaf < VMAF_RAISE {
        clamp(base * 13 / 10, 0, u32::MAX as int)
    } else if predicted_vmaf > VMAF_LOWER {
        base * 9 / 10
    } else {
        base
    }
}

/// What a bundle in the given state predicts for `features`.
pub open spec fn prediction(features: PredictionFeatures, model: BundleModel) -> PredictionResult {
    let x = features.vector();
    let vmaf = ensemble_output(model.vmaf_model, x);
    PredictionResult {
        predicted_vmaf: vmaf as i64,
        predicted_psnr: ensemble_output(model.psnr_model, x) as i64,
        predicted_cost_usd: boosted_output(model.cost_model, x) as i64,
        predicted_co2_kg: boosted_output(model.co2_model, x) as i64,
        confidence: confidence(features.frame_drop as int, vmaf) as i64,
        recommended_bitrate_kbps: recommended(features, vmaf) as u32,
    }
}

/// The recommended bitrate is positive exactly where the base bitrate is at
/// least 2 kbps, or is 1 kbps and is not lowered.
pub proof fn lemma_recommended_positive(features: PredictionFeatures, predicted_vmaf: int)
    ensures
        recommended(features, predicted_vmaf) > 0 <==> (base_bitrate(features) >= 2 || (
        base_bitrate(features) == 1 && predicted_vmaf <= VMAF_LOWER)),
{
}

/// The confidence in a prediction for `features` whose predicted VMAF is
/// `predicted_vmaf`.
pub fn calculate_confidence(features: &PredictionFeatures, predicted_vmaf: i64) -> (r: i64)
    ensures
        r == confidence(features.frame_drop as int, predicted_vmaf as int),
        0 <= r <= SCALE,
{
    let mut value: i64 = CONFIDENCE_BASE;
    if features.frame_drop < FRAME_DROP_LOW {
        value = value + 100_000;
    } else if features.frame_drop > FRAME_DROP_HIGH {
        value = value - 200_000;
    }
    if predicted_vmaf > VMAF_GOOD {
        value = value + 50_000;
    } else if predicted_vmaf < VMAF_POOR {
        value = value - 100_000;
    }
    if value < 0 {
        0
    } else if value > SCALE {
        SCALE
    } else {
        value
    }
}

/// The bitrate in kbps before any adjustment.
pub fn base_bitrate_of(features: &PredictionFeatures) -> (r: u32)
    ensures
        r == base_bitrate(*features),
{
    if features.frame_rate <= 0 {
        assert(pixel_rate(*features) <= 0) by (nonlinear_arith)
            requires
                features.frame_rate <= 0,
        ;
        return 0;
    }
    assert(features.resolution_width * features.resolution_height <= 0xffff_ffff * 0xffff_ffff)
        by (nonlinear_arith)
        requires
            0 <= features.resolution_width <= 0xffff_ffff,
            0 <= features.resolution_height <= 0xffff_ffff,
    ;
    let pixels: u64 = features.resolution_width as u64 * features.resolution_height as u64;
    assert(0 <= pixels * features.frame_rate <= 0xffff_ffff_ffff_ffff * 0x7fff_ffff_ffff_ffff)
        by (nonlinear_arith)
        requires
            0 <= pixels <= 0xffff_ffff_ffff_ffff,
            0 < features.frame_rate <= 0x7fff_ffff_ffff_ffff,
    ;
    let rate: i128 = pixels as i128 * features.frame_rate as i128;
    if rate >= 100_000_000_000_000_000 {
        u32::MAX
    } else {
        let kbps: i128 = rate * 7 / (100 * SCALE as i128);
        if kbps > u32::MAX as i128 {
            u32::MAX
        } else {
            kbps as u32
        }
    }
}

/// The recommended bitrate in kbps for `features` whose predicted VMAF is
/// `predicted_vmaf`. The predicted cost does not enter into it.
pub fn recommend_bitrate(features: &PredictionFeatures, predicted_vmaf: i64, _cost: i64) -> (r:
    u32)
    ensures
        r == recommended(*features, predicted_vmaf as int),
{
    let base: u64 = base_bitrate_of(features) as u64;
    if predicted_vmaf < VMAF_RAISE {
        let raised: u64 = base * 13 / 10;
        if raised > u32::MAX as u64 {
            u32::MAX
        } else {
            raised as u32
        }
    } else if predicted_vmaf > VMAF_LOWER {
        (base * 9 / 10) as u32
    } else {
        base as u32
    }
}

/// Predicts quality, cost and emissions for `features`, and derives the
/// confidence and the recommended bitrate from the predicted VMAF.
pub fn predict(features: &PredictionFeatures, model: &ModelBundle) -> (r: PredictionResult)
    ensures
        r == prediction(*features, model@),
        0 <= r.predicted_vmaf <= SCORE_MAX,
        0 <= r.predicted_psnr <= SCORE_MAX,
        r.predicted_cost_usd >= 0,
        r.predicted_co2_kg >= 0,
        0 <= r.confidence <= SCALE,
        r.recommended_bitrate_kbps > 0 <==> (base_bitrate(*features) >= 2 || (base_bitrate(
            *features,
        ) == 1 && r.predicted_vmaf <= VMAF_LOWER)),
{
    let predicted_vmaf: i64 = model.vmaf_model.predict(features);
    let predicted_psnr: i64 = model.psnr_model.predict(features);
    let predicted_cost_usd: i64 = model.cost_model.predict(features);
    let predicted_co2_kg: i64 = model.co2_model.predict(features);
    let confidence: i64 = calculate_confidence(features, predicted_vmaf);
    let recommended_bitrate_kbps: u32 = recommend_bitrate(
        features,
        predicted_vmaf,
        predicted_cost_usd,
    );
    PredictionResult {
        predicted_vmaf,
        predicted_psnr,
        predicted_cost_usd,
        predicted_co2_kg,
        confidence,
        recommended_bitrate_kbps,
    }
}

} // verus!
