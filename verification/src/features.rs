//! The input and output records of a prediction.

use vstd::prelude::*;
use crate::fixed::SCALE;

verus! {

/// Encode parameters of one transcoding job. Fractional fields are
/// fixed-point values (millionths).
#[derive(Debug, Clone, Copy, PartialEq, Eq)]
pub struct PredictionFeatures {
    /// Bitrate in kbps.
    pub bitrate_kbps: i64,
    /// Frame width in pixels.
    pub resolution_width: u32,
    /// Frame height in pixels.
    pub resolution_height: u32,
    /// Frames per second.
    pub frame_rate: i64,
    /// Fraction of frames dropped.
    pub frame_drop: i64,
    /// Motion intensity, from still (0) to busy (1).
    pub motion_intensity: i64,
}

/// What the models predict for one job. Fractional fields are fixed-point
/// values (millionths).
#[derive(Debug, Clone, Copy, PartialEq, Eq)]
pub struct PredictionResult {
    /// Predicted VMAF score, within `[0, 100]`.
    pub predicted_vmaf: i64,
    /// Predicted PSNR in dB.
    pub predicted_psnr: i64,
    /// Predicted monetary cost, never negative.
    pub predicted_cost_usd: i64,
    /// Predicted emissions in kg of CO2, never negative.
    pub predicted_co2_kg: i64,
    /// Confidence in the prediction, within `[0, 1]`.
    pub confidence: i64,
    /// Recommended bitrate in whole kbps.
    pub recommended_bitrate_kbps: u32,
}

impl PredictionFeatures {
    /// The six feature values in the order in which a regression unit weighs
    /// them, each as a fixed-point value.
    pub open spec fn vector(self) -> Seq<i64> {
        seq![
            self.bitrate_kbps,
            (self.resolution_width * SCALE) as i64,
            (self.resolution_height * SCALE) as i64,
            self.frame_rate,
            self.frame_drop,
            self.motion_intensity,
        ]
    }

    /// The six feature values as fixed-point values.
    pub fn to_vector(&self) -> (r: [i64; 6])
        ensures
            r@ == self.vector(),
    {
        let width: i64 = self.resolution_width as i64 * SCALE;
        let height: i64 = self.resolution_height as i64 * SCALE;
        let r: [i64; 6] = [
            self.bitrate_kbps,
            width,
            height,
            self.frame_rate,
            self.frame_drop,
            self.motion_intensity,
        ];
        r
    }
}

/// The bitrates of `records`, in order.
pub open spec fn bitrates(records: Seq<PredictionFeatures>) -> Seq<i64> {
    Seq::new(records.len(), |i: int| records[i].bitrate_kbps)
}

/// Collects the bitrates of `records`, in order.
pub fn collect_bitrates(records: &[PredictionFeatures]) -> (r: Vec<i64>)
    ensures
        r@ == bitrates(records@),
{
    let n: usize = records.len();
    let mut out: Vec<i64> = Vec::new();
    let mut i: usize = 0;
    while i < n
        invariant
            n == records@.len(),
            i <= n,
            out@ =~= bitrates(records@).take(i as int),
        decreases n - i,
    {
        out.push(records[i].bitrate_kbps);
        i = i + 1;
    }
    out
}

} // verus!
