//! Quality, cost and emission prediction for video transcoding jobs.
//!
//! Two model families are built from one linear regression unit: an ensemble
//! that perturbs one fitted trend and averages its units, and a boosting
//! model that adds decaying corrections to a base level. A bundle groups two
//! of each; the prediction pipeline derives a confidence and a recommended
//! bitrate from what they predict.
//!
//! All quantities are fixed-point integers: a value `v` is stored as the
//! integer `v * 1_000_000`, a regression weight `w` as `w * 10^12`.
//! Arithmetic rounds toward zero and saturates at the bounds of `i64`, so
//! every operation is total, and every contract states its result exactly.
//!
//! A bundle is persisted as one JSON document; `serde_json` reads and writes
//! the text, and the library decides what a document means.

pub mod fixed;
pub mod stats;
pub mod features;
pub mod tree;
pub mod forest;
pub mod boosting;
pub mod bundle;
pub mod pipeline;
pub mod legacy;
pub mod document;
pub mod persist;

pub use crate::boosting::SimpleGradientBoosting;
pub use crate::bundle::{create_default_model, retrain, ModelBundle};
pub use crate::features::{PredictionFeatures, PredictionResult};
pub use crate::forest::SimpleRandomForest;
pub use crate::legacy::{CostModel, LinearPredictor, RegionalPricing};
pub use crate::persist::{
    load_model, load_model_or_default, save_model, FormatError, LoadError, SaveError, StoredModel,
};
pub use crate::pipeline::{calculate_confidence, predict, recommend_bitrate};
pub use crate::tree::DecisionTree;
