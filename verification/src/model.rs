//! Domain types for model training and versioning.
//!
//! Decimal quantities (privacy budgets, fairness gaps) are held as fixed-point
//! nano counts; see the `fixed` module.

use vstd::prelude::*;
use crate::data::DatasetId;
use crate::error::DeltaResult;
use crate::json::{extract_bool_spec, extract_number_spec, extract_object_spec, extract_string_spec};
use crate::text::{chars_eq_str, chars_of};

verus! {

/// Identifier for a logical model family.
#[derive(Debug)]
pub struct ModelId {
    value: String,
}

impl View for ModelId {
    type V = Seq<char>;

    closed spec fn view(&self) -> Seq<char> {
        self.value@
    }
}

impl Clone for ModelId {
    /// An identical identifier.
    fn clone(&self) -> (r: Self)
        ensures
            r@ == self@,
    {
        ModelId { value: self.value.clone() }
    }
}

impl ModelId {
    /// Construct a model identifier from an owned string.
    pub fn new(value: String) -> (r: Self)
        ensures
            r@ == value@,
    {
        ModelId { value }
    }

    /// Borrow the identifier as a string slice.
    pub fn as_str(&self) -> (r: &str)
        ensures
            r@ == self@,
    {
        self.value.as_str()
    }

    /// Consume the identifier and return the owned string.
    pub fn into_inner(self) -> (r: String)
        ensures
            r@ == self@,
    {
        self.value
    }

    /// Whether two identifiers carry the same text.
    pub fn matches(&self, other: &ModelId) -> (r: bool)
        ensures
            r == (self@ == other@),
    {
        self.value == other.value
    }
}

/// Version label wrapper to avoid mixing with model identifiers.
#[derive(Debug)]
pub struct VersionName {
    value: String,
}

impl View for VersionName {
    type V = Seq<char>;

    closed spec fn view(&self) -> Seq<char> {
        self.value@
    }
}

impl Clone for VersionName {
    /// An identical version label.
    fn clone(&self) -> (r: Self)
        ensures
            r@ == self@,
    {
        VersionName { value: self.value.clone() }
    }
}

impl VersionName {
    /// Construct a version label from an owned string.
    pub fn new(value: String) -> (r: Self)
        ensures
            r@ == value@,
    {
        VersionName { value }
    }

    /// Borrow the label as a string slice.
    pub fn as_str(&self) -> (r: &str)
        ensures
            r@ == self@,
    {
        self.value.as_str()
    }

    /// Whether two labels carry the same text.
    pub fn matches(&self, other: &VersionName) -> (r: bool)
        ensures
            r == (self@ == other@),
    {
        self.value == other.value
    }

    /// Whether the label is empty.
    pub fn is_empty(&self) -> (r: bool)
        ensures
            r == (self@.len() == 0),
    {
        self.value.as_str().is_empty()
    }
}

/// Supported model kinds defined by the product roadmap.
#[derive(Copy, Clone, Debug, Eq, PartialEq, Structural)]
pub enum ModelKind {
    /// Logistic regression over tabular features.
    TabularLogistic,
    /// Gradient-boosted trees over tabular features.
    TabularGradientBoosting,
    /// A small text encoder.
    TextMiniLm,
}

impl Default for ModelKind {
    /// The tabular logistic baseline.
    fn default() -> (r: Self)
        ensures
            r == ModelKind::TabularLogistic,
    {
        ModelKind::TabularLogistic
    }
}

/// Differential privacy configuration snapshot; decimals in nanos.
#[derive(Copy, Clone, Debug)]
pub struct DifferentialPrivacy {
    /// Whether the budget is enforced at all.
    pub enabled: bool,
    /// Privacy budget epsilon, in nanos.
    pub epsilon: i64,
    /// Privacy budget delta, in nanos.
    pub delta: i64,
    /// Gradient clipping bound, in nanos.
    pub clip: i64,
    /// Noise multiplier, in nanos.
    pub noise_multiplier: i64,
}

impl Default for DifferentialPrivacy {
    /// A disabled budget with all quantities at zero.
    fn default() -> (r: Self)
        ensures
            r == (DifferentialPrivacy {
                enabled: false,
                epsilon: 0,
                delta: 0,
                clip: 0,
                noise_multiplier: 0,
            }),
    {
        DifferentialPrivacy { enabled: false, epsilon: 0, delta: 0, clip: 0, noise_multiplier: 0 }
    }
}

/// Simplified fairness metrics captured during evaluation; decimals in nanos.
#[derive(Copy, Clone, Debug)]
pub struct FairnessReport {
    /// Gap in true-positive rates, in nanos.
    pub delta_tpr: i64,
    /// Gap in false-positive rates, in nanos.
    pub delta_fpr: i64,
    /// Gap in positive predictive values, in nanos.
    pub delta_ppv: i64,
}

impl Default for FairnessReport {
    /// A report with all gaps at zero.
    fn default() -> (r: Self)
        ensures
            r == (FairnessReport { delta_tpr: 0, delta_fpr: 0, delta_ppv: 0 }),
    {
        FairnessReport { delta_tpr: 0, delta_fpr: 0, delta_ppv: 0 }
    }
}

/// Metadata associated with a model version that affects governance.
#[derive(Copy, Clone, Debug)]
pub struct ModelMetadata {
    /// The differential-privacy settings the version was trained under.
    pub dp: DifferentialPrivacy,
    /// The fairness report recorded at training time, if any.
    pub fairness: Option<FairnessReport>,
}

impl Default for ModelMetadata {
    /// Default privacy settings and no fairness report.
    fn default() -> (r: Self)
        ensures
            r.dp == (DifferentialPrivacy {
                enabled: false,
                epsilon: 0,
                delta: 0,
                clip: 0,
                noise_multiplier: 0,
            }),
            r.fairness is None,
    {
        ModelMetadata { dp: DifferentialPrivacy::default(), fairness: None }
    }
}

/// The mathematical image of a versioned model artefact.
pub ghost struct ModelVersionV {
    /// The model family identifier's text.
    pub id: Seq<char>,
    /// The version label's text.
    pub version: Seq<char>,
    /// The model kind.
    pub kind: ModelKind,
    /// The artefact path's text.
    pub artefact_path: Seq<char>,
    /// The governance metadata.
    pub metadata: ModelMetadata,
}

/// Versioned model artefact metadata.
#[derive(Debug)]
pub struct ModelVersion {
    /// The model family identifier.
    pub id: ModelId,
    /// The version label.
    pub version: VersionName,
    /// The model kind.
    pub kind: ModelKind,
    /// Where the artefact is stored.
    pub artefact_path: String,
    /// The governance metadata.
    pub metadata: ModelMetadata,
}

impl View for ModelVersion {
    type V = ModelVersionV;

    open spec fn view(&self) -> ModelVersionV {
        ModelVersionV {
            id: self.id@,
            version: self.version@,
            kind: self.kind,
            artefact_path: self.artefact_path@,
            metadata: self.metadata,
        }
    }
}

impl Clone for ModelVersion {
    /// An identical record.
    fn clone(&self) -> (r: Self)
        ensures
            r@ == self@,
    {
        ModelVersion {
            id: self.id.clone(),
            version: self.version.clone(),
            kind: self.kind,
            artefact_path: self.artefact_path.clone(),
            metadata: self.metadata,
        }
    }
}

/// The parsed training specification a raw config denotes.
pub open spec fn train_spec_of(raw: Seq<char>) -> TrainSpec {
    let kind = match extract_string_spec(raw, "model_kind"@) {
        Some(s) => if s == "tabular_gbdt"@ {
            ModelKind::TabularGradientBoosting
        } else if s == "text_minilm"@ {
            ModelKind::TextMiniLm
        } else {
            ModelKind::TabularLogistic
        },
        None => ModelKind::TabularLogistic,
    };
    let dp_src = match extract_object_spec(raw, "dp"@) {
        Some(o) => o,
        None => "{}"@,
    };
    let dp = DifferentialPrivacy {
        enabled: match extract_bool_spec(dp_src, "enabled"@) {
            Some(b) => b,
            None => false,
        },
        epsilon: match extract_number_spec(dp_src, "epsilon"@) {
            Some(v) => v,
            None => 3_000_000_000,
        },
        delta: match extract_number_spec(dp_src, "delta"@) {
            Some(v) => v,
            None => 10_000,
        },
        clip: match extract_number_spec(dp_src, "clip"@) {
            Some(v) => v,
            None => 1_000_000_000,
        },
        noise_multiplier: match extract_number_spec(dp_src, "noise_multiplier"@) {
            Some(v) => v,
            None => 1_000_000_000,
        },
    };
    let fairness = match extract_object_spec(raw, "fairness"@) {
        Some(sec) => Some(
            FairnessReport {
                delta_tpr: match extract_number_spec(sec, "delta_tpr"@) {
                    Some(v) => v,
                    None => 0,
                },
                delta_fpr: match extract_number_spec(sec, "delta_fpr"@) {
                    Some(v) => v,
                    None => 0,
                },
                delta_ppv: match extract_number_spec(sec, "delta_ppv"@) {
                    Some(v) => v,
                    None => 0,
                },
            },
        ),
        None => None,
    };
    TrainSpec { model_kind: kind, dp, fairness }
}

/// Internal training specification derived from JSON.
#[derive(Copy, Clone, Debug)]
pub struct TrainSpec {
    /// Which model family to train.
    pub model_kind: ModelKind,
    /// Differential-privacy settings.
    pub dp: DifferentialPrivacy,
    /// Observed fairness gaps, if reported.
    pub fairness: Option<FairnessReport>,
}

impl TrainSpec {
    /// Decode a raw JSON config into a specification.
    fn from_raw(raw: &str) -> (r: Self)
        ensures
            r == train_spec_of(raw@),
    {
        let rawc = chars_of(raw);
        let kind = match crate::json::extract_string_chars(&rawc, &chars_of("model_kind")) {
            Some(s) => if chars_eq_str(&s, "tabular_gbdt") {
                ModelKind::TabularGradientBoosting
            } else if chars_eq_str(&s, "text_minilm") {
                ModelKind::TextMiniLm
            } else {
                ModelKind::TabularLogistic
            },
            None => ModelKind::TabularLogistic,
        };
        let dp_src: Vec<char> = match crate::json::extract_object_chars(&rawc, &chars_of("dp")) {
            Some(o) => o,
            None => chars_of("{}"),
        };
        let dp = DifferentialPrivacy {
            enabled: match crate::json::extract_bool_chars(&dp_src, &chars_of("enabled")) {
                Some(b) => b,
                None => false,
            },
            epsilon: match crate::json::extract_number_chars(&dp_src, &chars_of("epsilon")) {
                Some(v) => v,
                None => 3_000_000_000,
            },
            delta: match crate::json::extract_number_chars(&dp_src, &chars_of("delta")) {
                Some(v) => v,
                None => 10_000,
            },
            clip: match crate::json::extract_number_chars(&dp_src, &chars_of("clip")) {
                Some(v) => v,
                None => 1_000_000_000,
            },
            noise_multiplier: match crate::json::extract_number_chars(
                &dp_src,
                &chars_of("noise_multiplier"),
            ) {
                Some(v) => v,
                None => 1_000_000_000,
            },
        };
        let fairness = match crate::json::extract_object_chars(&rawc, &chars_of("fairness")) {
            Some(sec) => Some(
                FairnessReport {
                    delta_tpr: match crate::json::extract_number_chars(
                        &sec,
                        &chars_of("delta_tpr"),
                    ) {
                        Some(v) => v,
                        None => 0,
                    },
                    delta_fpr: match crate::json::extract_number_chars(
                        &sec,
                        &chars_of("delta_fpr"),
                    ) {
                        Some(v) => v,
                        None => 0,
                    },
                    delta_ppv: match crate::json::extract_number_chars(
                        &sec,
                        &chars_of("delta_ppv"),
                    ) {
                        Some(v) => v,
                        None => 0,
                    },
                },
            ),
            None => None,
        };
        TrainSpec { model_kind: kind, dp, fairness }
    }
}

/// Training configuration blob (raw JSON text plus the decoded spec).
#[derive(Clone, Debug)]
pub struct TrainConfig {
    /// The raw JSON text as received.
    pub raw: String,
    /// The decoded specification.
    pub parsed: TrainSpec,
}

impl TrainConfig {
    /// Decode a raw config; decoding is total, so this always succeeds.
    pub fn parse(raw: String) -> (r: DeltaResult<Self>)
        ensures
            r matches Ok(cfg) && cfg.raw@ == raw@ && cfg.parsed == train_spec_of(raw@),
    {
        let parsed = TrainSpec::from_raw(raw.as_str());
        Ok(TrainConfig { parsed, raw })
    }

    /// The model kind the config asks for.
    pub fn model_kind(&self) -> (r: ModelKind)
        ensures
            r == self.parsed.model_kind,
    {
        self.parsed.model_kind
    }

    /// The fairness report carried by the config, if any.
    pub fn fairness(&self) -> (r: Option<FairnessReport>)
        ensures
            r == self.parsed.fairness,
    {
        self.parsed.fairness
    }

    /// The differential-privacy settings carried by the config.
    pub fn dp(&self) -> (r: &DifferentialPrivacy)
        ensures
            *r == self.parsed.dp,
    {
        &self.parsed.dp
    }
}

/// Repository contract for model artefacts.
pub trait ModelRepo {
    /// Store a model version's artefact and metadata.
    fn put_model(&self, model: &ModelVersion) -> DeltaResult<()>;

    /// Load a model version's metadata.
    fn get_model(&self, id: &ModelId, version: &VersionName) -> DeltaResult<ModelVersion>;
}

/// Interface for components that can perform training.
pub trait Trainer {
    /// Derive and register a model version for a dataset and config.
    fn train(&self, dataset: DatasetId, cfg: &TrainConfig) -> DeltaResult<ModelVersion>;
}

} // verus!
