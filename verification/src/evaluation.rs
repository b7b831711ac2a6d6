//! Evaluation services coordinating metric summaries and drift tracking.

use vstd::prelude::*;
use crate::error::{DeltaCode, DeltaError, DeltaResult};
use crate::model::ModelVersion;

verus! {

/// Summary of evaluation metrics for a particular model.
#[derive(Debug)]
pub struct EvalSuite {
    /// The evaluated model version.
    pub model: ModelVersion,
    /// The metrics card as JSON text.
    pub metrics_card: String,
}

/// Drift statistics; decimals in nanos.
#[derive(Copy, Clone, Debug)]
pub struct DriftStats {
    /// Population stability index, in nanos.
    pub psi: i64,
    /// Kolmogorov-Smirnov statistic, in nanos.
    pub ks: i64,
}

impl Default for DriftStats {
    /// No drift observed.
    fn default() -> (r: Self)
        ensures
            r == (DriftStats { psi: 0, ks: 0 }),
    {
        DriftStats { psi: 0, ks: 0 }
    }
}

/// Repository contract for evaluation artefacts.
pub trait EvalRepo {
    /// Store an evaluation suite.
    fn put_suite(&self, suite: &EvalSuite) -> DeltaResult<()>;

    /// Load the most recent suite for a model.
    fn get_latest(&self, model: &ModelVersion) -> DeltaResult<EvalSuite>;
}

/// Evaluate a model against reference datasets and produce a summary card;
/// no metric calculators are wired in yet, so the card is empty.
pub fn evaluate(model: &ModelVersion) -> (r: DeltaResult<EvalSuite>)
    ensures
        r matches Ok(s) && s.model@ == model@ && s.metrics_card@ == "{}"@,
{
    Ok(EvalSuite { model: model.clone(), metrics_card: "{}".to_owned() })
}

/// Compute drift statistics based on accumulated inference histograms; no
/// histogram source is wired in, so this reports itself unimplemented.
pub fn drift(model: &ModelVersion) -> (r: DeltaResult<DriftStats>)
    ensures
        r matches Err(e) && e.code == DeltaCode::Internal && e.msg@ == "evaluation::drift"@,
{
    let _ = model;
    Err(DeltaError::not_implemented("evaluation::drift"))
}

} // verus!
