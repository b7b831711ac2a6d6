//! Training-time policy gates: differential-privacy and fairness bounds.
//!
//! Both gates are pure, total functions of the parsed training specification,
//! and each reports the first violated bound with a distinct reason code.
//! Quantities are fixed-point nano counts.

use vstd::prelude::*;
use crate::error::{DeltaCode, DeltaError, DeltaResult};
use crate::model::{DifferentialPrivacy, FairnessReport, TrainConfig};

verus! {

/// Hard ceiling on the privacy budget epsilon (3.0).
pub const MAX_EPSILON: i64 = 3_000_000_000;

/// Hard ceiling on the privacy budget delta (0.00001).
pub const MAX_DELTA: i64 = 10_000;

/// Hard ceiling on the true-positive-rate gap (0.05).
pub const MAX_DELTA_TPR: i64 = 50_000_000;

/// Hard ceiling on the false-positive-rate gap (0.03).
pub const MAX_DELTA_FPR: i64 = 30_000_000;

/// Hard ceiling on the positive-predictive-value gap (0.04).
pub const MAX_DELTA_PPV: i64 = 40_000_000;

/// The reason the differential-privacy gate denies a config, if it does.
///
/// A disabled budget passes without any test; an enabled one must keep
/// epsilon, delta, clip and noise within bounds, tested in that order, and
/// the first breach wins.
pub open spec fn dp_check(dp: DifferentialPrivacy) -> Option<Seq<char>> {
    if !dp.enabled {
        None
    } else if dp.epsilon > MAX_EPSILON {
        Some("dp_epsilon_exceeded"@)
    } else if dp.delta > MAX_DELTA {
        Some("dp_delta_exceeded"@)
    } else if dp.clip <= 0 {
        Some("dp_clip_invalid"@)
    } else if dp.noise_multiplier <= 0 {
        Some("dp_noise_invalid"@)
    } else {
        None
    }
}

/// The reason the fairness gate denies a config, if it does.
///
/// A fairness report is mandatory: its absence is itself a denial. When
/// present, the gaps are checked in order tpr, fpr, ppv and the first
/// violation wins.
pub open spec fn fairness_check(fairness: Option<FairnessReport>) -> Option<Seq<char>> {
    match fairness {
        None => Some("fairness_report_missing"@),
        Some(rep) => if rep.delta_tpr > MAX_DELTA_TPR {
            Some("delta_tpr_exceeded"@)
        } else if rep.delta_fpr > MAX_DELTA_FPR {
            Some("delta_fpr_exceeded"@)
        } else if rep.delta_ppv > MAX_DELTA_PPV {
            Some("delta_ppv_exceeded"@)
        } else {
            None
        },
    }
}

/// Check one fairness gap against its bound.
pub fn check_fairness_delta(value: i64, bound: i64, code: &'static str) -> (r: DeltaResult<()>)
    ensures
        r is Ok <==> value <= bound,
        r matches Err(e) ==> e.code == DeltaCode::PolicyDenied && e.msg@ == code@,
{
    if value > bound {
        Err(DeltaError::policy_denied(code))
    } else {
        Ok(())
    }
}

/// Enforce the differential-privacy bounds on a parsed config.
pub fn enforce_dp(cfg: &TrainConfig) -> (r: DeltaResult<()>)
    ensures
        r is Ok <==> dp_check(cfg.parsed.dp) is None,
        r matches Err(e) ==> e.code == DeltaCode::PolicyDenied && Some(e.msg@) == dp_check(
            cfg.parsed.dp,
        ),
{
    let dp = cfg.dp();
    if !dp.enabled {
        return Ok(());
    }
    if dp.epsilon > MAX_EPSILON {
        return Err(DeltaError::policy_denied("dp_epsilon_exceeded"));
    }
    if dp.delta > MAX_DELTA {
        return Err(DeltaError::policy_denied("dp_delta_exceeded"));
    }
    if dp.clip <= 0 {
        return Err(DeltaError::policy_denied("dp_clip_invalid"));
    }
    if dp.noise_multiplier <= 0 {
        return Err(DeltaError::policy_denied("dp_noise_invalid"));
    }
    Ok(())
}

/// Enforce the fairness bounds on a parsed config.
pub fn enforce_fairness(cfg: &TrainConfig) -> (r: DeltaResult<()>)
    ensures
        r is Ok <==> fairness_check(cfg.parsed.fairness) is None,
        r matches Err(e) ==> e.code == DeltaCode::PolicyDenied && Some(e.msg@) == fairness_check(
            cfg.parsed.fairness,
        ),
{
    match cfg.fairness() {
        Some(report) => {
            check_fairness_delta(report.delta_tpr, MAX_DELTA_TPR, "delta_tpr_exceeded")?;
            check_fairness_delta(report.delta_fpr, MAX_DELTA_FPR, "delta_fpr_exceeded")?;
            check_fairness_delta(report.delta_ppv, MAX_DELTA_PPV, "delta_ppv_exceeded")?;
            Ok(())
        },
        None => Err(DeltaError::policy_denied("fairness_report_missing")),
    }
}

} // verus!
