//! Domain definitions for inference requests, routing and explanations.
//!
//! The router is a stateless, deterministic decision procedure with three
//! terminal outcomes, evaluated in a load-bearing order: an explicit
//! features-only override always wins, then long text goes to the text
//! family, and everything else takes the tabular default. A reconciliation
//! step afterwards downgrades the target to tabular whenever it disagrees
//! with the active model's family, keeping the original reason code.

use vstd::prelude::*;
use crate::error::{DeltaCode, DeltaError, DeltaResult};
use crate::json::{extract_bool_spec, extract_object_spec, extract_string_spec};
use crate::model::{ModelKind, ModelVersion};
use crate::text::chars_of;

verus! {

/// Result of a single inference call, including WhyLog metadata for auditing.
#[derive(Debug)]
pub struct Prediction {
    /// The merged response body.
    pub json: String,
    /// Wall-clock time the engine dispatch took, in milliseconds.
    pub latency_ms: u32,
    /// Engine confidence, in nanos.
    pub confidence: i64,
    /// The audit record attached to the response.
    pub whylog: WhyLog,
}

/// Lightweight WhyLog representation tracking saliency and canonical hash.
#[derive(Debug)]
pub struct WhyLog {
    /// 64-character hexadecimal digest of the body before this record joined it.
    pub hash: String,
    /// The saliency entries copied from the engine response.
    pub salient: Vec<String>,
    /// The engine's rationale marker.
    pub rationale: String,
}

/// Context accompanying an inference call.
#[derive(Debug)]
pub struct InferenceContext {
    /// For which purpose the call is made.
    pub purpose_id: String,
    /// On whose behalf the call is made.
    pub subject_id: String,
    /// Caller-supplied features-only override.
    pub features_only: bool,
}

impl InferenceContext {
    /// Construct a per-call context.
    pub fn new(purpose_id: String, subject_id: String, features_only: bool) -> (r: Self)
        ensures
            r.purpose_id@ == purpose_id@,
            r.subject_id@ == subject_id@,
            r.features_only == features_only,
    {
        InferenceContext { purpose_id, subject_id, features_only }
    }
}

/// The character count of the payload's `text` field, zero when absent.
pub open spec fn text_len_of(payload: Seq<char>) -> int {
    match extract_string_spec(payload, "text"@) {
        Some(s) => s.len() as int,
        None => 0,
    }
}

/// The in-band `features_only` flag of the payload.
pub open spec fn input_flag_of(payload: Seq<char>) -> bool {
    match extract_bool_spec(payload, "features_only"@) {
        Some(b) => b,
        None => false,
    }
}

/// The `features_only` flag nested in the payload's `context` object.
pub open spec fn context_flag_of(payload: Seq<char>) -> bool {
    match extract_object_spec(payload, "context"@) {
        Some(sec) => match extract_bool_spec(sec, "features_only"@) {
            Some(b) => b,
            None => false,
        },
        None => false,
    }
}

/// Router input summarising the request payload.
#[derive(Copy, Clone, Debug, PartialEq, Eq, Structural)]
pub struct RouterContext {
    /// Whether any of the three features-only signal paths is set.
    pub features_only: bool,
    /// Character count of the payload's text field.
    pub text_length: usize,
}

impl Default for RouterContext {
    /// No override and no text.
    fn default() -> (r: Self)
        ensures
            r == (RouterContext { features_only: false, text_length: 0 }),
    {
        RouterContext { features_only: false, text_length: 0 }
    }
}

impl RouterContext {
    /// Derive the routing-relevant features of a request. The features-only
    /// flag is set by any of its three signal paths: the caller's context,
    /// the in-band request flag, or the nested context flag.
    pub fn from_payload(payload: &str, ctx: &InferenceContext) -> (r: Self)
        ensures
            r.features_only == (ctx.features_only || input_flag_of(payload@) || context_flag_of(
                payload@,
            )),
            r.text_length as int == text_len_of(payload@),
    {
        let pc = chars_of(payload);
        let text_length: usize = match crate::json::extract_string_chars(&pc, &chars_of("text")) {
            Some(s) => s.len(),
            None => 0,
        };
        let input_flag = match crate::json::extract_bool_chars(&pc, &chars_of("features_only")) {
            Some(b) => b,
            None => false,
        };
        let context_flag = match crate::json::extract_object_chars(&pc, &chars_of("context")) {
            Some(sec) => match crate::json::extract_bool_chars(&sec, &chars_of("features_only")) {
                Some(b) => b,
                None => false,
            },
            None => false,
        };
        RouterContext { features_only: ctx.features_only || input_flag || context_flag, text_length }
    }
}

/// Target model family selected by the router.
#[derive(Copy, Clone, Debug, Eq, PartialEq, Structural)]
pub enum RouteTarget {
    /// The tabular family.
    Tabular,
    /// The text family.
    Text,
}

impl RouteTarget {
    /// The wire label of a target.
    pub open spec fn spec_str(self) -> Seq<char> {
        match self {
            RouteTarget::Tabular => "tabular"@,
            RouteTarget::Text => "text"@,
        }
    }

    /// The wire label of a target, as executable code.
    pub fn as_str(&self) -> (r: &'static str)
        ensures
            r@ == self.spec_str(),
    {
        match self {
            RouteTarget::Tabular => "tabular",
            RouteTarget::Text => "text",
        }
    }
}

/// Reason the router picked a particular target.
#[derive(Copy, Clone, Debug, Eq, PartialEq, Structural)]
pub enum RouteReason {
    /// A features-only signal forced the tabular family.
    FeatureOverride,
    /// The text field was long enough for the text family.
    LongText,
    /// Nothing else applied; the tabular default.
    DefaultTabular,
}

impl RouteReason {
    /// The wire label of a reason.
    pub open spec fn spec_str(self) -> Seq<char> {
        match self {
            RouteReason::FeatureOverride => "features_only"@,
            RouteReason::LongText => "long_text"@,
            RouteReason::DefaultTabular => "default"@,
        }
    }

    /// The wire label of a reason, as executable code.
    pub fn as_str(&self) -> (r: &'static str)
        ensures
            r@ == self.spec_str(),
    {
        match self {
            RouteReason::FeatureOverride => "features_only",
            RouteReason::LongText => "long_text",
            RouteReason::DefaultTabular => "default",
        }
    }
}

/// Router decision result.
#[derive(Copy, Clone, Debug, Eq, PartialEq, Structural)]
pub struct RouteDecision {
    /// The family the router selected.
    pub target: RouteTarget,
    /// Why it selected that family.
    pub reason: RouteReason,
}

/// The router's whole decision procedure: features-only wins, then long text,
/// then the tabular default. Texts longer than 256 characters count as long.
pub open spec fn route_spec(features_only: bool, text_length: int) -> RouteDecision {
    if features_only {
        RouteDecision { target: RouteTarget::Tabular, reason: RouteReason::FeatureOverride }
    } else if text_length > 256 {
        RouteDecision { target: RouteTarget::Text, reason: RouteReason::LongText }
    } else {
        RouteDecision { target: RouteTarget::Tabular, reason: RouteReason::DefaultTabular }
    }
}

/// Router trait for deterministic single-state-machine routing.
pub trait ModelRouter {
    /// Classify a request into a target family with a reason code.
    fn route(&self, ctx: &RouterContext) -> RouteDecision;
}

/// Single-state-machine router implementing the documented heuristics.
#[derive(Debug)]
pub struct SSMRouter;

impl Default for SSMRouter {
    /// The router; it carries no state.
    fn default() -> Self {
        SSMRouter
    }
}

impl SSMRouter {
    /// The router; it carries no state.
    pub fn new() -> Self {
        SSMRouter
    }

    /// Classify a request, exactly as `route_spec` says.
    pub fn decide(&self, ctx: &RouterContext) -> (r: RouteDecision)
        ensures
            r == route_spec(ctx.features_only, ctx.text_length as int),
    {
        if ctx.features_only {
            return RouteDecision {
                target: RouteTarget::Tabular,
                reason: RouteReason::FeatureOverride,
            };
        }
        if ctx.text_length > 256 {
            return RouteDecision { target: RouteTarget::Text, reason: RouteReason::LongText };
        }
        RouteDecision { target: RouteTarget::Tabular, reason: RouteReason::DefaultTabular }
    }
}

impl ModelRouter for SSMRouter {
    fn route(&self, ctx: &RouterContext) -> RouteDecision {
        self.decide(ctx)
    }
}

/// Law: whenever any features-only signal path is set, the router answers
/// target tabular with the feature-override reason, whatever the text length.
pub proof fn lemma_feature_override_wins(
    payload: Seq<char>,
    caller_flag: bool,
    text_length: int,
)
    requires
        caller_flag || input_flag_of(payload) || context_flag_of(payload),
    ensures
        route_spec(caller_flag || input_flag_of(payload) || context_flag_of(payload), text_length)
            == (RouteDecision { target: RouteTarget::Tabular, reason: RouteReason::FeatureOverride }),
{
}

/// Law: without a features-only signal, text longer than 256 characters goes
/// to the text family for the long-text reason.
pub proof fn lemma_long_text_routes_to_text(payload: Seq<char>, text_length: int)
    requires
        !input_flag_of(payload),
        !context_flag_of(payload),
        text_length > 256,
    ensures
        route_spec(false || input_flag_of(payload) || context_flag_of(payload), text_length) == (
        RouteDecision { target: RouteTarget::Text, reason: RouteReason::LongText }),
{
}

/// Interface for consent lookups.
pub trait ConsentStore {
    /// Whether this store grants consent for a (purpose, subject) pair.
    spec fn grants(&self, purpose_id: Seq<char>, subject_id: Seq<char>) -> bool;

    /// Whether this store can never fail for infrastructure reasons.
    spec fn reliable(&self) -> bool;

    /// Look consent up; a denial is a normal `false`, an error is an
    /// infrastructure failure.
    fn is_granted(&self, purpose_id: &str, subject_id: &str) -> (r: DeltaResult<bool>)
        ensures
            r matches Ok(g) ==> g == self.grants(purpose_id@, subject_id@),
            self.reliable() ==> r is Ok,
    ;
}

/// Allow-all consent store used until real storage is wired in.
#[derive(Debug)]
pub struct AllowAllConsent;

impl Default for AllowAllConsent {
    /// The store; it carries no state.
    fn default() -> Self {
        AllowAllConsent
    }
}

impl ConsentStore for AllowAllConsent {
    open spec fn grants(&self, purpose_id: Seq<char>, subject_id: Seq<char>) -> bool {
        true
    }

    open spec fn reliable(&self) -> bool {
        true
    }

    fn is_granted(&self, _purpose_id: &str, _subject_id: &str) -> DeltaResult<bool> {
        Ok(true)
    }
}

/// The family a model kind serves.
pub open spec fn route_target_spec(kind: ModelKind) -> RouteTarget {
    match kind {
        ModelKind::TabularLogistic => RouteTarget::Tabular,
        ModelKind::TabularGradientBoosting => RouteTarget::Tabular,
        ModelKind::TextMiniLm => RouteTarget::Text,
    }
}

/// Helper to map model kind to router targets.
pub fn route_target_for_model(kind: ModelKind) -> (r: RouteTarget)
    ensures
        r == route_target_spec(kind),
{
    match kind {
        ModelKind::TabularLogistic | ModelKind::TabularGradientBoosting => RouteTarget::Tabular,
        ModelKind::TextMiniLm => RouteTarget::Text,
    }
}

/// The defensive downgrade: a target that disagrees with the active model's
/// family is forced to tabular.
pub open spec fn validate_route_spec(kind: ModelKind, target: RouteTarget) -> RouteTarget {
    if route_target_spec(kind) == target {
        target
    } else {
        RouteTarget::Tabular
    }
}

/// Ensure the selected route matches the model family, otherwise fall back to
/// the tabular target.
pub fn validate_route(model: &ModelVersion, decision: RouteDecision) -> (r: RouteTarget)
    ensures
        r == validate_route_spec(model.kind, decision.target),
{
    let expected = route_target_for_model(model.kind);
    if expected == decision.target {
        decision.target
    } else {
        RouteTarget::Tabular
    }
}

/// Law: whenever the decision's target disagrees with the active model's
/// family, the reconciled target is tabular.
pub proof fn lemma_reconcile_forces_tabular(kind: ModelKind, decision: RouteDecision)
    requires
        route_target_spec(kind) != decision.target,
    ensures
        validate_route_spec(kind, decision.target) == RouteTarget::Tabular,
{
}

/// Build an inference context from raw strings and an optional JSON envelope:
/// the nested context flag seeds the caller-level features-only override.
pub fn build_context(purpose_id: &str, subject_id: &str, input: &str) -> (r: InferenceContext)
    ensures
        r.purpose_id@ == purpose_id@,
        r.subject_id@ == subject_id@,
        r.features_only == context_flag_of(input@),
{
    let pc = chars_of(input);
    let features_only = match crate::json::extract_object_chars(&pc, &chars_of("context")) {
        Some(sec) => match crate::json::extract_bool_chars(&sec, &chars_of("features_only")) {
            Some(b) => b,
            None => false,
        },
        None => false,
    };
    InferenceContext::new(purpose_id.to_owned(), subject_id.to_owned(), features_only)
}

/// Reconcile the router's decision against the active model: the target may
/// be downgraded to tabular, the original reason code is kept.
pub fn ensure_compatible(model: &ModelVersion, decision: RouteDecision) -> (r: RouteDecision)
    ensures
        r.target == validate_route_spec(model.kind, decision.target),
        r.reason == decision.reason,
{
    let target = validate_route(model, decision);
    RouteDecision { target, reason: decision.reason }
}

/// Check consent and map a denial or an infrastructure failure to the
/// dedicated no-consent error; nothing downstream runs when this fails.
pub fn ensure_consent<C: ConsentStore>(store: &C, ctx: &InferenceContext) -> (r: DeltaResult<()>)
    ensures
        r is Ok ==> store.grants(ctx.purpose_id@, ctx.subject_id@),
        r matches Err(e) ==> e.code == DeltaCode::NoConsent && e.msg@ == "no_consent"@,
        store.reliable() && store.grants(ctx.purpose_id@, ctx.subject_id@) ==> r is Ok,
{
    match store.is_granted(ctx.purpose_id.as_str(), ctx.subject_id.as_str()) {
        Ok(true) => Ok(()),
        Ok(false) => Err(DeltaError::no_consent()),
        Err(_) => Err(DeltaError::no_consent()),
    }
}

} // verus!
