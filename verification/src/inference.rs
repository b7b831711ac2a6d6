//! Inference orchestration: consent, routing, reconciliation, engine dispatch
//! with the text-to-tabular fallback, and WhyLog construction.
//!
//! The audit hash is computed over the merged body exactly as it stands
//! before the audit field is appended; the hash never covers itself.

use vstd::prelude::*;
use crate::engine::{
    tabular_response, text_response, EngineRegistry, EngineResponse, EngineResponseV,
};
use crate::error::{DeltaCode, DeltaError, DeltaResult};
use crate::fixed::fmt_fixed4;
use crate::hash::{hash_bytes, hex64, is_hex_digit, SimpleHash, FNV_OFFSET_BASIS};
use crate::json::{escape_seq, extract_string_spec, is_ws, push_escaped, skip_ws, skip_ws_spec};
use crate::model::{ModelId, ModelKind, ModelVersion, ModelVersionV, VersionName};
use crate::route::{
    build_context, ensure_compatible, ensure_consent, route_spec, validate_route_spec,
    AllowAllConsent, InferenceContext, Prediction, RouteDecision, RouteTarget, RouterContext,
    SSMRouter, WhyLog, context_flag_of, input_flag_of, text_len_of,
};
use crate::text::{chars_of, chars_to_string, push_str_chars};

verus! {

/// The single shared slot naming the model inference serves.
#[derive(Debug)]
pub struct ActiveModel {
    active: Option<ModelVersion>,
}

impl View for ActiveModel {
    type V = Option<ModelVersionV>;

    closed spec fn view(&self) -> Option<ModelVersionV> {
        match self.active {
            Some(m) => Some(m@),
            None => None,
        }
    }
}

impl ActiveModel {
    /// An empty slot: no model serves yet.
    pub fn new() -> (r: Self)
        ensures
            r@ is None,
    {
        ActiveModel { active: None }
    }
}

/// Register the model that subsequent inference calls should use.
pub fn register_active_model(slot: &mut ActiveModel, model: ModelVersion)
    ensures
        final(slot)@ == Some(model@),
{
    slot.active = Some(model);
}

/// Copy the active model out of the slot.
pub fn active_model(slot: &ActiveModel) -> (r: Option<ModelVersion>)
    ensures
        match r {
            Some(m) => slot@ == Some(m@),
            None => slot@ is None,
        },
{
    match &slot.active {
        Some(m) => Some(m.clone()),
        None => None,
    }
}

/// The position ending the trailing whitespace run of `s[floor..i]`.
pub open spec fn ws_end_from(s: Seq<char>, i: int, floor: int) -> int
    decreases i - floor,
{
    if floor < i <= s.len() && is_ws(s[i - 1]) {
        ws_end_from(s, i - 1, floor)
    } else {
        i
    }
}

/// The text with leading and trailing whitespace removed.
pub open spec fn trimmed(s: Seq<char>) -> Seq<char> {
    let a = skip_ws_spec(s, 0);
    let e = ws_end_from(s, s.len() as int, a);
    s.subrange(a, e)
}

/// The position ending the trailing closing-brace run of `s[..i]`.
pub open spec fn brace_end_from(s: Seq<char>, i: int) -> int
    decreases i,
{
    if 0 < i <= s.len() && s[i - 1] == '}' {
        brace_end_from(s, i - 1)
    } else {
        i
    }
}

/// The merged response body: the engine payload, braced if it was not, its
/// closing braces dropped, then the routing metadata fields and one brace.
pub open spec fn merged_body(
    payload: Seq<char>,
    m: ModelVersionV,
    d: RouteDecision,
    conf: i64,
) -> Seq<char> {
    let t = trimmed(payload);
    let base1 = if t.len() == 0 || t[0] != '{' {
        seq!['{'] + t
    } else {
        t
    };
    let base = if base1.len() == 0 || base1.last() != '}' {
        base1.push('}')
    } else {
        base1
    };
    let body0 = base.take(brace_end_from(base, base.len() as int));
    let body1 = if body0.len() > 1 {
        body0.push(',')
    } else {
        body0
    };
    body1 + "\"model_id\":\""@ + escape_seq(m.id) + "\",\"version\":\""@ + escape_seq(m.version)
        + "\",\"route\":\""@ + d.target.spec_str() + "\",\"route_reason\":\""@ + d.reason.spec_str()
        + "\",\"confidence\":"@ + fmt_fixed4(conf as int) + "}"@
}

/// Merge an engine payload with the routing metadata.
pub fn merge_payload(
    engine_payload: &str,
    model: &ModelVersion,
    decision: RouteDecision,
    confidence: i64,
) -> (r: String)
    ensures
        r@ == merged_body(engine_payload@, model@, decision, confidence),
{
    let pc = chars_of(engine_payload);
    let n: usize = pc.len();
    let a: usize = skip_ws(&pc, 0);
    let mut e: usize = n;
    while e > a && (pc[e - 1] == ' ' || pc[e - 1] == '\t' || pc[e - 1] == '\n' || pc[e - 1] == '\r')
        invariant
            a <= e <= n,
            n == pc@.len(),
            ws_end_from(pc@, n as int, a as int) == ws_end_from(pc@, e as int, a as int),
        decreases e,
    {
        e = e - 1;
    }
    let mut base: Vec<char> = Vec::new();
    if e == a || pc[a] != '{' {
        base.push('{');
    }
    let mut j: usize = a;
    let ghost basepre = base@;
    while j < e
        invariant
            a <= j <= e <= n,
            n == pc@.len(),
            base@ == basepre + pc@.subrange(a as int, j as int),
        decreases e - j,
    {
        base.push(pc[j]);
        proof {
            assert(pc@.subrange(a as int, j + 1) =~= pc@.subrange(a as int, j as int).push(
                pc@[j as int],
            ));
        }
        j = j + 1;
    }
    proof {
        assert(base@ =~= basepre + trimmed(engine_payload@));
        if basepre.len() == 1 {
            assert(base@ =~= seq!['{'] + trimmed(engine_payload@));
        }
    }
    if base.len() == 0 || base[base.len() - 1] != '}' {
        base.push('}');
    }
    let mut be: usize = base.len();
    while be > 0 && base[be - 1] == '}'
        invariant
            be <= base@.len(),
            brace_end_from(base@, base@.len() as int) == brace_end_from(base@, be as int),
        decreases be,
    {
        be = be - 1;
    }
    base.truncate(be);
    if base.len() > 1 {
        base.push(',');
    }
    push_str_chars(&mut base, "\"model_id\":\"");
    push_escaped(&mut base, &chars_of(model.id.as_str()));
    push_str_chars(&mut base, "\",\"version\":\"");
    push_escaped(&mut base, &chars_of(model.version.as_str()));
    push_str_chars(&mut base, "\",\"route\":\"");
    push_str_chars(&mut base, decision.target.as_str());
    push_str_chars(&mut base, "\",\"route_reason\":\"");
    push_str_chars(&mut base, decision.reason.as_str());
    push_str_chars(&mut base, "\",\"confidence\":");
    crate::fixed::push_fixed4(&mut base, confidence);
    push_str_chars(&mut base, "}");
    proof {
        assert(base@ =~= merged_body(engine_payload@, model@, decision, confidence));
    }
    chars_to_string(&base)
}

/// The position of the last closing brace strictly before `i`, or below zero.
pub open spec fn last_brace_at(s: Seq<char>, i: int) -> int
    decreases i,
{
    if i <= 0 {
        -1
    } else if s[i - 1] == '}' {
        i - 1
    } else {
        last_brace_at(s, i - 1)
    }
}

/// The body with the audit hash spliced in before its last closing brace; a
/// body with no closing brace is left alone.
pub open spec fn appended_body(body: Seq<char>, hash: Seq<char>) -> Seq<char> {
    let j = last_brace_at(body, body.len() as int);
    if j < 0 {
        body
    } else {
        body.take(j) + ",\"whylog_hash\":\""@ + hash + "\"}"@
    }
}

/// Splice the audit hash into the body before its last closing brace.
pub fn append_whylog_hash(body: &mut String, hash: &str)
    ensures
        final(body)@ == appended_body(old(body)@, hash@),
{
    let bc = chars_of(body.as_str());
    let n: usize = bc.len();
    let mut i: usize = n;
    while i > 0 && bc[i - 1] != '}'
        invariant
            i <= n == bc@.len(),
            last_brace_at(bc@, n as int) == last_brace_at(bc@, i as int),
        decreases i,
    {
        i = i - 1;
    }
    if i == 0 {
        return ;
    }
    let j: usize = i - 1;
    let mut out: Vec<char> = Vec::new();
    let mut k: usize = 0;
    while k < j
        invariant
            k <= j < n == bc@.len(),
            out@ == bc@.subrange(0, k as int),
        decreases j - k,
    {
        out.push(bc[k]);
        proof {
            assert(bc@.subrange(0, k + 1) =~= bc@.subrange(0, k as int).push(bc@[k as int]));
        }
        k = k + 1;
    }
    push_str_chars(&mut out, ",\"whylog_hash\":\"");
    push_str_chars(&mut out, hash);
    push_str_chars(&mut out, "\"}");
    proof {
        assert(bc@.take(j as int) =~= bc@.subrange(0, j as int));
        assert(out@ =~= appended_body(old(body)@, hash@));
    }
    *body = chars_to_string(&out);
}

/// The audit digest of a body text.
pub open spec fn whylog_hash_of(body: Seq<char>) -> Seq<char> {
    hex64(hash_bytes(FNV_OFFSET_BASIS, vstd::utf8::encode_utf8(body)))
}

/// Law: the WhyLog hash is always exactly 64 hexadecimal characters.
pub proof fn lemma_whylog_hash_shape(body: Seq<char>)
    ensures
        whylog_hash_of(body).len() == 64,
        forall|k: int| 0 <= k < 64 ==> is_hex_digit(#[trigger] whylog_hash_of(body)[k]),
{
    crate::hash::lemma_hex64_shape(hash_bytes(FNV_OFFSET_BASIS, vstd::utf8::encode_utf8(body)));
}

/// Law: the audit digest depends on the body text alone, so hashing the body
/// as it stood before the audit field was appended reproduces the stored
/// hash.
pub proof fn lemma_rehash_reproduces(b1: Seq<char>, b2: Seq<char>)
    requires
        b1 == b2,
    ensures
        whylog_hash_of(b1) == whylog_hash_of(b2),
{
}

/// Law: on a body that ends with a closing brace, the audit field is spliced
/// in right before that final brace, so the text in front of the audit marker
/// is exactly the body the stored hash digested.
pub proof fn lemma_append_splices_before_final_brace(body: Seq<char>, h: Seq<char>)
    requires
        body.len() > 0,
        body.last() == '}',
    ensures
        appended_body(body, h) == body.take(body.len() - 1) + ",\"whylog_hash\":\""@ + h
            + "\"}"@,
{
}

/// Law: every merged body ends with a closing brace, so the audit splice of
/// `lemma_append_splices_before_final_brace` always applies to it.
pub proof fn lemma_merged_body_ends_with_brace(
    payload: Seq<char>,
    m: ModelVersionV,
    d: RouteDecision,
    conf: i64,
)
    ensures
        merged_body(payload, m, d, conf).len() > 0,
        merged_body(payload, m, d, conf).last() == '}',
{
    reveal_strlit("}");
}

/// Copy a vector of strings.
fn copy_strings(v: &Vec<String>) -> (r: Vec<String>)
    ensures
        r.deep_view() == v.deep_view(),
{
    let mut r: Vec<String> = Vec::new();
    let mut i: usize = 0;
    proof {
        assert(r.deep_view() =~~= v.deep_view().take(0));
    }
    while i < v.len()
        invariant
            i <= v@.len(),
            v@.len() == v.deep_view().len(),
            r.deep_view() == v.deep_view().take(i as int),
        decreases v@.len() - i,
    {
        let s: String = v[i].clone();
        r.push(s);
        proof {
            assert(v.deep_view().take(i + 1) =~= v.deep_view().take(i as int).push(
                v.deep_view()[i as int],
            ));
            assert(r.deep_view() =~~= v.deep_view().take(i + 1));
        }
        i = i + 1;
    }
    proof {
        assert(v.deep_view().take(v.deep_view().len() as int) =~= v.deep_view());
    }
    r
}

/// Build the audit record for a merged body: the hash digests the body as
/// given, before any audit field joins it.
pub fn build_whylog(body: &str, response: &EngineResponse) -> (w: WhyLog)
    ensures
        w.hash@ == whylog_hash_of(body@),
        w.salient.deep_view() == response@.saliency,
        w.rationale@ == response.rationale@,
{
    let mut hasher = SimpleHash::new();
    hasher.update(body.as_bytes());
    WhyLog {
        hash: hasher.finish_hex64(),
        salient: copy_strings(&response.saliency),
        rationale: response.rationale.clone(),
    }
}

/// The decision the router takes for a payload, before reconciliation. The
/// features-only flag is fed by the nested context flag (through the
/// caller-level context) and by the in-band flag.
pub open spec fn decision_of(input: Seq<char>) -> RouteDecision {
    route_spec(input_flag_of(input) || context_flag_of(input), text_len_of(input))
}

/// The decision after reconciliation against the active model's family.
pub open spec fn reconciled_decision(kind: ModelKind, input: Seq<char>) -> RouteDecision {
    let d = decision_of(input);
    RouteDecision { target: validate_route_spec(kind, d.target), reason: d.reason }
}

/// What engine dispatch produces: the engine response and the decision as the
/// final record carries it. A text-targeted request whose text field is
/// absent, malformed or empty falls back to the tabular engine, and the
/// record's target says tabular while the original reason is kept.
pub open spec fn dispatched(m: ModelVersionV, input: Seq<char>) -> (EngineResponseV, RouteDecision) {
    let d = reconciled_decision(m.kind, input);
    if d.target == RouteTarget::Text {
        match extract_string_spec(input, "text"@) {
            Some(t) => if t.len() > 0 {
                (text_response(m, input, t), d)
            } else {
                (
                    tabular_response(m, input),
                    RouteDecision { target: RouteTarget::Tabular, reason: d.reason },
                )
            },
            None => (
                tabular_response(m, input),
                RouteDecision { target: RouteTarget::Tabular, reason: d.reason },
            ),
        }
    } else {
        (tabular_response(m, input), d)
    }
}

/// Law: a text-targeted request with a malformed, missing or empty text field
/// succeeds through the tabular fallback, the final record names the tabular
/// target, and the text engine's failure never reaches the caller.
pub proof fn lemma_malformed_text_falls_back(m: ModelVersionV, input: Seq<char>)
    requires
        extract_string_spec(input, "text"@) is None || extract_string_spec(
            input,
            "text"@,
        )->Some_0.len() == 0,
    ensures
        dispatched(m, input).1.target == RouteTarget::Tabular,
        dispatched(m, input).0 == tabular_response(m, input),
{
}

/// Perform a single inference call using the currently active model. Succeeds
/// exactly when a model is active: consent is checked first (the allow-all
/// store grants every pair), the router and reconciliation pick the target,
/// and a failing text engine falls back to the tabular engine, which is
/// total.
pub fn infer_with_ctx(
    slot: &ActiveModel,
    purpose_id: &str,
    subject_id: &str,
    input_json: &str,
) -> (r: DeltaResult<Prediction>)
    ensures
        r is Ok <==> slot@ is Some,
        r matches Err(e) ==> e.code == DeltaCode::ModelMissing && e.msg@ == "active_model"@,
        r matches Ok(p) ==> ({
            let m = slot@->Some_0;
            let rd = dispatched(m, input_json@);
            let body = merged_body(rd.0.payload, m, rd.1, rd.0.confidence);
            &&& p.json@ == appended_body(body, whylog_hash_of(body))
            &&& p.confidence == rd.0.confidence
            &&& p.whylog.hash@ == whylog_hash_of(body)
            &&& p.whylog.hash@.len() == 64
            &&& p.whylog.salient.deep_view() == rd.0.saliency
            &&& p.whylog.rationale@ == rd.0.rationale
        }),
{
    let model = match active_model(slot) {
        Some(m) => m,
        None => {
            return Err(DeltaError::model_missing("active_model"));
        },
    };
    let context = build_context(purpose_id, subject_id, input_json);
    let consent = AllowAllConsent;
    match ensure_consent(&consent, &context) {
        Ok(()) => (),
        Err(e) => {
            proof {
                assert(false);
            }
            return Err(e);
        },
    }
    let router = SSMRouter::new();
    let router_ctx = RouterContext::from_payload(input_json, &context);
    let decision = ensure_compatible(&model, router.decide(&router_ctx));
    let engines = EngineRegistry::default();

    let start = crate::time::now_ms();
    let dispatch = engines.infer(decision.target, &model, input_json);
    let picked: (EngineResponse, RouteDecision) = match dispatch {
        Ok(resp) => (resp, decision),
        Err(err) => {
            if decision.target == RouteTarget::Text {
                match engines.infer(RouteTarget::Tabular, &model, input_json) {
                    Ok(resp) => (
                        resp,
                        RouteDecision { target: RouteTarget::Tabular, reason: decision.reason },
                    ),
                    Err(e2) => {
                        proof {
                            assert(false);
                        }
                        return Err(e2);
                    },
                }
            } else {
                proof {
                    assert(false);
                }
                return Err(err);
            }
        },
    };
    let (response, record) = picked;
    let finish = crate::time::now_ms();
    let latency: u32 = ((finish.saturating_sub(start)) & 0xffff_ffff) as u32;

    let mut body = merge_payload(response.payload.as_str(), &model, record, response.confidence);
    let whylog = build_whylog(body.as_str(), &response);
    proof {
        lemma_whylog_hash_shape(body@);
    }
    append_whylog_hash(&mut body, whylog.hash.as_str());

    Ok(Prediction { json: body, latency_ms: latency, confidence: response.confidence, whylog })
}

/// Convenience wrapper that reuses the active model but accepts typed
/// identifiers: the call is refused unless the active model carries the given
/// id, and, when a non-empty version is given, that version.
pub fn infer_with_model(
    slot: &ActiveModel,
    model_id: &ModelId,
    version: Option<&VersionName>,
    purpose_id: &str,
    subject_id: &str,
    input_json: &str,
) -> (r: DeltaResult<Prediction>)
    ensures
        r is Ok <==> (slot@ is Some && slot@->Some_0.id == model_id@ && (match version {
            Some(v) => v@.len() == 0 || slot@->Some_0.version == v@,
            None => true,
        })),
        r matches Err(e) ==> e.code == DeltaCode::ModelMissing && e.msg@ == (if slot@ is None {
            "active_model"@
        } else if slot@->Some_0.id != model_id@ {
            "active_model_mismatch"@
        } else {
            "active_version_mismatch"@
        }),
        r matches Ok(p) ==> ({
            let m = slot@->Some_0;
            let rd = dispatched(m, input_json@);
            let body = merged_body(rd.0.payload, m, rd.1, rd.0.confidence);
            &&& p.json@ == appended_body(body, whylog_hash_of(body))
            &&& p.confidence == rd.0.confidence
            &&& p.whylog.hash@ == whylog_hash_of(body)
        }),
{
    let active = match active_model(slot) {
        Some(m) => m,
        None => {
            return Err(DeltaError::model_missing("active_model"));
        },
    };
    if !active.id.matches(model_id) {
        return Err(DeltaError::model_missing("active_model_mismatch"));
    }
    match version {
        Some(ver) => if !ver.is_empty() && !active.version.matches(ver) {
            return Err(DeltaError::model_missing("active_version_mismatch"));
        },
        None => (),
    }
    infer_with_ctx(slot, purpose_id, subject_id, input_json)
}

} // verus!
