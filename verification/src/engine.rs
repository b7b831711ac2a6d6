//! The two deterministic scoring engines and their dispatch registry.
//!
//! Scores derive from a hash of (model id, raw input), so a fixed pair always
//! scores the same; confidences are affine in the score and held in nanos.

use vstd::prelude::*;
use crate::error::{DeltaCode, DeltaError, DeltaResult};
use crate::fixed::{fmt_fixed4, push_fixed4};
use crate::hash::{hash_bytes, SimpleHash, FNV_OFFSET_BASIS};
use crate::json::{build_string_array_spec, is_ws, top_level_keys_spec};
use crate::model::{ModelVersion, ModelVersionV};
use crate::route::RouteTarget;
use crate::text::{chars_of, chars_to_string, push_str_chars};

verus! {

/// The digest over model id and raw input, in that order.
pub open spec fn score_hash(model_id: Seq<char>, input: Seq<char>) -> u32 {
    hash_bytes(
        hash_bytes(FNV_OFFSET_BASIS, vstd::utf8::encode_utf8(model_id)),
        vstd::utf8::encode_utf8(input),
    )
}

/// The deterministic engine score for a (model id, input) pair, in units of
/// one ten-thousandth, always below ten thousand.
pub open spec fn score_of(model_id: Seq<char>, input: Seq<char>) -> int {
    (score_hash(model_id, input) as int) % 10000
}

/// Law: the deterministic engine score is a function of the model id and the
/// raw input alone, so repeated calls on a fixed pair score identically.
pub proof fn lemma_score_reproducible(
    id1: Seq<char>,
    id2: Seq<char>,
    in1: Seq<char>,
    in2: Seq<char>,
)
    requires
        id1 == id2,
        in1 == in2,
    ensures
        score_of(id1, in1) == score_of(id2, in2),
{
}

/// Compute the deterministic score for a model and input.
pub fn deterministic_score(model: &ModelVersion, input: &str) -> (r: u32)
    ensures
        r as int == score_of(model@.id, input@),
        r < 10000,
{
    let mut hasher = SimpleHash::new();
    hasher.update(model.id.as_str().as_bytes());
    hasher.update(input.as_bytes());
    hasher.finish32() % 10_000
}

/// The mathematical image of an engine response.
pub ghost struct EngineResponseV {
    /// The response body text.
    pub payload: Seq<char>,
    /// Engine confidence, in nanos.
    pub confidence: i64,
    /// The saliency entries.
    pub saliency: Seq<Seq<char>>,
    /// The rationale marker.
    pub rationale: Seq<char>,
}

/// Engine response prior to final packaging into a prediction.
#[derive(Debug)]
pub struct EngineResponse {
    /// The response body text.
    pub payload: String,
    /// Engine confidence, in nanos.
    pub confidence: i64,
    /// The saliency entries.
    pub saliency: Vec<String>,
    /// The rationale marker.
    pub rationale: String,
}

impl View for EngineResponse {
    type V = EngineResponseV;

    open spec fn view(&self) -> EngineResponseV {
        EngineResponseV {
            payload: self.payload@,
            confidence: self.confidence,
            saliency: self.saliency.deep_view(),
            rationale: self.rationale@,
        }
    }
}

/// Engine abstraction decoupling orchestration from the implementations.
pub trait InferEngine {
    /// Which family this engine serves.
    fn kind(&self) -> RouteTarget;

    /// Run the engine over the active model and the raw input.
    fn infer(&self, model: &ModelVersion, input: &str) -> DeltaResult<EngineResponse>;
}

/// At most the first five entries.
pub open spec fn take5(ts: Seq<Seq<char>>) -> Seq<Seq<char>> {
    if ts.len() <= 5 {
        ts
    } else {
        ts.take(5)
    }
}

/// The top-level keys that count as features, reserved keys dropped, from
/// index `i` on.
pub open spec fn filter_keys_from(keys: Seq<Seq<char>>, i: int, acc: Seq<Seq<char>>) -> Seq<
    Seq<char>,
>
    decreases keys.len() - i,
{
    if i < 0 || i >= keys.len() {
        acc
    } else if keys[i] == "context"@ || keys[i] == "text"@ {
        filter_keys_from(keys, i + 1, acc)
    } else {
        filter_keys_from(keys, i + 1, acc.push(keys[i]))
    }
}

/// The feature keys of an input payload: its top-level keys, the reserved
/// `context` and `text` keys dropped.
pub open spec fn feature_keys(input: Seq<char>) -> Seq<Seq<char>> {
    filter_keys_from(top_level_keys_spec(input), 0, Seq::empty())
}

/// The tabular engine's saliency: the first five feature keys.
pub open spec fn tabular_saliency(input: Seq<char>) -> Seq<Seq<char>> {
    take5(feature_keys(input))
}

/// The tabular engine's whole response for a model and input.
pub open spec fn tabular_response(m: ModelVersionV, input: Seq<char>) -> EngineResponseV {
    let k = score_of(m.id, input);
    EngineResponseV {
        payload: "{\"ok\":true,\"mode\":\"tabular\",\"score\":"@ + fmt_fixed4(k * 100_000)
            + ",\"features\":"@ + build_string_array_spec(tabular_saliency(input)) + "}"@,
        confidence: (500_000_000 + k * 50_000) as i64,
        saliency: tabular_saliency(input),
        rationale: "tabular-local-surrogate"@,
    }
}

/// The whitespace-split tokens of a text, scanning from `i` with the partial
/// token `cur` and the tokens `acc` already taken.
pub open spec fn tokens_from(s: Seq<char>, i: int, cur: Seq<char>, acc: Seq<Seq<char>>) -> Seq<
    Seq<char>,
>
    decreases s.len() - i,
{
    if i < 0 || i >= s.len() {
        if cur.len() > 0 {
            acc.push(cur)
        } else {
            acc
        }
    } else if is_ws(s[i]) {
        if cur.len() > 0 {
            tokens_from(s, i + 1, Seq::empty(), acc.push(cur))
        } else {
            tokens_from(s, i + 1, Seq::empty(), acc)
        }
    } else {
        tokens_from(s, i + 1, cur.push(s[i]), acc)
    }
}

/// The whitespace-split tokens of a text.
pub open spec fn tokens_of(s: Seq<char>) -> Seq<Seq<char>> {
    tokens_from(s, 0, Seq::empty(), Seq::empty())
}

/// The text engine's saliency for an extracted text: its first five tokens.
pub open spec fn text_saliency(text: Seq<char>) -> Seq<Seq<char>> {
    take5(tokens_of(text))
}

/// The text engine's whole response for a model, input and extracted text.
pub open spec fn text_response(m: ModelVersionV, input: Seq<char>, text: Seq<char>) -> EngineResponseV {
    let k = score_of(m.id, input);
    EngineResponseV {
        payload: "{\"ok\":true,\"mode\":\"text\",\"score\":"@ + fmt_fixed4(k * 100_000)
            + ",\"tokens\":"@ + build_string_array_spec(text_saliency(text)) + "}"@,
        confidence: (400_000_000 + k * 60_000) as i64,
        saliency: text_saliency(text),
        rationale: "minilm-q4-saliency"@,
    }
}

/// Keep at most the first five strings.
fn take5_strings(items: Vec<String>) -> (r: Vec<String>)
    ensures
        r.deep_view() == take5(items.deep_view()),
{
    let mut r: Vec<String> = Vec::new();
    let mut i: usize = 0;
    while i < items.len() && i < 5
        invariant
            i <= items@.len(),
            i <= 5,
            items@.len() == items.deep_view().len(),
            r.deep_view() == items.deep_view().take(i as int),
        decreases items@.len() - i,
    {
        let s: String = items[i].clone();
        r.push(s);
        proof {
            assert(items.deep_view().take(i + 1) =~= items.deep_view().take(i as int).push(
                items.deep_view()[i as int],
            ));
            assert(r.deep_view() =~~= items.deep_view().take(i + 1));
        }
        i = i + 1;
    }
    proof {
        if items.deep_view().len() <= 5 {
            assert(items.deep_view().take(items.deep_view().len() as int) =~= items.deep_view());
        }
    }
    r
}

/// Local surrogate over tabular features.
#[derive(Debug)]
pub struct TabularEngine;

impl Default for TabularEngine {
    /// The engine; it carries no state.
    fn default() -> Self {
        TabularEngine
    }
}

impl TabularEngine {
    /// Score an input against the model; total, it never fails.
    pub fn run(&self, model: &ModelVersion, input: &str) -> (r: EngineResponse)
        ensures
            r@ == tabular_response(model@, input@),
    {
        let keys = crate::json::top_level_keys(input);
        let mut features: Vec<String> = Vec::new();
        let ghost kv = keys.deep_view();
        let mut i: usize = 0;
        proof {
            assert(features.deep_view() =~~= Seq::<Seq<char>>::empty());
        }
        while i < keys.len()
            invariant
                kv == keys.deep_view(),
                kv.len() == keys@.len(),
                i <= kv.len(),
                feature_keys(input@) == filter_keys_from(kv, i as int, features.deep_view()),
            decreases kv.len() - i,
        {
            let keep = !crate::text::str_eq_lit(&keys[i], "context") && !crate::text::str_eq_lit(
                &keys[i],
                "text",
            );
            let ghost before = features.deep_view();
            if keep {
                let s: String = keys[i].clone();
                features.push(s);
                proof {
                    assert(features.deep_view() =~~= before.push(kv[i as int]));
                }
            }
            i = i + 1;
        }
        let saliency = take5_strings(features);
        let score = deterministic_score(model, input);
        let mut out: Vec<char> = Vec::new();
        push_str_chars(&mut out, "{\"ok\":true,\"mode\":\"tabular\",\"score\":");
        push_fixed4(&mut out, (score as i64) * 100_000);
        push_str_chars(&mut out, ",\"features\":");
        let arr = crate::json::build_string_array(&saliency);
        push_str_chars(&mut out, arr.as_str());
        push_str_chars(&mut out, "}");
        let resp = EngineResponse {
            payload: chars_to_string(&out),
            confidence: 500_000_000 + (score as i64) * 50_000,
            saliency,
            rationale: "tabular-local-surrogate".to_owned(),
        };
        proof {
            assert(resp@.payload =~= tabular_response(model@, input@).payload);
        }
        resp
    }
}

impl InferEngine for TabularEngine {
    fn kind(&self) -> RouteTarget {
        RouteTarget::Tabular
    }

    fn infer(&self, model: &ModelVersion, input: &str) -> DeltaResult<EngineResponse> {
        Ok(self.run(model, input))
    }
}

/// Token saliency over a required text field.
#[derive(Debug)]
pub struct TextEngine;

impl Default for TextEngine {
    /// The engine; it carries no state.
    fn default() -> Self {
        TextEngine
    }
}

impl TextEngine {
    /// Score an input against the model. A non-empty text field is required:
    /// the engine fails when the field is absent, malformed or empty, and
    /// only then.
    pub fn run(&self, model: &ModelVersion, input: &str) -> (r: DeltaResult<EngineResponse>)
        ensures
            r is Ok <==> ({
                let t = crate::json::extract_string_spec(input@, "text"@);
                t is Some && t->Some_0.len() > 0
            }),
            r matches Ok(resp) ==> resp@ == text_response(
                model@,
                input@,
                crate::json::extract_string_spec(input@, "text"@)->Some_0,
            ),
            r matches Err(e) ==> e.code == DeltaCode::InvalidInput && e.msg@ == "text_required"@,
    {
        let ic = chars_of(input);
        let text: Vec<char> = match crate::json::extract_string_chars(&ic, &chars_of("text")) {
            Some(t) => t,
            None => {
                return Err(DeltaError::invalid("text_required"));
            },
        };
        if text.len() == 0 {
            return Err(DeltaError::invalid("text_required"));
        }
        let ghost tv = text@;
        let mut tokens: Vec<String> = Vec::new();
        let mut cur: Vec<char> = Vec::new();
        let mut i: usize = 0;
        proof {
            assert(tokens.deep_view() =~~= Seq::<Seq<char>>::empty());
            assert(cur@ =~= Seq::<char>::empty());
        }
        while i < text.len()
            invariant
                tv == text@,
                i <= tv.len(),
                tokens_of(tv) == tokens_from(tv, i as int, cur@, tokens.deep_view()),
            decreases tv.len() - i,
        {
            let c: char = text[i];
            let ghost before_tokens = tokens.deep_view();
            let ghost before_cur = cur@;
            if c == ' ' || c == '\t' || c == '\n' || c == '\r' {
                if cur.len() > 0 {
                    tokens.push(chars_to_string(&cur));
                    cur = Vec::new();
                    proof {
                        assert(tokens.deep_view() =~~= before_tokens.push(before_cur));
                        assert(cur@ =~= Seq::<char>::empty());
                    }
                } else {
                    proof {
                        assert(cur@ =~= Seq::<char>::empty());
                    }
                }
            } else {
                cur.push(c);
            }
            i = i + 1;
        }
        if cur.len() > 0 {
            tokens.push(chars_to_string(&cur));
            proof {
                assert(tokens.deep_view() =~~= tokens_of(tv));
            }
        }
        let saliency = take5_strings(tokens);
        let score = deterministic_score(model, input);
        let mut out: Vec<char> = Vec::new();
        push_str_chars(&mut out, "{\"ok\":true,\"mode\":\"text\",\"score\":");
        push_fixed4(&mut out, (score as i64) * 100_000);
        push_str_chars(&mut out, ",\"tokens\":");
        let arr = crate::json::build_string_array(&saliency);
        push_str_chars(&mut out, arr.as_str());
        push_str_chars(&mut out, "}");
        let resp = EngineResponse {
            payload: chars_to_string(&out),
            confidence: 400_000_000 + (score as i64) * 60_000,
            saliency,
            rationale: "minilm-q4-saliency".to_owned(),
        };
        proof {
            assert(resp@.payload =~= text_response(model@, input@, tv).payload);
        }
        Ok(resp)
    }
}

impl InferEngine for TextEngine {
    fn kind(&self) -> RouteTarget {
        RouteTarget::Text
    }

    fn infer(&self, model: &ModelVersion, input: &str) -> DeltaResult<EngineResponse> {
        self.run(model, input)
    }
}

/// Both engines, selected by the reconciled route target.
#[derive(Debug)]
pub struct EngineRegistry {
    /// The tabular engine.
    pub tabular: TabularEngine,
    /// The text engine.
    pub text: TextEngine,
}

impl Default for EngineRegistry {
    /// Both engines; they carry no state.
    fn default() -> Self {
        EngineRegistry { tabular: TabularEngine, text: TextEngine }
    }
}

impl EngineRegistry {
    /// Dispatch to the engine the target names.
    pub fn infer(&self, target: RouteTarget, model: &ModelVersion, payload: &str) -> (r:
        DeltaResult<EngineResponse>)
        ensures
            target == RouteTarget::Tabular ==> (r matches Ok(resp) && resp@ == tabular_response(
                model@,
                payload@,
            )),
            target == RouteTarget::Text ==> {
                &&& (r is Ok <==> ({
                    let t = crate::json::extract_string_spec(payload@, "text"@);
                    t is Some && t->Some_0.len() > 0
                }))
                &&& (r matches Ok(resp) ==> resp@ == text_response(
                    model@,
                    payload@,
                    crate::json::extract_string_spec(payload@, "text"@)->Some_0,
                ))
                &&& (r matches Err(e) ==> e.code == DeltaCode::InvalidInput && e.msg@
                    == "text_required"@)
            },
    {
        match target {
            RouteTarget::Tabular => Ok(self.tabular.run(model, payload)),
            RouteTarget::Text => self.text.run(model, payload),
        }
    }
}

} // verus!
