//! Service layer orchestrating model training and model-card export.
//!
//! Training runs the policy gates over the parsed config, derives the model
//! identity deterministically from (dataset, config, kind), stamps a version
//! with the wall clock, and registers the version.

use vstd::prelude::*;
use crate::data::DatasetId;
use crate::error::{DeltaCode, DeltaError, DeltaResult};
use crate::fixed::{dec_digits, fmt_fixed4, fmt_fixed6, push_dec_u128, push_fixed4, push_fixed6};
use crate::hash::{hash_bytes, hex8, SimpleHash, FNV_OFFSET_BASIS};
use crate::json::{escape_seq, push_escaped};
use crate::model::{
    ModelId, ModelKind, ModelMetadata, ModelVersion, ModelVersionV, TrainConfig, VersionName,
};
use crate::policy::{dp_check, enforce_dp, enforce_fairness, fairness_check};
use crate::registry::{find_latest, find_version, ModelRegistry};
use crate::text::{chars_of, chars_to_string, push_str_chars};

verus! {

/// The wire label of a model kind.
pub open spec fn model_kind_label_spec(kind: ModelKind) -> Seq<char> {
    match kind {
        ModelKind::TabularLogistic => "tabular-logreg"@,
        ModelKind::TabularGradientBoosting => "tabular-gbdt"@,
        ModelKind::TextMiniLm => "text-minilm"@,
    }
}

/// The wire label of a model kind, as executable code.
pub fn model_kind_label(kind: ModelKind) -> (r: &'static str)
    ensures
        r@ == model_kind_label_spec(kind),
{
    match kind {
        ModelKind::TabularLogistic => "tabular-logreg",
        ModelKind::TabularGradientBoosting => "tabular-gbdt",
        ModelKind::TextMiniLm => "text-minilm",
    }
}

/// The digest over dataset id, raw config and kind label, in that order.
pub open spec fn model_id_hash(dataset: Seq<char>, cfg: Seq<char>, kind: ModelKind) -> u32 {
    hash_bytes(
        hash_bytes(
            hash_bytes(FNV_OFFSET_BASIS, vstd::utf8::encode_utf8(dataset)),
            vstd::utf8::encode_utf8(cfg),
        ),
        vstd::utf8::encode_utf8(model_kind_label_spec(kind)),
    )
}

/// The identifier text a (dataset, config, kind) triple derives to. The same
/// triple always yields the same identifier.
pub open spec fn model_id_text(dataset: Seq<char>, cfg: Seq<char>, kind: ModelKind) -> Seq<char> {
    model_kind_label_spec(kind) + "-"@ + hex8(model_id_hash(dataset, cfg, kind))
}

/// Derive the deterministic model identifier for a training call.
pub fn make_model_id(dataset: &DatasetId, cfg_json: &str, kind: ModelKind) -> (r: ModelId)
    ensures
        r@ == model_id_text(dataset@, cfg_json@, kind),
{
    let mut hasher = SimpleHash::new();
    hasher.update(dataset.as_str().as_bytes());
    hasher.update(cfg_json.as_bytes());
    hasher.update(model_kind_label(kind).as_bytes());
    let mut out: Vec<char> = Vec::new();
    push_str_chars(&mut out, model_kind_label(kind));
    push_str_chars(&mut out, "-");
    crate::hash::push_hex8_chars(&mut out, hasher.finish32());
    proof {
        assert(out@ =~= model_id_text(dataset@, cfg_json@, kind));
    }
    ModelId::new(chars_to_string(&out))
}

/// The version label stamped at time `t`.
pub open spec fn version_label(t: int) -> Seq<char> {
    seq!['v'] + dec_digits(t)
}

/// The artefact path for a model id and version.
pub open spec fn artefact_path_text(id: Seq<char>, ver: Seq<char>) -> Seq<char> {
    "models/"@ + id + "/"@ + ver + "/model.bin"@
}

/// Train a model for the given dataset: run both policy gates over the parsed
/// config and, if they pass, derive the model identity, stamp a fresh version
/// and register it. On a denial the registry is untouched.
pub fn train(registry: &mut ModelRegistry, dataset: DatasetId, cfg_json: &str) -> (r: DeltaResult<
    ModelVersion,
>)
    ensures
        ({
            let sp = crate::model::train_spec_of(cfg_json@);
            &&& (r is Ok <==> dp_check(sp.dp) is None && fairness_check(sp.fairness) is None)
            &&& (r matches Err(e) ==> e.code == DeltaCode::PolicyDenied && final(registry)@ == old(
                registry,
            )@ && (if dp_check(sp.dp) is Some {
                Some(e.msg@) == dp_check(sp.dp)
            } else {
                Some(e.msg@) == fairness_check(sp.fairness)
            }))
            &&& (r matches Ok(m) ==> {
                &&& m@.id == model_id_text(dataset@, cfg_json@, sp.model_kind)
                &&& m@.kind == sp.model_kind
                &&& m@.metadata.dp == sp.dp
                &&& m@.metadata.fairness == sp.fairness
                &&& (exists|t: u128| m@.version == version_label(t as int))
                &&& m@.artefact_path == artefact_path_text(m@.id, m@.version)
                &&& final(registry)@ == old(registry)@.push(m@)
            })
        }),
{
    let cfg = match TrainConfig::parse(cfg_json.to_owned()) {
        Ok(c) => c,
        Err(e) => {
            return Err(e);
        },
    };
    match enforce_dp(&cfg) {
        Ok(()) => (),
        Err(e) => {
            return Err(e);
        },
    }
    match enforce_fairness(&cfg) {
        Ok(()) => (),
        Err(e) => {
            return Err(e);
        },
    }

    let model_id = make_model_id(&dataset, cfg_json, cfg.model_kind());
    let now = crate::time::now_ms();
    let mut verchars: Vec<char> = Vec::new();
    verchars.push('v');
    push_dec_u128(&mut verchars, now);
    proof {
        assert(verchars@ =~= version_label(now as int));
    }
    let version = VersionName::new(chars_to_string(&verchars));

    let mut pathchars: Vec<char> = Vec::new();
    push_str_chars(&mut pathchars, "models/");
    push_str_chars(&mut pathchars, model_id.as_str());
    push_str_chars(&mut pathchars, "/");
    push_str_chars(&mut pathchars, version.as_str());
    push_str_chars(&mut pathchars, "/model.bin");
    proof {
        assert(pathchars@ =~= artefact_path_text(model_id@, version@));
    }
    let artefact_path = chars_to_string(&pathchars);

    let model = ModelVersion {
        id: model_id,
        version,
        kind: cfg.model_kind(),
        artefact_path,
        metadata: ModelMetadata { dp: *cfg.dp(), fairness: cfg.fairness() },
    };
    let result = model.clone();
    registry.insert(model);
    Ok(result)
}

/// Load the requested model version, or the latest when no version (or an
/// empty one) is given.
pub fn load_model(registry: &ModelRegistry, id: &ModelId, version: Option<&VersionName>) -> (r:
    DeltaResult<ModelVersion>)
    ensures
        ({
            let target = match version {
                Some(v) => if v@.len() > 0 {
                    find_version(registry@, id@, v@)
                } else {
                    find_latest(registry@, id@)
                },
                None => find_latest(registry@, id@),
            };
            &&& (r is Ok <==> target is Some)
            &&& (r matches Ok(m) ==> Some(m@) == target)
            &&& (r matches Err(e) ==> e.code == DeltaCode::ModelMissing && e.msg@
                == "model_version"@)
        }),
{
    let model = match version {
        Some(ver) => if !ver.is_empty() {
            registry.get(id, ver)
        } else {
            registry.get_latest(id)
        },
        None => registry.get_latest(id),
    };
    match model {
        Some(m) => Ok(m),
        None => Err(DeltaError::model_missing("model_version")),
    }
}

/// The fairness section of a model card.
pub open spec fn fairness_card_text(fairness: Option<crate::model::FairnessReport>) -> Seq<char> {
    match fairness {
        Some(f) => "{\"delta_tpr\":"@ + fmt_fixed4(f.delta_tpr as int) + ",\"delta_fpr\":"@
            + fmt_fixed4(f.delta_fpr as int) + ",\"delta_ppv\":"@ + fmt_fixed4(f.delta_ppv as int)
            + "}"@,
        None => "{}"@,
    }
}

/// The full model-card text for a model version.
pub open spec fn model_card_text(m: ModelVersionV) -> Seq<char> {
    "{\"model_id\":\""@ + escape_seq(m.id) + "\",\"version\":\""@ + escape_seq(m.version)
        + "\",\"kind\":\""@ + escape_seq(model_kind_label_spec(m.kind)) + "\",\"artefact\":\""@
        + escape_seq(m.artefact_path) + "\",\"dp\":{\"enabled\":"@ + (if m.metadata.dp.enabled {
        "true"@
    } else {
        "false"@
    }) + ",\"epsilon\":"@ + fmt_fixed4(m.metadata.dp.epsilon as int) + ",\"delta\":"@ + fmt_fixed6(
        m.metadata.dp.delta as int,
    ) + ",\"clip\":"@ + fmt_fixed4(m.metadata.dp.clip as int) + ",\"noise_multiplier\":"@
        + fmt_fixed4(m.metadata.dp.noise_multiplier as int) + "},\"fairness\":"@
        + fairness_card_text(m.metadata.fairness) + "}"@
}

/// Export a compact model card for the latest version of the given id.
pub fn export_model_card(registry: &ModelRegistry, id: &ModelId) -> (r: DeltaResult<String>)
    ensures
        r is Ok <==> find_latest(registry@, id@) is Some,
        r matches Ok(card) ==> card@ == model_card_text(find_latest(registry@, id@)->Some_0),
        r matches Err(e) ==> e.code == DeltaCode::ModelMissing && e.msg@ == "model_version"@,
{
    let model = match registry.get_latest(id) {
        Some(m) => m,
        None => {
            return Err(DeltaError::model_missing("model_version"));
        },
    };
    let mut out: Vec<char> = Vec::new();
    push_str_chars(&mut out, "{\"model_id\":\"");
    push_escaped(&mut out, &chars_of(model.id.as_str()));
    push_str_chars(&mut out, "\",\"version\":\"");
    push_escaped(&mut out, &chars_of(model.version.as_str()));
    push_str_chars(&mut out, "\",\"kind\":\"");
    push_escaped(&mut out, &chars_of(model_kind_label(model.kind)));
    push_str_chars(&mut out, "\",\"artefact\":\"");
    push_escaped(&mut out, &chars_of(model.artefact_path.as_str()));
    push_str_chars(&mut out, "\",\"dp\":{\"enabled\":");
    if model.metadata.dp.enabled {
        push_str_chars(&mut out, "true");
    } else {
        push_str_chars(&mut out, "false");
    }
    push_str_chars(&mut out, ",\"epsilon\":");
    push_fixed4(&mut out, model.metadata.dp.epsilon);
    push_str_chars(&mut out, ",\"delta\":");
    push_fixed6(&mut out, model.metadata.dp.delta);
    push_str_chars(&mut out, ",\"clip\":");
    push_fixed4(&mut out, model.metadata.dp.clip);
    push_str_chars(&mut out, ",\"noise_multiplier\":");
    push_fixed4(&mut out, model.metadata.dp.noise_multiplier);
    push_str_chars(&mut out, "},\"fairness\":");
    match model.metadata.fairness {
        Some(f) => {
            push_str_chars(&mut out, "{\"delta_tpr\":");
            push_fixed4(&mut out, f.delta_tpr);
            push_str_chars(&mut out, ",\"delta_fpr\":");
            push_fixed4(&mut out, f.delta_fpr);
            push_str_chars(&mut out, ",\"delta_ppv\":");
            push_fixed4(&mut out, f.delta_ppv);
            push_str_chars(&mut out, "}");
        },
        None => {
            push_str_chars(&mut out, "{}");
        },
    }
    push_str_chars(&mut out, "}");
    proof {
        assert(out@ =~= model_card_text(find_latest(registry@, id@)->Some_0));
    }
    Ok(chars_to_string(&out))
}

} // verus!
