use delta_core::data::{datasheet_body, ingest_lines, DatasetId};
use delta_core::engine::deterministic_score;
use delta_core::hash::SimpleHash;
use delta_core::inference::{infer_with_ctx, infer_with_model, register_active_model, ActiveModel};
use delta_core::model::{ModelId, ModelKind, ModelMetadata, ModelVersion, VersionName};
use delta_core::route::{
    ensure_compatible, route_target_for_model, validate_route, RouteDecision, RouteReason,
    RouteTarget, RouterContext, SSMRouter,
};

fn test_model() -> ModelVersion {
    ModelVersion {
        id: ModelId::new("tabular-logreg-test".to_string()),
        version: VersionName::new("v1".to_string()),
        kind: ModelKind::TabularLogistic,
        artefact_path: "models/test.bin".to_string(),
        metadata: ModelMetadata::default(),
    }
}

fn text_model() -> ModelVersion {
    ModelVersion {
        id: ModelId::new("text-minilm-test".to_string()),
        version: VersionName::new("v1".to_string()),
        kind: ModelKind::TextMiniLm,
        artefact_path: "models/test.bin".to_string(),
        metadata: ModelMetadata::default(),
    }
}

#[test]
fn router_falls_back_when_text_missing() {
    let mut slot = ActiveModel::new();
    register_active_model(&mut slot, test_model());
    let payload = "{\"text\":123}";
    let prediction = infer_with_ctx(&slot, "purpose", "subject", payload).unwrap();
    assert!(prediction.json.contains("\"route\":\"tabular\""));
}

#[test]
fn whylog_hash_is_stable() {
    let mut slot = ActiveModel::new();
    register_active_model(&mut slot, test_model());
    let payload = "{\"amount\":100,\"features_only\":true}";
    let result = infer_with_ctx(&slot, "purpose", "subject", payload).unwrap();
    assert_eq!(result.whylog.hash.len(), 64);
}

#[test]
fn router_feature_override_wins() {
    let router = SSMRouter::new();
    let d = router.decide(&RouterContext { features_only: true, text_length: 5000 });
    assert_eq!(d.target, RouteTarget::Tabular);
    assert_eq!(d.reason, RouteReason::FeatureOverride);
}

#[test]
fn router_long_text_goes_to_text() {
    let router = SSMRouter::new();
    let d = router.decide(&RouterContext { features_only: false, text_length: 257 });
    assert_eq!(d.target, RouteTarget::Text);
    assert_eq!(d.reason, RouteReason::LongText);

    let d = router.decide(&RouterContext { features_only: false, text_length: 256 });
    assert_eq!(d.target, RouteTarget::Tabular);
    assert_eq!(d.reason, RouteReason::DefaultTabular);
}

#[test]
fn reconciliation_forces_tabular_and_keeps_reason() {
    let model = test_model();
    let decision = RouteDecision { target: RouteTarget::Text, reason: RouteReason::LongText };
    assert_eq!(validate_route(&model, decision), RouteTarget::Tabular);
    let reconciled = ensure_compatible(&model, decision);
    assert_eq!(reconciled.target, RouteTarget::Tabular);
    assert_eq!(reconciled.reason, RouteReason::LongText);

    assert_eq!(route_target_for_model(ModelKind::TabularGradientBoosting), RouteTarget::Tabular);
    assert_eq!(route_target_for_model(ModelKind::TextMiniLm), RouteTarget::Text);
}

#[test]
fn engine_score_is_reproducible() {
    let model = test_model();
    let input = "{\"amount\":100}";
    let a = deterministic_score(&model, input);
    let b = deterministic_score(&model, input);
    assert_eq!(a, b);
    assert!(a < 10000);
}

#[test]
fn prediction_is_deterministic_for_fixed_input() {
    let mut slot = ActiveModel::new();
    register_active_model(&mut slot, test_model());
    let payload = "{\"amount\":100,\"limit\":5}";
    let one = infer_with_ctx(&slot, "p", "s", payload).unwrap();
    let two = infer_with_ctx(&slot, "p", "s", payload).unwrap();
    assert_eq!(one.json, two.json);
    assert_eq!(one.confidence, two.confidence);
    assert_eq!(one.whylog.hash, two.whylog.hash);
}

#[test]
fn whylog_rehash_reproduces_only_without_audit_field() {
    let mut slot = ActiveModel::new();
    register_active_model(&mut slot, test_model());
    let payload = "{\"amount\":100}";
    let p = infer_with_ctx(&slot, "p", "s", payload).unwrap();

    let marker = ",\"whylog_hash\":\"";
    let idx = p.json.find(marker).unwrap();
    let body_without = format!("{}}}", &p.json[..idx]);
    let mut h = SimpleHash::new();
    h.update(body_without.as_bytes());
    assert_eq!(h.finish_hex64(), p.whylog.hash);

    let mut h2 = SimpleHash::new();
    h2.update(p.json.as_bytes());
    assert_ne!(h2.finish_hex64(), p.whylog.hash);
}

#[test]
fn inference_without_active_model_is_refused() {
    let slot = ActiveModel::new();
    let err = infer_with_ctx(&slot, "p", "s", "{}").unwrap_err();
    assert_eq!(err.msg, "active_model");
    assert_eq!(err.code.as_u32(), 3);
}

#[test]
fn tabular_record_carries_features_and_metadata() {
    let mut slot = ActiveModel::new();
    register_active_model(&mut slot, test_model());
    let payload = "{\"amount\":100,\"limit\":5}";
    let p = infer_with_ctx(&slot, "p", "s", payload).unwrap();
    assert!(p.json.contains("\"mode\":\"tabular\""));
    assert!(p.json.contains("\"features\":[\"amount\",\"limit\"]"));
    assert!(p.json.contains("\"model_id\":\"tabular-logreg-test\""));
    assert!(p.json.contains("\"version\":\"v1\""));
    assert!(p.json.contains("\"route\":\"tabular\""));
    assert!(p.json.contains("\"route_reason\":\"default\""));
    assert!(p.json.ends_with("\"}"));
    assert_eq!(p.whylog.rationale, "tabular-local-surrogate");
}

#[test]
fn long_text_runs_the_text_engine() {
    let mut slot = ActiveModel::new();
    register_active_model(&mut slot, text_model());
    let long_text = "word ".repeat(60);
    let payload = format!("{{\"text\":\"{}\"}}", long_text.trim_end());
    let p = infer_with_ctx(&slot, "p", "s", &payload).unwrap();
    assert!(p.json.contains("\"route\":\"text\""));
    assert!(p.json.contains("\"route_reason\":\"long_text\""));
    assert!(p.json.contains("\"mode\":\"text\""));
    assert!(p.json.contains("\"tokens\":[\"word\",\"word\",\"word\",\"word\",\"word\"]"));
    assert_eq!(p.whylog.salient.len(), 5);
    assert_eq!(p.whylog.rationale, "minilm-q4-saliency");
}

#[test]
fn features_only_flag_overrides_long_text() {
    let mut slot = ActiveModel::new();
    register_active_model(&mut slot, test_model());
    let long_text = "x".repeat(300);
    let payload = format!("{{\"features_only\":true,\"text\":\"{}\"}}", long_text);
    let p = infer_with_ctx(&slot, "p", "s", &payload).unwrap();
    assert!(p.json.contains("\"route\":\"tabular\""));
    assert!(p.json.contains("\"route_reason\":\"features_only\""));
}

#[test]
fn nested_context_flag_overrides_too() {
    let mut slot = ActiveModel::new();
    register_active_model(&mut slot, test_model());
    let payload = "{\"context\":{\"features_only\":true},\"amount\":1}";
    let p = infer_with_ctx(&slot, "p", "s", payload).unwrap();
    assert!(p.json.contains("\"route_reason\":\"features_only\""));
}

#[test]
fn infer_with_model_checks_identity() {
    let mut slot = ActiveModel::new();
    register_active_model(&mut slot, test_model());

    let ok = infer_with_model(
        &slot,
        &ModelId::new("tabular-logreg-test".to_string()),
        None,
        "p",
        "s",
        "{\"a\":1}",
    );
    assert!(ok.is_ok());

    let err = infer_with_model(
        &slot,
        &ModelId::new("other".to_string()),
        None,
        "p",
        "s",
        "{\"a\":1}",
    )
    .unwrap_err();
    assert_eq!(err.msg, "active_model_mismatch");

    let wrong = VersionName::new("v9".to_string());
    let err = infer_with_model(
        &slot,
        &ModelId::new("tabular-logreg-test".to_string()),
        Some(&wrong),
        "p",
        "s",
        "{\"a\":1}",
    )
    .unwrap_err();
    assert_eq!(err.msg, "active_version_mismatch");

    let empty = VersionName::new(String::new());
    let ok = infer_with_model(
        &slot,
        &ModelId::new("tabular-logreg-test".to_string()),
        Some(&empty),
        "p",
        "s",
        "{\"a\":1}",
    );
    assert!(ok.is_ok());
}

#[test]
fn ingest_lines_counts_rows_and_hashes_content() {
    let lines: Vec<String> = vec!["x\n".to_string(), "y\n".to_string()];
    let d = ingest_lines(&lines, "{}", 7);
    assert_eq!(d.rows, 2);
    assert_eq!(d.created_ms, 7);
    assert_eq!(d.schema.definition_json, "{}");
    assert_eq!(d.id.as_str(), "ds-a297eb80");
}

#[test]
fn datasheet_renders_exactly() {
    let id = DatasetId::new("ds-1".to_string());
    assert_eq!(
        datasheet_body(&id, 42),
        "{\"dataset_id\":\"ds-1\",\"schema\":\"inline\",\"retention_days\":30,\"created_ms\":42}"
    );
    let sheet = delta_core::export_datasheet(&id).unwrap();
    assert!(sheet.starts_with("{\"dataset_id\":\"ds-1\""));
}

#[test]
fn prediction_json_matches_reference_end_to_end() {
    let mut slot = ActiveModel::new();
    register_active_model(&mut slot, test_model());
    let p = infer_with_ctx(&slot, "p", "s", "{\"amount\":100}").unwrap();
    assert_eq!(
        p.json,
        "{\"ok\":true,\"mode\":\"tabular\",\"score\":0.8019,\"features\":[\"amount\"],\"model_id\":\"tabular-logreg-test\",\"version\":\"v1\",\"route\":\"tabular\",\"route_reason\":\"default\",\"confidence\":0.9010,\"whylog_hash\":\"622d83bc660c3b2e54694b53baa3bb62e501cfbca3eb8542382e9c8f0d79834d\"}"
    );
    assert_eq!(p.confidence, 900_950_000);
    assert_eq!(
        p.whylog.hash,
        "622d83bc660c3b2e54694b53baa3bb62e501cfbca3eb8542382e9c8f0d79834d"
    );
    assert_eq!(p.whylog.salient, vec!["amount".to_string()]);
}

#[test]
fn merge_payload_braces_and_strips() {
    let model = test_model();
    let d = RouteDecision { target: RouteTarget::Tabular, reason: RouteReason::DefaultTabular };
    let meta = "\"model_id\":\"tabular-logreg-test\",\"version\":\"v1\",\"route\":\"tabular\",\"route_reason\":\"default\",\"confidence\":0.0000}";

    let merged = delta_core::inference::merge_payload("  plain  ", &model, d, 0);
    assert_eq!(merged, format!("{{plain,{}", meta));

    let merged = delta_core::inference::merge_payload("{\"ok\":true}}}", &model, d, 0);
    assert_eq!(merged, format!("{{\"ok\":true,{}", meta));

    let merged = delta_core::inference::merge_payload("", &model, d, 0);
    assert_eq!(merged, format!("{{{}", meta));
}

#[test]
fn append_whylog_hash_splices_or_leaves_alone() {
    let mut body = "{\"a\":1}".to_string();
    delta_core::inference::append_whylog_hash(&mut body, "h1");
    assert_eq!(body, "{\"a\":1,\"whylog_hash\":\"h1\"}");

    let mut flat = "no brace here".to_string();
    delta_core::inference::append_whylog_hash(&mut flat, "h1");
    assert_eq!(flat, "no brace here");
}

#[test]
fn text_engine_requires_nonempty_text() {
    let engine = delta_core::engine::TextEngine;
    let model = text_model();

    let err = engine.run(&model, "{\"amount\":1}").unwrap_err();
    assert_eq!(err.msg, "text_required");

    let err = engine.run(&model, "{\"text\":\"\"}").unwrap_err();
    assert_eq!(err.msg, "text_required");

    let err = engine.run(&model, "{\"text\":123}").unwrap_err();
    assert_eq!(err.msg, "text_required");

    let resp = engine.run(&model, "{\"text\":\"hi there\"}").unwrap();
    assert_eq!(resp.saliency, vec!["hi".to_string(), "there".to_string()]);
}

#[test]
fn reserved_field_values_stay_out_of_saliency() {
    // A short text routes tabular; the text value must not leak into the
    // features listed in the audit record.
    let mut slot = ActiveModel::new();
    register_active_model(&mut slot, test_model());
    let p = infer_with_ctx(&slot, "p", "s", "{\"text\":\"hi\",\"amount\":1}").unwrap();
    assert!(p.json.contains("\"features\":[\"amount\"]"));
    assert!(!p.json.contains("hi"));
    assert_eq!(p.whylog.salient, vec!["amount".to_string()]);
}
