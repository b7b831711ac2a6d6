use delta_core::data::DatasetId;
use delta_core::error::DeltaError;
use delta_core::model::{ModelId, VersionName};
use delta_core::registry::ModelRegistry;
use delta_core::training::{export_model_card, load_model, make_model_id, train};

fn fresh() -> ModelRegistry {
    ModelRegistry::new()
}

#[test]
fn fairness_gate_blocks_large_gaps() {
    let mut reg = fresh();
    let cfg = "{\"fairness\":{\"delta_tpr\":0.2,\"delta_fpr\":0.01,\"delta_ppv\":0.01},\"dp\":{\"enabled\":false}}";
    let err = train(&mut reg, DatasetId::new("ds-test".to_string()), cfg).unwrap_err();
    assert_eq!(
        err.code.as_u32(),
        DeltaError::policy_denied("delta_tpr_exceeded").code.as_u32()
    );
}

#[test]
fn dp_gate_validates_parameters() {
    let mut reg = fresh();
    let cfg = "{\"fairness\":{\"delta_tpr\":0.01,\"delta_fpr\":0.01,\"delta_ppv\":0.01},\"dp\":{\"enabled\":true,\"epsilon\":4.0,\"delta\":0.00001,\"clip\":1.0,\"noise_multiplier\":1.0}}";
    let err = train(&mut reg, DatasetId::new("ds-test".to_string()), cfg).unwrap_err();
    assert_eq!(
        err.code.as_u32(),
        DeltaError::policy_denied("dp_epsilon_exceeded").code.as_u32()
    );
}

#[test]
fn dp_gate_reports_each_violation() {
    let base = |dp: &str| {
        format!(
            "{{\"fairness\":{{\"delta_tpr\":0.01,\"delta_fpr\":0.01,\"delta_ppv\":0.01}},\"dp\":{}}}",
            dp
        )
    };
    let cases = [
        ("{\"enabled\":true,\"epsilon\":3.1,\"delta\":0.00001,\"clip\":1.0,\"noise_multiplier\":1.0}", "dp_epsilon_exceeded"),
        ("{\"enabled\":true,\"epsilon\":1.0,\"delta\":0.00002,\"clip\":1.0,\"noise_multiplier\":1.0}", "dp_delta_exceeded"),
        ("{\"enabled\":true,\"epsilon\":1.0,\"delta\":0.00001,\"clip\":0.0,\"noise_multiplier\":1.0}", "dp_clip_invalid"),
        ("{\"enabled\":true,\"epsilon\":1.0,\"delta\":0.00001,\"clip\":1.0,\"noise_multiplier\":0.0}", "dp_noise_invalid"),
    ];
    for (dp, code) in cases {
        let mut reg = fresh();
        let cfg = base(dp);
        let err = train(&mut reg, DatasetId::new("ds-test".to_string()), &cfg).unwrap_err();
        assert_eq!(err.msg, code);
    }
}

#[test]
fn dp_gate_skipped_when_disabled() {
    let mut reg = fresh();
    let cfg = "{\"fairness\":{\"delta_tpr\":0.01,\"delta_fpr\":0.01,\"delta_ppv\":0.01},\"dp\":{\"enabled\":false,\"epsilon\":9.0}}";
    assert!(train(&mut reg, DatasetId::new("ds-test".to_string()), cfg).is_ok());
}

#[test]
fn fairness_report_is_mandatory() {
    let mut reg = fresh();
    let cfg = "{\"dp\":{\"enabled\":false}}";
    let err = train(&mut reg, DatasetId::new("ds-test".to_string()), cfg).unwrap_err();
    assert_eq!(err.msg, "fairness_report_missing");
}

#[test]
fn fairness_gate_checks_in_order() {
    let mut reg = fresh();
    let cfg = "{\"fairness\":{\"delta_tpr\":0.01,\"delta_fpr\":0.04,\"delta_ppv\":0.9},\"dp\":{\"enabled\":false}}";
    let err = train(&mut reg, DatasetId::new("ds-test".to_string()), cfg).unwrap_err();
    assert_eq!(err.msg, "delta_fpr_exceeded");

    let mut reg = fresh();
    let cfg = "{\"fairness\":{\"delta_tpr\":0.01,\"delta_fpr\":0.01,\"delta_ppv\":0.05},\"dp\":{\"enabled\":false}}";
    let err = train(&mut reg, DatasetId::new("ds-test".to_string()), cfg).unwrap_err();
    assert_eq!(err.msg, "delta_ppv_exceeded");
}

#[test]
fn train_derives_deterministic_model_id() {
    let cfg = "{\"fairness\":{\"delta_tpr\":0.01,\"delta_fpr\":0.01,\"delta_ppv\":0.01},\"dp\":{\"enabled\":false}}";
    let mut reg = fresh();
    let m1 = train(&mut reg, DatasetId::new("ds-test".to_string()), cfg).unwrap();
    let m2 = train(&mut reg, DatasetId::new("ds-test".to_string()), cfg).unwrap();
    assert_eq!(m1.id.as_str(), m2.id.as_str());
    assert_eq!(m1.id.as_str(), "tabular-logreg-57aa2bac");
    assert!(m1.version.as_str().starts_with('v'));
    assert_eq!(
        m1.artefact_path,
        format!("models/{}/{}/model.bin", m1.id.as_str(), m1.version.as_str())
    );
}

#[test]
fn model_kind_comes_from_config() {
    let cfg = "{\"model_kind\":\"text_minilm\",\"fairness\":{\"delta_tpr\":0.0,\"delta_fpr\":0.0,\"delta_ppv\":0.0}}";
    let mut reg = fresh();
    let m = train(&mut reg, DatasetId::new("ds".to_string()), cfg).unwrap();
    assert!(m.id.as_str().starts_with("text-minilm-"));

    let cfg = "{\"model_kind\":\"tabular_gbdt\",\"fairness\":{\"delta_tpr\":0.0,\"delta_fpr\":0.0,\"delta_ppv\":0.0}}";
    let mut reg = fresh();
    let m = train(&mut reg, DatasetId::new("ds".to_string()), cfg).unwrap();
    assert!(m.id.as_str().starts_with("tabular-gbdt-"));
}

#[test]
fn get_latest_returns_second_train() {
    // Two successive train calls for the same derived model id: the latest
    // pointer references the second call's version.
    let cfg = "{\"fairness\":{\"delta_tpr\":0.01,\"delta_fpr\":0.01,\"delta_ppv\":0.01},\"dp\":{\"enabled\":false}}";
    let mut reg = fresh();
    let _m1 = train(&mut reg, DatasetId::new("ds-test".to_string()), cfg).unwrap();
    let m2 = train(&mut reg, DatasetId::new("ds-test".to_string()), cfg).unwrap();
    let latest = load_model(&reg, &ModelId::new(m2.id.as_str().to_string()), None).unwrap();
    assert_eq!(latest.version.as_str(), m2.version.as_str());
    assert_eq!(latest.artefact_path, m2.artefact_path);
}

#[test]
fn load_model_honours_explicit_and_empty_versions() {
    let cfg = "{\"fairness\":{\"delta_tpr\":0.01,\"delta_fpr\":0.01,\"delta_ppv\":0.01},\"dp\":{\"enabled\":false}}";
    let mut reg = fresh();
    let m = train(&mut reg, DatasetId::new("ds-test".to_string()), cfg).unwrap();
    let ver = VersionName::new(m.version.as_str().to_string());
    let byver = load_model(&reg, &m.id, Some(&ver)).unwrap();
    assert_eq!(byver.version.as_str(), m.version.as_str());

    let empty = VersionName::new(String::new());
    let bylatest = load_model(&reg, &m.id, Some(&empty)).unwrap();
    assert_eq!(bylatest.version.as_str(), m.version.as_str());

    let missing = VersionName::new("v0".to_string());
    let err = load_model(&reg, &m.id, Some(&missing)).unwrap_err();
    assert_eq!(err.msg, "model_version");

    let unknown = ModelId::new("nope".to_string());
    assert!(load_model(&reg, &unknown, None).is_err());
}

#[test]
fn model_card_renders_governance_snapshot() {
    let cfg = "{\"fairness\":{\"delta_tpr\":0.01,\"delta_fpr\":0.01,\"delta_ppv\":0.01},\"dp\":{\"enabled\":true,\"epsilon\":2.5,\"delta\":0.00001,\"clip\":1.0,\"noise_multiplier\":1.1}}";
    let mut reg = fresh();
    let m = train(&mut reg, DatasetId::new("ds-test".to_string()), cfg).unwrap();
    let card = export_model_card(&reg, &m.id).unwrap();
    let expected = format!(
        "{{\"model_id\":\"{}\",\"version\":\"{}\",\"kind\":\"tabular-logreg\",\"artefact\":\"{}\",\"dp\":{{\"enabled\":true,\"epsilon\":2.5000,\"delta\":0.000010,\"clip\":1.0000,\"noise_multiplier\":1.1000}},\"fairness\":{{\"delta_tpr\":0.0100,\"delta_fpr\":0.0100,\"delta_ppv\":0.0100}}}}",
        m.id.as_str(),
        m.version.as_str(),
        m.artefact_path
    );
    assert_eq!(card, expected);
}

#[test]
fn model_card_needs_a_version() {
    let reg = fresh();
    let err = export_model_card(&reg, &ModelId::new("absent".to_string())).unwrap_err();
    assert_eq!(err.msg, "model_version");
}

#[test]
fn make_model_id_is_stable() {
    let a = make_model_id(
        &DatasetId::new("ds-1".to_string()),
        "{}",
        delta_core::model::ModelKind::TabularLogistic,
    );
    let b = make_model_id(
        &DatasetId::new("ds-1".to_string()),
        "{}",
        delta_core::model::ModelKind::TabularLogistic,
    );
    assert_eq!(a.as_str(), b.as_str());
}

#[test]
fn evaluation_stubs_behave() {
    let cfg = "{\"fairness\":{\"delta_tpr\":0.0,\"delta_fpr\":0.0,\"delta_ppv\":0.0}}";
    let mut reg = fresh();
    let m = train(&mut reg, DatasetId::new("ds".to_string()), cfg).unwrap();
    let suite = delta_core::evaluation::evaluate(&m).unwrap();
    assert_eq!(suite.metrics_card, "{}");
    assert_eq!(suite.model.id.as_str(), m.id.as_str());
    let err = delta_core::evaluation::drift(&m).unwrap_err();
    assert_eq!(err.code.as_u32(), 5);
}
