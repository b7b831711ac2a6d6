use delta_core::error::{DeltaCode, DeltaError};

#[test]
fn codes_are_stable() {
    assert_eq!(DeltaCode::Okay.as_u32(), 0);
    assert_eq!(DeltaCode::NoConsent.as_u32(), 1);
    assert_eq!(DeltaCode::PolicyDenied.as_u32(), 2);
    assert_eq!(DeltaCode::ModelMissing.as_u32(), 3);
    assert_eq!(DeltaCode::InvalidInput.as_u32(), 4);
    assert_eq!(DeltaCode::Internal.as_u32(), 5);
}

#[test]
fn error_helpers_carry_codes_and_messages() {
    let e = DeltaError::invalid("bad_field");
    assert_eq!(e.code, DeltaCode::InvalidInput);
    assert_eq!(e.msg, "bad_field");

    let e = DeltaError::policy_denied("dp_epsilon_exceeded");
    assert_eq!(e.code, DeltaCode::PolicyDenied);
    assert_eq!(e.msg, "dp_epsilon_exceeded");

    let e = DeltaError::no_consent();
    assert_eq!(e.code, DeltaCode::NoConsent);
    assert_eq!(e.msg, "no_consent");

    let e = DeltaError::model_missing("model_version");
    assert_eq!(e.code, DeltaCode::ModelMissing);

    let e = DeltaError::internal("boom");
    assert_eq!(e.code, DeltaCode::Internal);

    let e = DeltaError::io();
    assert_eq!(e.code, DeltaCode::Internal);
    assert_eq!(e.msg, "io");

    let e = DeltaError::not_implemented("later");
    assert_eq!(e.code, DeltaCode::Internal);
    assert_eq!(e.msg, "later");
}

#[test]
fn buffer_reuse_round_trip() {
    let mut buf = delta_core::buf::ReusableBuffer::with_capacity(16);
    buf.extend_from_slice(b"abc");
    buf.extend_from_slice(b"def");
    assert_eq!(buf.as_slice(), b"abcdef");
    buf.as_mut().push(b'!');
    assert_eq!(buf.as_slice(), b"abcdef!");
    buf.clear();
    assert_eq!(buf.as_slice(), b"");
}

#[test]
fn app_cfg_holds_values() {
    let cfg = delta_core::config::AppCfg::new("./data".to_string(), "eu".to_string(), 1);
    assert_eq!(cfg.data_root, "./data");
    assert_eq!(cfg.region, "eu");
    assert_eq!(cfg.log_level, 1);
}
