//! Error handling primitives shared across the core.

use vstd::prelude::*;

verus! {

/// Stable error codes that cross the library boundary.
#[derive(Copy, Clone, Debug, PartialEq, Eq, Structural)]
pub enum DeltaCode {
    /// Success code used as a sentinel.
    Okay,
    /// Consent check failed for the provided subject/purpose.
    NoConsent,
    /// Policy guardrail denied the operation.
    PolicyDenied,
    /// Requested model artefact was not available.
    ModelMissing,
    /// Input failed validation.
    InvalidInput,
    /// Catch-all for bugs and unimplemented paths.
    Internal,
}

impl DeltaCode {
    /// The numeric value of a code; these numbers are stable.
    pub open spec fn spec_u32(self) -> u32 {
        match self {
            DeltaCode::Okay => 0,
            DeltaCode::NoConsent => 1,
            DeltaCode::PolicyDenied => 2,
            DeltaCode::ModelMissing => 3,
            DeltaCode::InvalidInput => 4,
            DeltaCode::Internal => 5,
        }
    }

    /// Machine parsable numeric value of the code.
    pub fn as_u32(self) -> (r: u32)
        ensures
            r == self.spec_u32(),
    {
        match self {
            DeltaCode::Okay => 0,
            DeltaCode::NoConsent => 1,
            DeltaCode::PolicyDenied => 2,
            DeltaCode::ModelMissing => 3,
            DeltaCode::InvalidInput => 4,
            DeltaCode::Internal => 5,
        }
    }
}

/// Canonical error type for the core.
#[derive(Copy, Clone, Debug)]
pub struct DeltaError {
    /// Machine parsable error code.
    pub code: DeltaCode,
    /// Developer facing message.
    pub msg: &'static str,
}

/// Result alias used throughout the crate.
pub type DeltaResult<T> = Result<T, DeltaError>;

impl DeltaError {
    /// Create a new error with the provided code and message.
    pub fn new(code: DeltaCode, msg: &'static str) -> (r: Self)
        ensures
            r.code == code,
            r.msg@ == msg@,
    {
        DeltaError { code, msg }
    }

    /// Validation helper.
    pub fn invalid(msg: &'static str) -> (r: Self)
        ensures
            r.code == DeltaCode::InvalidInput,
            r.msg@ == msg@,
    {
        Self::new(DeltaCode::InvalidInput, msg)
    }

    /// Policy helper.
    pub fn policy_denied(msg: &'static str) -> (r: Self)
        ensures
            r.code == DeltaCode::PolicyDenied,
            r.msg@ == msg@,
    {
        Self::new(DeltaCode::PolicyDenied, msg)
    }

    /// Consent helper.
    pub fn no_consent() -> (r: Self)
        ensures
            r.code == DeltaCode::NoConsent,
            r.msg@ == "no_consent"@,
    {
        Self::new(DeltaCode::NoConsent, "no_consent")
    }

    /// Model missing helper.
    pub fn model_missing(msg: &'static str) -> (r: Self)
        ensures
            r.code == DeltaCode::ModelMissing,
            r.msg@ == msg@,
    {
        Self::new(DeltaCode::ModelMissing, msg)
    }

    /// Internal error helper.
    pub fn internal(msg: &'static str) -> (r: Self)
        ensures
            r.code == DeltaCode::Internal,
            r.msg@ == msg@,
    {
        Self::new(DeltaCode::Internal, msg)
    }

    /// IO error helper (mapped to internal until a dedicated code exists).
    pub fn io() -> (r: Self)
        ensures
            r.code == DeltaCode::Internal,
            r.msg@ == "io"@,
    {
        Self::internal("io")
    }

    /// Helper for operations that are specified but not provided here.
    pub fn not_implemented(feature: &'static str) -> (r: Self)
        ensures
            r.code == DeltaCode::Internal,
            r.msg@ == feature@,
    {
        Self::new(DeltaCode::Internal, feature)
    }
}

} // verus!
