//! Inference-serving and training-governance core.
//!
//! The crate decides which model family answers a request (a deterministic
//! router), enforces training-time policy guardrails (differential-privacy and
//! fairness bounds), keeps a versioned model registry with a latest-version
//! index, dispatches to deterministic scoring engines with an automatic
//! text-to-tabular fallback, and attaches an auditable WhyLog record (a
//! canonical hash, saliency and rationale) to every prediction.

pub mod buf;
pub mod config;
pub mod data;
pub mod engine;
pub mod error;
pub mod evaluation;
pub mod fixed;
pub mod hash;
pub mod inference;
pub mod json;
pub mod model;
pub mod policy;
pub mod registry;
pub mod route;
pub mod training;
pub mod text;
pub mod time;

pub use data::export_datasheet;
pub use inference::{infer_with_ctx as core_infer_with_ctx, register_active_model};
pub use training::{export_model_card, load_model as core_load_model, train as core_train};
