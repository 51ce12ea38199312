//! Sizing calculator for LLM inference deployments: model shape detection,
//! weight and KV-cache byte formulas, quantization reconciliation, TP/PP fleet
//! planning and launch-command generation.

pub mod capped;
pub mod text;
pub mod float_text;
pub mod json;
pub mod labels;
pub mod profile;
pub mod quant;
pub mod weight;
pub mod kv_cache;
pub mod activation;
pub mod layout;
pub mod hardware;
pub mod planner;
pub mod fingerprint;
pub mod i18n;
pub mod auth;
pub mod sources;
pub mod cache;
pub mod benchmark;
pub mod engine_compat;
pub mod explain;
pub mod reviewer;
pub mod safetensors;
pub mod formatter;
pub mod command;
pub mod detector;
pub mod reconciler;
pub mod evaluation;
pub mod concurrency;
pub mod report;
pub mod hub;
pub mod cli;
pub mod api;
pub mod properties;
