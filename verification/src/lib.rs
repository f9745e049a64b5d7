//! Per-request routing decisions for a proxy filter.
//!
//! For each inbound request the filter inspects a few headers and names the
//! backend deployment that should serve it, or rejects the request with a
//! diagnostic. Traffic that no rule classifies is split across deployments
//! by a seeded, reproducible generator.

pub mod directive;
pub mod filter;
pub mod headers;
pub mod lora;
pub mod selector;
pub mod service;
pub mod text;
pub mod validate;
