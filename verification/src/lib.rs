//! Weight-ingestion layer for a transformer language-model runtime.
//!
//! Converts a serialized named-tensor archive into an in-memory,
//! strongly-typed parameter store: per-layer attention and feed-forward
//! weights, normalization vectors, the embedding table and the output
//! head, plus a parallel set of neutral quantization scale factors.
//! Floating-point weights are carried as their 32-bit little-endian bit
//! patterns; a consumer reinterprets them as needed.

pub mod config;
pub mod decode;
pub mod names;
pub mod tensor;
pub mod archive;
pub mod params;
