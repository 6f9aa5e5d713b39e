//! Resilient multi-provider AI orchestration core.
//!
//! A unified abstraction over heterogeneous text-generation and
//! text-to-speech HTTP services, combined with a generic retry/backoff
//! engine, wire-level streaming-response parsing, a multi-stage
//! content-generation pipeline with ordered progress reporting, and a
//! size/age-based output cache eviction policy.

pub mod cache;
pub mod cast;
pub mod chat;
pub mod config;
pub mod error;
pub mod insight;
pub mod records;
pub mod retry;
pub mod settings;
pub mod sse;
pub mod text;
pub mod tts;
pub mod vision;

pub use error::VeyaError;
