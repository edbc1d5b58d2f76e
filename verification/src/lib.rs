//! Provider-agnostic chat request/response shapes and the error taxonomy
//! shared by the LLM backend plugins.
//!
//! - [`normalized`]: the canonical message, content, tool and usage shapes.
//! - [`error`]: `ConfigError` (raised while a binding profile is registered)
//!   and `ProviderError` (raised during a live upstream call).
pub mod error;
pub mod normalized;
