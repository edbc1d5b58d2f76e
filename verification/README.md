# mcpg-backend-llm-types

Provider-agnostic chat request/response shapes and the error taxonomy shared
by the LLM backend plugins, as a verified library.

- `src/normalized.rs`: messages, multimodal content parts, tool definitions
  and calls, finish reasons and token usage; `MessageContent::as_text`,
  `is_text_only` and `is_empty`, `AudioFormat::mime_type`, and the `Message`
  constructors, each with a contract, plus the laws that relate them.
- `src/error.rs`: `ConfigError` and `ProviderError`, with
  `ProviderError::is_retryable` and `ProviderError::category` and the laws
  that relate them.
- `app/lib.rs`: the request shape (it holds `f32` sampling parameters) and
  the copies of the error and audio-format types that carry the `thiserror`
  and serde derives, with conversions to and from the library's types.
