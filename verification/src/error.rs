//! Error taxonomy shared across every per-provider LLM binding plugin.
//!
//! - [`ConfigError`] surfaces when a binding profile is registered.
//! - [`ProviderError`] surfaces during a live call when the upstream HTTP API
//!   misbehaves; the engine retries the kinds that [`ProviderError::is_retryable`]
//!   marks and records every failure under its [`ProviderError::category`].
use vstd::prelude::*;

verus! {

/// Errors raised while a binding profile is being registered.
#[derive(Debug)]
pub enum ConfigError {
    InvalidSpec(String),
    Template(String),
    Schema(String),
}

/// Failures of a live upstream call.
#[derive(Debug)]
pub enum ProviderError {
    /// HTTP 429 or provider-specific rate-limit indication.
    RateLimited { message: String },
    /// Token-window or input-size limit hit (HTTP 400 with specific body
    /// shape, or HTTP 413).
    ContextLimit { message: String },
    /// HTTP 401 / 403 — bad API key, missing scope.
    AuthFailed { message: String },
    /// HTTP 4xx other than the above. Operator misconfiguration.
    BadRequest { message: String },
    /// HTTP 5xx or transport-level upstream failure.
    Server { message: String },
    /// Network failure: DNS, connection, TLS handshake, body read.
    Network { message: String },
    /// Provider returned a response that didn't parse as the expected
    /// shape. Suggests a provider/version skew or adapter bug.
    Malformed { message: String },
}

impl ProviderError {
    /// The kinds of failure worth retrying: rate limits, server errors and
    /// network errors.
    pub open spec fn retryable(self) -> bool {
        ||| self is RateLimited
        ||| self is Server
        ||| self is Network
    }

    /// The metrics label of each kind of failure.
    pub open spec fn category_label(self) -> Seq<char> {
        match self {
            ProviderError::RateLimited { .. } => "rate_limited"@,
            ProviderError::ContextLimit { .. } => "context_limit"@,
            ProviderError::AuthFailed { .. } => "auth_failed"@,
            ProviderError::BadRequest { .. } => "bad_request"@,
            ProviderError::Server { .. } => "server"@,
            ProviderError::Network { .. } => "network"@,
            ProviderError::Malformed { .. } => "malformed"@,
        }
    }

    /// Both failures are of the same kind (the same variant), whatever their
    /// messages.
    pub open spec fn same_kind(self, other: ProviderError) -> bool {
        ||| self is RateLimited && other is RateLimited
        ||| self is ContextLimit && other is ContextLimit
        ||| self is AuthFailed && other is AuthFailed
        ||| self is BadRequest && other is BadRequest
        ||| self is Server && other is Server
        ||| self is Network && other is Network
        ||| self is Malformed && other is Malformed
    }

    /// Whether this kind of failure is worth retrying. The retry policy
    /// further filters by operator-allowed reasons.
    pub fn is_retryable(&self) -> (r: bool)
        ensures
            r == self.retryable(),
    {
        match self {
            ProviderError::RateLimited { .. } => true,
            ProviderError::Server { .. } => true,
            ProviderError::Network { .. } => true,
            _ => false,
        }
    }

    /// The bounded label under which this failure is counted in metrics.
    pub fn category(&self) -> (r: &'static str)
        ensures
            r@ == self.category_label(),
    {
        match self {
            ProviderError::RateLimited { .. } => "rate_limited",
            ProviderError::ContextLimit { .. } => "context_limit",
            ProviderError::AuthFailed { .. } => "auth_failed",
            ProviderError::BadRequest { .. } => "bad_request",
            ProviderError::Server { .. } => "server",
            ProviderError::Network { .. } => "network",
            ProviderError::Malformed { .. } => "malformed",
        }
    }
}

/// The seven metrics labels are pairwise distinct: their lengths differ,
/// except `auth_failed` and `bad_request`, which differ in their first letter.
proof fn lemma_category_labels_distinct()
    ensures
        "rate_limited"@.len() == 12,
        "context_limit"@.len() == 13,
        "auth_failed"@.len() == 11,
        "bad_request"@.len() == 11,
        "server"@.len() == 6,
        "network"@.len() == 7,
        "malformed"@.len() == 9,
        "auth_failed"@ != "bad_request"@,
{
    reveal_strlit("rate_limited");
    reveal_strlit("context_limit");
    reveal_strlit("auth_failed");
    reveal_strlit("bad_request");
    reveal_strlit("server");
    reveal_strlit("network");
    reveal_strlit("malformed");
    assert("auth_failed"@[0] != "bad_request"@[0]);
}

/// Exactly the failures counted under `rate_limited`, `server` or `network`
/// are the ones worth retrying.
pub proof fn lemma_retryable_iff_retry_category(e: ProviderError)
    ensures
        e.retryable() <==> (e.category_label() == "rate_limited"@ || e.category_label() == "server"@
            || e.category_label() == "network"@),
{
    lemma_category_labels_distinct();
}

/// The metrics label is bounded: every failure is counted under one of seven
/// labels, and two failures share a label exactly when they are of the same
/// kind, whatever their messages.
pub proof fn lemma_category_identifies_kind(e1: ProviderError, e2: ProviderError)
    ensures
        set!["rate_limited"@, "context_limit"@, "auth_failed"@, "bad_request"@, "server"@,
            "network"@, "malformed"@].contains(e1.category_label()),
        e1.category_label() == e2.category_label() <==> e1.same_kind(e2),
{
    lemma_category_labels_distinct();
}

} // verus!
