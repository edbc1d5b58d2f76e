use mcpg_backend_llm_types::error::{ConfigError, ProviderError};

fn all_kinds(message: &str) -> Vec<ProviderError> {
    let m = || message.to_string();
    vec![
        ProviderError::RateLimited { message: m() },
        ProviderError::ContextLimit { message: m() },
        ProviderError::AuthFailed { message: m() },
        ProviderError::BadRequest { message: m() },
        ProviderError::Server { message: m() },
        ProviderError::Network { message: m() },
        ProviderError::Malformed { message: m() },
    ]
}

#[test]
fn categories_of_each_kind() {
    let labels: Vec<&str> = all_kinds("x").iter().map(|e| e.category()).collect();
    assert_eq!(
        labels,
        vec![
            "rate_limited",
            "context_limit",
            "auth_failed",
            "bad_request",
            "server",
            "network",
            "malformed"
        ]
    );
}

#[test]
fn retryable_kinds() {
    let retry: Vec<bool> = all_kinds("x").iter().map(|e| e.is_retryable()).collect();
    assert_eq!(retry, vec![true, false, false, false, true, true, false]);
}

#[test]
fn retryable_exactly_for_retry_categories() {
    for e in all_kinds("upstream said no") {
        let c = e.category();
        assert_eq!(e.is_retryable(), c == "rate_limited" || c == "server" || c == "network");
    }
}

#[test]
fn category_identifies_kind_whatever_the_message() {
    let a = all_kinds("first message");
    let b = all_kinds("a different message");
    for (i, x) in a.iter().enumerate() {
        for (j, y) in b.iter().enumerate() {
            assert_eq!(x.category() == y.category(), i == j);
        }
    }
}

#[test]
fn config_errors_carry_their_text() {
    let e = ConfigError::Template("bad brace".into());
    match e {
        ConfigError::Template(s) => assert_eq!(s, "bad brace"),
        _ => panic!("wrong variant"),
    }
    assert!(matches!(ConfigError::InvalidSpec("x".into()), ConfigError::InvalidSpec(_)));
    assert!(matches!(ConfigError::Schema("y".into()), ConfigError::Schema(_)));
}
