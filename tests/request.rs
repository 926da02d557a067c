use cangjie_card::request::{query_value, requested_repo};
use cangjie_card::storage::{store_client, store_key, StoreError};

#[test]
fn repo_parameter_is_read() {
    assert_eq!(
        requested_repo("https://example.com/api/refresh?repo=https://gitcode.com/a/b"),
        Some("https://gitcode.com/a/b".to_string())
    );
}

#[test]
fn repo_parameter_is_decoded() {
    assert_eq!(
        requested_repo("https://example.com/api/refresh?x=1&repo=https%3A%2F%2Fgithub.com%2Fa%2Fb"),
        Some("https://github.com/a/b".to_string())
    );
}

#[test]
fn missing_repo_parameter() {
    assert_eq!(requested_repo("https://example.com/api/refresh"), None);
    assert_eq!(requested_repo("https://example.com/api/refresh?other=1"), None);
    assert_eq!(requested_repo("not a url"), None);
}

#[test]
fn later_repo_parameter_wins() {
    assert_eq!(requested_repo("https://example.com/?repo=a&repo=b"), Some("b".to_string()));
}

#[test]
fn query_value_takes_last_match() {
    let pairs = vec![
        ("repo".to_string(), "a".to_string()),
        ("k".to_string(), "v".to_string()),
        ("repo".to_string(), "c".to_string()),
    ];
    assert_eq!(query_value(&pairs, "repo"), Some("c".to_string()));
    assert_eq!(query_value(&pairs, "k"), Some("v".to_string()));
    assert_eq!(query_value(&pairs, "none"), None);
}

#[test]
fn store_key_uses_identifier_verbatim() {
    assert_eq!(store_key("https://github.com/a/b"), "cjlint_https://github.com/a/b");
    assert_eq!(store_key("https://github.com/a/b/"), "cjlint_https://github.com/a/b/");
}

#[test]
fn store_messages() {
    assert_eq!(StoreError::Unconfigured.message(), "KV_URL not set");
    assert_eq!(StoreError::Client("bad".to_string()).message(), "Failed to create Redis client: bad");
    assert_eq!(StoreError::Backend("down".to_string()).message(), "down");
}

#[test]
fn store_client_needs_a_valid_connection_string() {
    assert!(matches!(store_client(None), Err(StoreError::Unconfigured)));
    assert!(matches!(store_client(Some("not a url")), Err(StoreError::Client(_))));
    assert!(store_client(Some("redis://127.0.0.1:6379/0")).is_ok());
}
