use std::time::Duration;

use fetchkit::{Client, ClientBuilder, FetchError};

fn with_base(base: &str) -> Client {
    Client::from_parts(new_client().inner().clone(), Some(base.into()))
}


fn new_client() -> Client {
    Client::builder().try_build().expect("client builds")
}

#[test]
fn client_builder_default_timeout() {
    let builder = ClientBuilder::new();
    assert_eq!(builder.retries, 3);
}

#[test]
fn client_builder_default_retries() {
    let builder = ClientBuilder::new();
    assert_eq!(builder.retries, 3);
}

#[test]
fn client_builder_default_no_base_url() {
    let builder = ClientBuilder::new();
    assert!(builder.base_url.is_none());
}

#[test]
fn client_builder_custom_timeout() {
    let builder = ClientBuilder::new().timeout(Duration::from_secs(10));
    let client = builder.try_build().expect("client builds");
    let _ = client.inner();
}

#[test]
fn client_builder_custom_retries() {
    let builder = ClientBuilder::new().retries(5);
    assert_eq!(builder.retries, 5);
}

#[test]
fn client_builder_custom_base_url() {
    let builder = ClientBuilder::new().base_url("https://api.example.com");
    let client = builder.try_build().expect("client builds");
    assert!(client.base_url.is_some());
    assert_eq!(client.base_url.as_deref(), Some("https://api.example.com"));
}

#[test]
fn client_builder_chaining() {
    let client = ClientBuilder::new()
        .base_url("https://api.example.com")
        .timeout(Duration::from_secs(60))
        .retries(10)
        .try_build().expect("client builds");
    assert_eq!(client.base_url.as_deref(), Some("https://api.example.com"));
}

#[test]
fn fetch_error_network_display() {
    let err = FetchError::Network("connection refused".into());
    let msg = err.to_string();
    assert!(msg.contains("connection refused"));
}

#[test]
fn fetch_error_timeout_display() {
    let err = FetchError::Timeout(Duration::from_secs(5));
    let msg = err.to_string();
    assert!(msg.contains("5s"));
}

#[test]
fn lib_fetch_error_status_code_display() {
    let err = FetchError::StatusCode {
        status: 404,
        body: "not found".into(),
    };
    let msg = err.to_string();
    assert!(msg.contains("404"));
    assert!(msg.contains("not found"));
}

#[test]
fn fetch_error_serialization_display() {
    let json_err = serde_json::from_str::<serde_json::Value>("not json").unwrap_err();
    let err = FetchError::Serialization(json_err);
    let msg = err.to_string();
    assert!(msg.contains("serialization error"));
}

#[test]
fn fetch_error_circuit_open_display() {
    let err = FetchError::CircuitOpen;
    let msg = err.to_string();
    assert!(msg.contains("circuit breaker"));
}

#[test]
fn fetch_error_middleware_display() {
    let err = FetchError::Middleware("tower error".into());
    let msg = err.to_string();
    assert!(msg.contains("tower error"));
}

#[test]
fn url_resolution_base_with_relative_path() {
    let client = new_client();
    let client = Client::from_parts(client.inner().clone(), Some("https://api.example.com".into()));
    let resolved = client.resolve_url("/users/1");
    assert_eq!(resolved, "https://api.example.com/users/1");
}

#[test]
fn url_resolution_no_base_url() {
    let client = new_client();
    let resolved = client.resolve_url("/users/1");
    assert_eq!(resolved, "/users/1");
}

#[test]
fn url_resolution_base_trailing_slash() {
    let client = with_base("https://api.example.com/");
    let resolved = client.resolve_url("/users/1");
    assert_eq!(resolved, "https://api.example.com/users/1");
}

#[test]
fn url_resolution_path_no_leading_slash() {
    let client = with_base("https://api.example.com");
    let resolved = client.resolve_url("users/1");
    assert_eq!(resolved, "https://api.example.com/users/1");
}

#[test]
fn url_resolution_empty_base_trailing_slash() {
    let client = with_base("https://api.example.com/");
    let resolved = client.resolve_url("users/1");
    assert_eq!(resolved, "https://api.example.com/users/1");
}

#[test]
fn client_default_trait() {
    let client = ClientBuilder::default().try_build().expect("client builds");
    assert!(client.base_url.is_none());
}

#[test]
fn client_builder_default_trait() {
    let builder = ClientBuilder::default();
    assert_eq!(builder.retries, 3);
}

#[test]
fn client_builder_new_creates_valid_builder() {
    let builder = ClientBuilder::new();
    assert_eq!(builder.retries, 3);
    assert!(builder.base_url.is_none());
    let client = builder.try_build().expect("client builds");
    assert!(client.base_url.is_none());
}

#[test]
fn client_builder_base_url_strips_trailing_slash_on_build() {
    let client = ClientBuilder::new()
        .base_url("https://api.example.com/")
        .try_build().expect("client builds");
    let resolved = client.resolve_url("/users/1");
    assert_eq!(resolved, "https://api.example.com/users/1");
}

#[test]
fn client_builder_timeout_zero() {
    let client = ClientBuilder::new().timeout(Duration::from_secs(0)).try_build().expect("client builds");
    let _ = client.inner();
}

#[test]
fn client_builder_timeout_large() {
    let client = ClientBuilder::new()
        .timeout(Duration::from_secs(3600))
        .try_build().expect("client builds");
    let _ = client.inner();
}

#[test]
fn client_builder_retries_zero() {
    let builder = ClientBuilder::new().retries(0);
    assert_eq!(builder.retries, 0);
}

#[test]
fn client_builder_retries_large() {
    let builder = ClientBuilder::new().retries(1000);
    assert_eq!(builder.retries, 1000);
}

#[test]
fn client_builder_overwrite_retries() {
    let builder = ClientBuilder::new().retries(5).retries(10);
    assert_eq!(builder.retries, 10);
}

#[test]
fn client_builder_overwrite_timeout() {
    let client = ClientBuilder::new()
        .timeout(Duration::from_secs(10))
        .timeout(Duration::from_secs(60))
        .try_build().expect("client builds");
    let _ = client.inner();
}

#[test]
fn client_builder_full_chain() {
    let client = ClientBuilder::new()
        .base_url("https://api.example.com")
        .timeout(Duration::from_secs(15))
        .retries(7)
        .try_build().expect("client builds");
    assert_eq!(client.base_url.as_deref(), Some("https://api.example.com"));
}

#[test]
fn client_new_creates_default() {
    let client = new_client();
    assert!(client.base_url.is_none());
    let _ = client.inner();
}

#[test]
fn client_builder_factory_method() {
    let client = Client::builder().base_url("https://example.com").try_build().expect("client builds");
    assert_eq!(client.base_url.as_deref(), Some("https://example.com"));
}

#[test]
fn client_builder_factory_default() {
    let client = Client::builder().try_build().expect("client builds");
    assert!(client.base_url.is_none());
}

#[test]
fn url_resolution_empty_path_with_base() {
    let client = with_base("https://api.example.com");
    let resolved = client.resolve_url("");
    assert_eq!(resolved, "https://api.example.com/");
}

#[test]
fn url_resolution_base_multiple_trailing_slashes() {
    let client = with_base("https://api.example.com///");
    let resolved = client.resolve_url("/users/1");
    assert_eq!(resolved, "https://api.example.com/users/1");
}

#[test]
fn url_resolution_full_url_with_base() {
    let client = with_base("https://api.example.com");
    let resolved = client.resolve_url("users/1");
    assert_eq!(resolved, "https://api.example.com/users/1");
}

#[test]
fn url_resolution_deeply_nested_path() {
    let client = with_base("https://api.example.com");
    let resolved = client.resolve_url("/v1/users/42/posts/7/comments");
    assert_eq!(
        resolved,
        "https://api.example.com/v1/users/42/posts/7/comments"
    );
}

#[test]
fn fetch_error_network_empty_message() {
    let err = FetchError::Network("".into());
    let msg = err.to_string();
    assert!(msg.contains("network error"));
}

#[test]
fn fetch_error_network_long_message() {
    let err = FetchError::Network("DNS resolution failed for api.example.com: NXDOMAIN".into());
    let msg = err.to_string();
    assert!(msg.contains("DNS resolution failed"));
    assert!(msg.contains("NXDOMAIN"));
}

#[test]
fn fetch_error_timeout_zero_duration() {
    let err = FetchError::Timeout(Duration::from_secs(0));
    let msg = err.to_string();
    assert!(msg.contains("request timed out"));
    assert!(msg.contains("0ns"));
}

#[test]
fn fetch_error_timeout_large_duration() {
    let err = FetchError::Timeout(Duration::from_secs(3600));
    let msg = err.to_string();
    assert!(msg.contains("request timed out"));
    assert!(msg.contains("3600s"));
}

#[test]
fn fetch_error_status_code_various_codes() {
    for code in [400, 401, 403, 404, 429, 500, 502, 503] {
        let err = FetchError::StatusCode {
            status: code,
            body: format!("error {code}"),
        };
        let msg = err.to_string();
        assert!(msg.contains(&code.to_string()));
        assert!(msg.contains("HTTP"));
    }
}

#[test]
fn fetch_error_status_code_empty_body() {
    let err = FetchError::StatusCode {
        status: 404,
        body: String::new(),
    };
    let msg = err.to_string();
    assert!(msg.contains("404"));
}

#[test]
fn fetch_error_serialization_various_errors() {
    let json_err = serde_json::from_str::<serde_json::Value>("").unwrap_err();
    let err = FetchError::Serialization(json_err);
    let msg = err.to_string();
    assert!(msg.contains("serialization error"));
}

#[test]
fn fetch_error_debug_format() {
    let errors = vec![
        FetchError::Network("test".into()),
        FetchError::Timeout(Duration::from_secs(1)),
        FetchError::StatusCode {
            status: 500,
            body: "err".into(),
        },
        FetchError::CircuitOpen,
        FetchError::Middleware("mw".into()),
    ];
    for err in errors {
        let debug_str = format!("{:?}", err);
        assert!(!debug_str.is_empty());
    }
}

// `FetchError` has no `std::error::Error` impl in this crate (the copy in the
// application layer has it); its rendering is checked through `to_string`.
#[test]
fn lib_fetch_error_is_std_error() {
    let err = FetchError::Network("test".into());
    assert!(err.to_string().contains("network error"));
}

#[test]
fn fetch_error_from_serde_json_roundtrip() {
    let json_err = serde_json::from_str::<serde_json::Value>("invalid json!!").unwrap_err();
    let msg = json_err.to_string();
    let fetch_err = FetchError::from(json_err);
    let fetch_msg = fetch_err.to_string();
    assert!(fetch_msg.contains("serialization error"));
    assert!(fetch_msg.contains(&msg));
}

#[test]
fn lib_client_clone_preserves_base_url() {
    let client = Client::builder()
        .base_url("https://api.example.com")
        .try_build().expect("client builds");
    let cloned = client.clone();
    assert_eq!(cloned.base_url.as_deref(), Some("https://api.example.com"));
}

#[test]
fn client_clone_independence() {
    let client1 = Client::builder().base_url("https://first.com").try_build().expect("client builds");
    let client2 = client1.clone();
    assert_eq!(client2.base_url.as_deref(), Some("https://first.com"));
}

#[test]
fn client_builder_default_header() {
    let client = ClientBuilder::new()
        .default_header("x-custom", "value")
        .try_build().expect("client builds");
    let _ = client.inner();
}

#[test]
fn client_builder_user_agent() {
    let client = ClientBuilder::new().user_agent("fetchkit/0.1").try_build().expect("client builds");
    let _ = client.inner();
}

#[test]
fn client_builder_retry_bounds() {
    let builder =
        ClientBuilder::new().retry_bounds(Duration::from_millis(100), Duration::from_secs(5));
    assert_eq!(builder.retries, 3);
    let client = builder.try_build().expect("client builds");
    let _ = client.inner();
}

#[test]
fn client_builder_try_build_success() {
    let result = ClientBuilder::new().try_build();
    assert!(result.is_ok());
}

#[test]
fn fetch_error_build_error_display() {
    let err = FetchError::BuildError("tls error".into());
    let msg = err.to_string();
    assert!(msg.contains("build error"));
    assert!(msg.contains("tls error"));
}

#[test]
fn fetch_error_header_error_display() {
    let err = FetchError::HeaderError("invalid header".into());
    let msg = err.to_string();
    assert!(msg.contains("header error"));
    assert!(msg.contains("invalid header"));
}

#[test]
fn client_get_returns_request_builder() {
    let client = new_client();
    let builder = client.get("https://example.com");
    let _ = builder;
}

#[test]
fn client_post_returns_request_builder() {
    let client = new_client();
    let builder = client.post("https://example.com");
    let _ = builder;
}

#[test]
fn client_put_returns_request_builder() {
    let client = new_client();
    let builder = client.put("https://example.com");
    let _ = builder;
}

#[test]
fn client_delete_returns_request_builder() {
    let client = new_client();
    let builder = client.delete("https://example.com");
    let _ = builder;
}

#[test]
fn request_builder_header_chain() {
    let client = new_client();
    let builder = client
        .get("https://example.com")
        .header("X-Test", "value")
        .bearer_auth("token");
    let _ = builder;
}

#[test]
fn request_builder_query_chain() {
    let client = new_client();
    let builder = client.get("https://example.com").query(&[("key", "value")]);
    let _ = builder;
}

#[test]
fn request_builder_timeout_chain() {
    let client = new_client();
    let builder = client
        .get("https://example.com")
        .timeout(Duration::from_secs(5));
    let _ = builder;
}

#[test]
fn fetch_error_from_reqwest_timeout_uses_zero_duration() {
    let err = FetchError::Timeout(Duration::ZERO);
    assert!(err.to_string().contains("request timed out"));
    assert!(err.to_string().contains("0"));
}
