use std::convert::Infallible;
use std::time::Duration;

use fetchkit::error::{decimal_string, decode_json};
use fetchkit::failure::{chain_failure, transport_failure};
use fetchkit::middleware::{admission_for, outcome_for, Admission, CircuitBreakerMiddleware, CircuitState, Outcome};
use fetchkit::status::{after_primary, status_failure, status_is_success, FallbackStep};
use fetchkit::retry::ordered_bounds;
use fetchkit::url::resolve_against;
use fetchkit::{Client, ClientBuilder, FetchError, Method};

fn breaker() -> breaker::CircuitBreaker {
    breaker::CircuitBreaker::new(breaker::CircuitBreakerConfig::standard())
}

#[test]
fn success_statuses_are_exactly_2xx() {
    assert!(!status_is_success(199));
    assert!(status_is_success(200));
    assert!(status_is_success(204));
    assert!(status_is_success(299));
    assert!(!status_is_success(300));
    assert!(!status_is_success(404));
    assert!(!status_is_success(500));
}

#[test]
fn failing_status_keeps_status_and_body() {
    match status_failure(404, Some("missing resource".to_string())) {
        FetchError::StatusCode { status, body } => {
            assert_eq!(status, 404);
            assert_eq!(body, "missing resource");
        }
        other => panic!("unexpected {other:?}"),
    }
}

#[test]
fn unreadable_body_is_recorded_empty() {
    match status_failure(500, None) {
        FetchError::StatusCode { status, body } => {
            assert_eq!(status, 500);
            assert_eq!(body, "");
        }
        other => panic!("unexpected {other:?}"),
    }
}

#[test]
fn fallback_only_after_primary_failure() {
    match after_primary::<u32>(Ok(7)) {
        FallbackStep::Done(v) => assert_eq!(v, 7),
        FallbackStep::FetchFallback => panic!("primary success must be final"),
    }
    let failed: Result<u32, FetchError> = Err(FetchError::StatusCode { status: 404, body: String::new() });
    assert!(matches!(after_primary(failed), FallbackStep::FetchFallback));
    let failed: Result<u32, FetchError> = Err(FetchError::Network("down".into()));
    assert!(matches!(after_primary(failed), FallbackStep::FetchFallback));
}

#[test]
fn transport_timeout_maps_to_zero_length_timeout() {
    match transport_failure(true, "operation timed out".into()) {
        FetchError::Timeout(d) => assert_eq!(d, Duration::ZERO),
        other => panic!("unexpected {other:?}"),
    }
    match transport_failure(false, "connection refused".into()) {
        FetchError::Network(m) => assert_eq!(m, "connection refused"),
        other => panic!("unexpected {other:?}"),
    }
}

#[test]
fn chain_failure_distinguishes_open_circuit() {
    assert!(matches!(chain_failure(true, "x".into()), FetchError::CircuitOpen));
    match chain_failure(false, "tower error".into()) {
        FetchError::Middleware(m) => assert_eq!(m, "tower error"),
        other => panic!("unexpected {other:?}"),
    }
}

#[test]
fn reqwest_error_maps_to_network_with_its_message() {
    let err = reqwest::Client::new().get("not a url").build().unwrap_err();
    let text = err.to_string();
    match FetchError::from_reqwest(err) {
        FetchError::Network(m) => assert_eq!(m, text),
        other => panic!("unexpected {other:?}"),
    }
}

#[test]
fn middleware_error_maps_to_middleware_with_its_message() {
    let err = reqwest_middleware::Error::Middleware(anyhow::Error::msg("tower error"));
    match FetchError::from_middleware(err) {
        FetchError::Middleware(m) => assert_eq!(m, "tower error"),
        other => panic!("unexpected {other:?}"),
    }
}

#[test]
fn client_error_inside_middleware_error_maps_like_reqwest() {
    let inner = reqwest::Client::new().get("not a url").build().unwrap_err();
    let text = inner.to_string();
    let err = reqwest_middleware::Error::Reqwest(inner);
    match FetchError::from_middleware(err) {
        FetchError::Network(m) => assert_eq!(m, text),
        other => panic!("unexpected {other:?}"),
    }
}

#[test]
fn refusal_maps_to_circuit_open() {
    let mw = CircuitBreakerMiddleware::new(breaker());
    assert!(matches!(FetchError::from_middleware(mw.rejection()), FetchError::CircuitOpen));
}

#[test]
fn refusal_wrapped_by_retry_maps_to_circuit_open() {
    let mw = CircuitBreakerMiddleware::new(breaker());
    let wrapped = reqwest_middleware::Error::Middleware(anyhow::Error::new(
        reqwest_retry::RetryError::Error(mw.rejection()),
    ));
    assert!(matches!(FetchError::from_middleware(wrapped), FetchError::CircuitOpen));
    let wrapped = reqwest_middleware::Error::Middleware(anyhow::Error::new(
        reqwest_retry::RetryError::WithRetries { retries: 2, err: mw.rejection() },
    ));
    assert!(matches!(FetchError::from_middleware(wrapped), FetchError::CircuitOpen));
}

#[test]
fn retry_wrapper_is_unwrapped_to_the_inner_error() {
    let wrapped = reqwest_middleware::Error::Middleware(anyhow::Error::new(
        reqwest_retry::RetryError::WithRetries {
            retries: 3,
            err: reqwest_middleware::Error::Middleware(anyhow::Error::msg("inner failure")),
        },
    ));
    match FetchError::from_middleware(wrapped) {
        FetchError::Middleware(m) => assert_eq!(m, "inner failure"),
        other => panic!("unexpected {other:?}"),
    }
}

#[test]
fn other_breaker_errors_are_not_the_open_signal() {
    let err = reqwest_middleware::Error::Middleware(anyhow::Error::new(
        breaker::CircuitBreakerError::<Infallible>::Rejected,
    ));
    assert!(matches!(FetchError::from_middleware(err), FetchError::Middleware(_)));
}

#[test]
fn only_open_circuit_rejects() {
    assert_eq!(admission_for(CircuitState::Open), Admission::Reject);
    assert_eq!(admission_for(CircuitState::Closed), Admission::Proceed);
    assert_eq!(admission_for(CircuitState::HalfOpen), Admission::Proceed);
}

#[test]
fn failure_outcomes_are_429_5xx_and_transport_errors() {
    assert_eq!(outcome_for(Some(200)), Outcome::Success);
    assert_eq!(outcome_for(Some(302)), Outcome::Success);
    assert_eq!(outcome_for(Some(404)), Outcome::Success);
    assert_eq!(outcome_for(Some(428)), Outcome::Success);
    assert_eq!(outcome_for(Some(429)), Outcome::Failure);
    assert_eq!(outcome_for(Some(499)), Outcome::Success);
    assert_eq!(outcome_for(Some(500)), Outcome::Failure);
    assert_eq!(outcome_for(Some(503)), Outcome::Failure);
    assert_eq!(outcome_for(None), Outcome::Failure);
}

#[test]
fn breaker_middleware_reads_the_breaker_state() {
    let b = breaker();
    let mw = CircuitBreakerMiddleware::new(b.clone());
    assert_eq!(mw.admission(), Admission::Proceed);
    b.trip();
    assert_eq!(mw.admission(), Admission::Reject);
}

#[test]
fn breaker_middleware_records_outcomes() {
    let b = breaker();
    let mw = CircuitBreakerMiddleware::new(b.clone());
    assert_eq!(mw.settle(Some(500)).outcome(), Outcome::Failure);
    assert_eq!(mw.settle(None).outcome(), Outcome::Failure);
    assert_eq!(mw.settle(Some(200)).outcome(), Outcome::Success);
    let m = b.metrics();
    assert_eq!(m.total_failures, 2);
    assert_eq!(m.total_successes, 1);
}

#[test]
fn decimal_rendering() {
    assert_eq!(decimal_string(0), "0");
    assert_eq!(decimal_string(7), "7");
    assert_eq!(decimal_string(10), "10");
    assert_eq!(decimal_string(404), "404");
    assert_eq!(decimal_string(65535), "65535");
}

#[test]
fn status_error_renders_exactly() {
    let err = FetchError::StatusCode { status: 503, body: "down".into() };
    assert_eq!(err.to_string(), "HTTP 503: down");
    assert_eq!(FetchError::Middleware("m".into()).to_string(), "middleware error: m");
    assert_eq!(FetchError::Timeout(Duration::from_millis(1500)).to_string(), "request timed out after 1.5s");
}

#[test]
fn backoff_bounds_are_compared_by_length() {
    assert!(ordered_bounds(Duration::from_millis(100), Duration::from_secs(5)));
    assert!(ordered_bounds(Duration::from_millis(3), Duration::from_micros(3000)));
    assert!(!ordered_bounds(Duration::from_secs(2), Duration::from_millis(1999)));
    assert!(ordered_bounds(Duration::ZERO, Duration::ZERO));
}

#[test]
fn builder_backoff_defaults_and_overrides() {
    let b = ClientBuilder::new();
    assert_eq!(b.backoff_bounds(), (Duration::from_millis(500), Duration::from_secs(30)));
    assert!(!b.uses_custom_bounds());
    let b = b.retry_bounds(Duration::from_millis(1), Duration::from_millis(5));
    assert_eq!(b.backoff_bounds(), (Duration::from_millis(1), Duration::from_millis(5)));
    assert!(b.uses_custom_bounds());
    assert_eq!(b.retries, 3);
    let b = b.retries(2);
    assert!(b.uses_custom_bounds());
    assert_eq!(b.backoff_bounds(), (Duration::from_millis(1), Duration::from_millis(5)));
    assert_eq!(b.retries, 2);
}

#[test]
fn fresh_builder_has_no_default_headers() {
    assert!(ClientBuilder::new().default_header_map().is_empty());
    assert!(ClientBuilder::default().default_header_map().is_empty());
}

#[test]
fn default_header_is_stored_and_replaced() {
    let b = ClientBuilder::new().default_header("x-tenant", "acme");
    assert_eq!(b.default_header_map().get("x-tenant").unwrap(), "acme");
    let b = b.default_header("x-tenant", "other");
    let values: Vec<_> = b.default_header_map().get_all("x-tenant").iter().collect();
    assert_eq!(values.len(), 1);
    assert_eq!(values[0], "other");
}

#[test]
fn default_headers_take_first_value_of_each_name() {
    let mut added = http::HeaderMap::new();
    added.append("x-role", http::HeaderValue::from_static("first"));
    added.append("x-role", http::HeaderValue::from_static("second"));
    added.insert("x-keep", http::HeaderValue::from_static("default"));
    let b = ClientBuilder::new()
        .default_header("x-role", "builder")
        .default_header("x-other", "kept")
        .default_headers(added);
    let m = b.default_header_map();
    let roles: Vec<_> = m.get_all("x-role").iter().collect();
    assert_eq!(roles, vec!["first"]);
    assert_eq!(m.get("x-keep").unwrap(), "default");
    assert_eq!(m.get("x-other").unwrap(), "kept");
    assert_eq!(m.len(), 3);
}

#[test]
fn requests_target_the_resolved_url() {
    let client = ClientBuilder::new().base_url("https://api.example.com/").try_build().expect("client builds");
    let rb = client.get("/users/1");
    assert_eq!(rb.url(), "https://api.example.com/users/1");
    assert_eq!(rb.http_method(), Method::Get);
    let rb = client.post(String::from("items")).timeout(Duration::from_secs(1)).header("x-a", "b");
    assert_eq!(rb.url(), "https://api.example.com/items");
    assert_eq!(rb.http_method(), Method::Post);
    assert_eq!(client.put("x").http_method(), Method::Put);
    assert_eq!(client.delete("x").http_method(), Method::Delete);
}

#[test]
fn full_url_with_base_stays_under_base() {
    assert_eq!(
        resolve_against(Some("https://api.example.com"), "https://evil.example.org/x"),
        "https://api.example.com/https://evil.example.org/x"
    );
    assert_eq!(resolve_against(Some("https://h"), "//x"), "https://h/x");
    assert_eq!(resolve_against(Some("/"), "/"), "/");
    assert_eq!(resolve_against(None, "//x"), "//x");
}

#[test]
fn dot_segments_pass_through_unnormalized() {
    assert_eq!(resolve_against(Some("https://h/api"), "../admin"), "https://h/api/../admin");
}

#[test]
fn try_prepare_then_finish_keeps_base_url() {
    let prepared = ClientBuilder::new().base_url("https://b").try_prepare().unwrap();
    let (chain, base) = prepared.into_parts();
    let client = Client::from_parts(chain.build(), base);
    assert_eq!(client.base_url.as_deref(), Some("https://b"));
}

#[test]
fn invalid_user_agent_is_a_build_error() {
    match ClientBuilder::new().user_agent("bad\nagent").try_build() {
        Err(FetchError::BuildError(m)) => assert!(!m.is_empty()),
        Err(other) => panic!("unexpected {other:?}"),
        Ok(_) => panic!("an invalid user agent must fail the build"),
    }
}

#[test]
fn merging_the_same_headers_twice_is_merging_once() {
    let mut added = http::HeaderMap::new();
    added.insert("x-a", http::HeaderValue::from_static("1"));
    added.append("x-b", http::HeaderValue::from_static("2"));
    added.append("x-b", http::HeaderValue::from_static("3"));
    let once = ClientBuilder::new().default_header("x-c", "4").default_headers(added.clone());
    let twice = ClientBuilder::new()
        .default_header("x-c", "4")
        .default_headers(added.clone())
        .default_headers(added);
    assert_eq!(once.default_header_map(), twice.default_header_map());
    assert_eq!(twice.default_header_map().len(), 3);
}

#[test]
fn slashes_at_the_join_do_not_matter() {
    for base in ["https://api.example.com", "https://api.example.com/", "https://api.example.com////"] {
        for path in ["users/1", "/users/1", "///users/1"] {
            assert_eq!(resolve_against(Some(base), path), "https://api.example.com/users/1");
        }
    }
}

#[test]
fn raw_builder_replaces_timeout_and_user_agent() {
    let client = ClientBuilder::new()
        .timeout(Duration::from_millis(1))
        .reqwest_builder(reqwest::Client::builder())
        .try_build();
    assert!(client.is_ok());
}

#[test]
fn undecodable_json_is_a_serialization_error() {
    let r: Result<serde_json::Value, FetchError> = decode_json(b"not json");
    let err = r.unwrap_err();
    assert!(matches!(err, FetchError::Serialization(_)));
    assert!(err.to_string().starts_with("serialization error: "));
    let ok: Result<Vec<u32>, FetchError> = decode_json(b"[1, 2]");
    assert_eq!(ok.unwrap(), vec![1, 2]);
}

#[test]
fn default_header_name_is_stored_lowercase() {
    let b = ClientBuilder::new().default_header("Authorization", "Bearer token");
    assert_eq!(b.default_header_map().get("authorization").unwrap(), "Bearer token");
    assert_eq!(b.default_header_map().len(), 1);
}

#[test]
fn request_for_a_str_goes_to_the_resolved_url() {
    let client = ClientBuilder::new().base_url("https://api.example.com/").try_build().unwrap();
    let request = client.put("users/1").into_inner().build().unwrap();
    assert_eq!(request.method(), reqwest::Method::PUT);
    assert_eq!(request.url().as_str(), "https://api.example.com/users/1");
}

#[test]
fn settle_records_429_as_failure_on_the_breaker() {
    let b = breaker();
    let mw = CircuitBreakerMiddleware::new(b.clone());
    assert_eq!(mw.settle(Some(429)).outcome(), Outcome::Failure);
    assert_eq!(mw.settle(Some(404)).outcome(), Outcome::Success);
    let m = b.metrics();
    assert_eq!(m.total_failures, 1);
    assert_eq!(m.total_successes, 1);
}

#[test]
fn header_name_count_counts_names_once() {
    let mut m = http::HeaderMap::new();
    m.append("x-a", http::HeaderValue::from_static("1"));
    m.append("x-a", http::HeaderValue::from_static("2"));
    m.insert("x-b", http::HeaderValue::from_static("3"));
    assert_eq!(fetchkit::headers::header_name_count(&m), 2);
}

#[test]
fn auth_and_body_reach_the_request() {
    let client = ClientBuilder::new().try_build().unwrap();
    let request = client
        .post("https://example.com/x")
        .basic_auth("user", Some("pass"))
        .body("payload")
        .into_inner()
        .build()
        .unwrap();
    assert_eq!(request.headers().get("authorization").unwrap(), "Basic dXNlcjpwYXNz");
    assert_eq!(request.body().unwrap().as_bytes().unwrap(), b"payload");
    let request = client.get("https://example.com/y").bearer_auth("tok-123").into_inner().build().unwrap();
    assert_eq!(request.headers().get("authorization").unwrap(), "Bearer tok-123");
}
