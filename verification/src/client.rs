//! The client, its builder, and the request builder.

use std::time::Duration;
use vstd::prelude::*;
use vstd::string::*;

use reqwest::Client as HttpClient;
use reqwest::ClientBuilder as HttpClientBuilder;
use reqwest_middleware::ClientBuilder as ChainBuilder;
use reqwest_middleware::ClientWithMiddleware;
use reqwest_middleware::RequestBuilder as ChainRequest;

use crate::error::FetchError;
use crate::failure::{reqwest_error_message, reqwest_error_text};
use crate::headers::{
    has_room, header_map_contents, header_name_from_text, header_name_limit, header_value_from_text,
    insert_header,
    is_header_name_text, is_header_value_text, lower_ascii, merge_headers, merged_headers,
    new_header_map, with_header,
};
use crate::retry::{backoff_policy, default_bounds, policy_for, policy_settings, RetryPolicyView};
use crate::time::{duration_from_millis, duration_from_secs, duration_nanos};
use crate::url::{resolve, resolve_against};

verus! {

#[verifier::external_type_specification]
#[verifier::external_body]
pub struct ExHttpClientBuilder(HttpClientBuilder);

#[verifier::external_type_specification]
#[verifier::external_body]
pub struct ExHttpClient(HttpClient);

#[verifier::external_type_specification]
#[verifier::external_body]
pub struct ExMiddlewareClientBuilder(ChainBuilder);

#[verifier::external_type_specification]
#[verifier::external_body]
pub struct ExClientWithMiddleware(ClientWithMiddleware);

/// The total request timeout (nanoseconds) a `reqwest::ClientBuilder` is
/// configured with, if any.
pub uninterp spec fn http_builder_timeout(b: HttpClientBuilder) -> Option<int>;

/// The default headers a `reqwest::ClientBuilder` is configured with, by
/// name.
pub uninterp spec fn http_builder_headers(b: HttpClientBuilder) -> Map<Seq<u8>, Seq<Seq<u8>>>;

/// Whether a configuration call on a `reqwest::ClientBuilder` failed, so that
/// building it returns that error.
pub uninterp spec fn http_builder_failed(b: HttpClientBuilder) -> bool;

/// The total request timeout (nanoseconds) a `reqwest::Client` uses, if any.
pub uninterp spec fn http_client_timeout(c: HttpClient) -> Option<int>;

/// The default headers a `reqwest::Client` stamps on every request, by name.
pub uninterp spec fn http_client_headers(c: HttpClient) -> Map<Seq<u8>, Seq<Seq<u8>>>;

/// The bytes of the header name `accept`.
pub open spec fn accept_name() -> Seq<u8> {
    seq![97u8, 99, 99, 101, 112, 116]
}

/// The bytes of the header name `user-agent`.
pub open spec fn user_agent_name() -> Seq<u8> {
    seq![117u8, 115, 101, 114, 45, 97, 103, 101, 110, 116]
}

/// The default headers of a fresh `reqwest::ClientBuilder`: `accept: */*`.
pub open spec fn initial_http_headers() -> Map<Seq<u8>, Seq<Seq<u8>>> {
    Map::<Seq<u8>, Seq<Seq<u8>>>::empty().insert(accept_name(), seq![seq![42u8, 47, 42]])
}

/// The headers after storing, for each name of `added`, the last value
/// `added` holds for it, replacing what `base` held under that name.
pub open spec fn merged_last(
    base: Map<Seq<u8>, Seq<Seq<u8>>>,
    added: Map<Seq<u8>, Seq<Seq<u8>>>,
) -> Map<Seq<u8>, Seq<Seq<u8>>> {
    Map::new(
        |k: Seq<u8>| base.dom().contains(k) || added.dom().contains(k),
        |k: Seq<u8>|
            if added.dom().contains(k) {
                seq![added[k].last()]
            } else {
                base[k]
            },
    )
}

/// Calls `reqwest::Client::builder`: no timeout, `accept: */*` as its only
/// default header, no failed call.
#[verifier::external_body]
fn http_builder() -> (r: HttpClientBuilder)
    ensures
        http_builder_timeout(r) is None,
        http_builder_headers(r) == initial_http_headers(),
        !http_builder_failed(r),
{
    HttpClient::builder()
}

/// Calls `reqwest::ClientBuilder::timeout`, which replaces the timeout.
#[verifier::external_body]
fn http_timeout(b: HttpClientBuilder, timeout: Duration) -> (r: HttpClientBuilder)
    ensures
        http_builder_timeout(r) == Some(duration_nanos(timeout)),
        http_builder_headers(r) == http_builder_headers(b),
        http_builder_failed(r) == http_builder_failed(b),
{
    b.timeout(timeout)
}

/// Calls `reqwest::ClientBuilder::user_agent`: an accepted value replaces
/// the `user-agent` default header; a rejected one makes building fail.
#[verifier::external_body]
fn http_user_agent(b: HttpClientBuilder, agent: &'static str) -> (r: HttpClientBuilder)
    requires
        has_room(http_builder_headers(b)),
    ensures
        http_builder_timeout(r) == http_builder_timeout(b),
        http_builder_headers(r) == if is_header_value_text(agent@) {
            with_header(http_builder_headers(b), user_agent_name(), agent.spec_bytes())
        } else {
            http_builder_headers(b)
        },
        http_builder_failed(r) == (http_builder_failed(b) || !is_header_value_text(agent@)),
{
    b.user_agent(agent)
}

/// Calls `reqwest::ClientBuilder::default_headers`, which stores every value
/// of `headers` in turn, so that the last value of each name replaces what
/// the builder held under it.
#[verifier::external_body]
fn http_default_headers(b: HttpClientBuilder, headers: http::HeaderMap) -> (r: HttpClientBuilder)
    requires
        http_builder_headers(b).dom().finite(),
        header_map_contents(headers).dom().finite(),
        http_builder_headers(b).dom().len() + header_map_contents(headers).dom().len()
            < header_name_limit(),
    ensures
        http_builder_timeout(r) == http_builder_timeout(b),
        http_builder_headers(r) == merged_last(
            http_builder_headers(b),
            header_map_contents(headers),
        ),
        http_builder_failed(r) == http_builder_failed(b),
{
    b.default_headers(headers)
}

/// Calls `reqwest::ClientBuilder::build`: fails when a configuration call
/// failed; a client it returns uses the builder's timeout and default
/// headers. Whether it succeeds otherwise depends on the machine (TLS
/// backend, resolver configuration), so that is not promised.
#[verifier::external_body]
fn http_build(b: HttpClientBuilder) -> (r: Result<HttpClient, reqwest::Error>)
    ensures
        http_builder_failed(b) ==> r is Err,
        r matches Ok(c) ==> http_client_timeout(c) == http_builder_timeout(b)
            && http_client_headers(c) == http_builder_headers(b),
{
    b.build()
}

/// Whether a `reqwest_middleware::ClientBuilder` has request initialisers
/// (added with `with_init`), which run on every request it starts.
pub uninterp spec fn chain_has_initialisers(b: ChainBuilder) -> bool;

/// Whether a `ClientWithMiddleware` has request initialisers.
pub uninterp spec fn middleware_has_initialisers(c: ClientWithMiddleware) -> bool;

/// The client at the bottom of a `reqwest_middleware::ClientBuilder`.
pub uninterp spec fn chain_client(b: ChainBuilder) -> HttpClient;

/// The settings of the retry middleware layers attached to a
/// `reqwest_middleware::ClientBuilder`, in order.
pub uninterp spec fn chain_retry_layers(b: ChainBuilder) -> Seq<RetryPolicyView>;

/// The client at the bottom of a `ClientWithMiddleware`.
pub uninterp spec fn middleware_client(c: ClientWithMiddleware) -> HttpClient;

/// The settings of the retry middleware layers of a `ClientWithMiddleware`,
/// in order.
pub uninterp spec fn middleware_retry_layers(c: ClientWithMiddleware) -> Seq<RetryPolicyView>;

/// Calls `reqwest_middleware::ClientBuilder::new`: `client` with no
/// middleware.
#[verifier::external_body]
fn chain_builder(client: HttpClient) -> (r: ChainBuilder)
    ensures
        chain_client(r) == client,
        chain_retry_layers(r) == Seq::<RetryPolicyView>::empty(),
        !chain_has_initialisers(r),
{
    ChainBuilder::new(client)
}

/// Calls `reqwest_middleware::ClientBuilder::with` with the retry middleware
/// `reqwest_retry::RetryTransientMiddleware::new_with_policy(policy)`.
#[verifier::external_body]
fn chain_with_retry(
    b: ChainBuilder,
    policy: reqwest_retry::policies::ExponentialBackoff,
) -> (r: ChainBuilder)
    ensures
        chain_client(r) == chain_client(b),
        chain_retry_layers(r) == chain_retry_layers(b).push(policy_settings(policy)),
        chain_has_initialisers(r) == chain_has_initialisers(b),
{
    b.with(reqwest_retry::RetryTransientMiddleware::new_with_policy(policy))
}

/// Calls `reqwest_middleware::ClientBuilder::build`.
#[verifier::external_body]
fn chain_build(b: ChainBuilder) -> (r: ClientWithMiddleware)
    ensures
        middleware_client(r) == chain_client(b),
        middleware_retry_layers(r) == chain_retry_layers(b),
        middleware_has_initialisers(r) == chain_has_initialisers(b),
{
    b.build()
}

/// The configuration a [`ClientBuilder`] holds.
pub struct BuilderView {
    /// Total request timeout (nanoseconds) of the underlying
    /// `reqwest::ClientBuilder`, if any.
    pub http_timeout: Option<int>,
    /// Default headers of the underlying `reqwest::ClientBuilder` (its
    /// `user-agent` among them), by name.
    pub http_headers: Map<Seq<u8>, Seq<Seq<u8>>>,
    /// Whether a configuration call on the underlying builder failed.
    pub http_failed: bool,
    /// Base URL prepended to every path.
    pub base_url: Option<Seq<char>>,
    /// Maximum number of retries of a transient failure.
    pub retries: nat,
    /// Initial backoff (nanoseconds) last set.
    pub initial_backoff: int,
    /// Maximum backoff (nanoseconds) last set.
    pub max_backoff: int,
    /// Whether `retry_bounds` was called, so that the policy uses the
    /// backoff bounds above rather than its defaults.
    pub custom_bounds: bool,
    /// Default headers, by name.
    pub default_headers: Map<Seq<u8>, Seq<Seq<u8>>>,
}

/// What a client built from a builder is made of.
pub struct ClientSettings {
    /// Total request timeout (nanoseconds) of its `reqwest::Client`, if any.
    pub timeout: Option<int>,
    /// Headers its `reqwest::Client` stamps on every request, by name.
    pub headers: Map<Seq<u8>, Seq<Seq<u8>>>,
    /// Settings of its retry middleware layers, in order.
    pub retry_layers: Seq<RetryPolicyView>,
    /// Whether it has request initialisers.
    pub initialisers: bool,
}

impl BuilderView {
    /// This configuration with total request timeout `t` (nanoseconds).
    pub open spec fn with_timeout(self, t: int) -> BuilderView {
        BuilderView { http_timeout: Some(t), ..self }
    }

    /// This configuration with `User-Agent` `agent` (its text and bytes).
    pub open spec fn with_user_agent(self, agent: Seq<char>, bytes: Seq<u8>) -> BuilderView {
        if is_header_value_text(agent) {
            BuilderView { http_headers: with_header(self.http_headers, user_agent_name(), bytes), ..self }
        } else {
            BuilderView { http_failed: true, ..self }
        }
    }

    /// This configuration with base URL `url`.
    pub open spec fn with_base_url(self, url: Seq<char>) -> BuilderView {
        BuilderView { base_url: Some(url), ..self }
    }

    /// This configuration with `n` retries.
    pub open spec fn with_retries(self, n: nat) -> BuilderView {
        BuilderView { retries: n, ..self }
    }

    /// This configuration with backoff bounds `initial` and `max`
    /// (nanoseconds).
    pub open spec fn with_bounds(self, initial: int, max: int) -> BuilderView {
        BuilderView { initial_backoff: initial, max_backoff: max, custom_bounds: true, ..self }
    }

    /// This configuration with default headers `h`.
    pub open spec fn with_default_headers(self, h: Map<Seq<u8>, Seq<Seq<u8>>>) -> BuilderView {
        BuilderView { default_headers: h, ..self }
    }
}

/// Setting the retry count twice leaves the count of the last call.
pub proof fn retries_last_call_wins(v: BuilderView, first: nat, second: nat)
    ensures
        v.with_retries(first).with_retries(second) == v.with_retries(second),
        ClientBuilder::retry_policy_of(v.with_retries(first).with_retries(second)).max_retries
            == second,
{
}

/// The retry count and the backoff bounds are independent: set in either
/// order, the policy has that count and those bounds.
pub proof fn bounds_and_retry_count_commute(v: BuilderView, n: nat, initial: int, max: int)
    ensures
        v.with_bounds(initial, max).with_retries(n) == v.with_retries(n).with_bounds(initial, max),
        ClientBuilder::retry_policy_of(v.with_bounds(initial, max).with_retries(n)) == (RetryPolicyView {
            max_retries: n,
            min_backoff: initial,
            max_backoff: max,
        }),
        ClientBuilder::retry_policy_of(v.with_bounds(initial, max)).max_retries == v.retries,
{
}

/// A client built from a fresh builder times requests out after 30 seconds,
/// stamps only `accept: */*` on every request, and has one retry layer of at
/// most 3 retries within the policy's default bounds, and no initialisers.
pub proof fn fresh_builder_is_bounded()
    ensures
        ClientBuilder::settings_of(ClientBuilder::default_view()) == (ClientSettings {
            timeout: Some(30_000_000_000int),
            headers: initial_http_headers(),
            retry_layers: seq![(RetryPolicyView {
                max_retries: 3,
                min_backoff: default_bounds().0,
                max_backoff: default_bounds().1,
            })],
            initialisers: false,
        }),
{
    assert(merged_last(initial_http_headers(), Map::empty()) =~= initial_http_headers());
}

/// The timeout last set through the builder is the one the built client
/// uses; setting the `User-Agent` after it does not change it, and a
/// `User-Agent` accepted last is the one the client sends.
pub proof fn last_timeout_wins(
    v: BuilderView,
    first: int,
    second: int,
    agent: Seq<char>,
    bytes: Seq<u8>,
)
    requires
        is_header_value_text(agent),
        !v.default_headers.dom().contains(user_agent_name()),
    ensures
        ClientBuilder::settings_of(v.with_timeout(first).with_timeout(second)).timeout == Some(second),
        ClientBuilder::settings_of(v.with_timeout(first).with_user_agent(agent, bytes)).timeout
            == Some(first),
        ClientBuilder::settings_of(v.with_user_agent(agent, bytes).with_timeout(first)).headers[user_agent_name()]
            == seq![bytes],
{
}

/// The base URL, retry settings and request settings are independent:
/// changing one leaves the others as they were.
pub proof fn builder_settings_are_independent(v: BuilderView, t: int, url: Seq<char>, n: nat)
    ensures
        v.with_timeout(t).with_base_url(url) == v.with_base_url(url).with_timeout(t),
        v.with_timeout(t).with_retries(n) == v.with_retries(n).with_timeout(t),
        v.with_base_url(url).with_retries(n) == v.with_retries(n).with_base_url(url),
        ClientBuilder::retry_policy_of(v.with_timeout(t)) == ClientBuilder::retry_policy_of(v),
        ClientBuilder::retry_policy_of(v.with_base_url(url)) == ClientBuilder::retry_policy_of(v),
{
}

/// Whether `e` is the error for a client that could not be built:
/// `BuildError` with the message of a `reqwest::Error`.
pub open spec fn is_build_failure(e: FetchError) -> bool {
    match e {
        FetchError::BuildError(m) => exists|x: reqwest::Error| #[trigger] reqwest_error_message(x) == m@,
        _ => false,
    }
}

/// The view of an optional string.
pub open spec fn opt_view(s: Option<String>) -> Option<Seq<char>> {
    match s {
        Some(v) => Some(v@),
        None => None,
    }
}

/// Converts `&str` to `String`: the same text.
pub assume_specification<'a>[ <String as From<&'a str>>::from ](s: &str) -> (r: String)
    ensures
        r@ == s@,
;

/// Builder for constructing a [`Client`] with custom configuration.
pub struct ClientBuilder {
    http: HttpClientBuilder,
    /// Base URL prepended to every path.
    pub base_url: Option<String>,
    /// Maximum number of retries of a transient failure.
    pub retries: u32,
    initial_backoff: Duration,
    max_backoff: Duration,
    custom_bounds: bool,
    default_headers: http::HeaderMap,
}

impl View for ClientBuilder {
    type V = BuilderView;

    closed spec fn view(&self) -> BuilderView {
        BuilderView {
            http_timeout: http_builder_timeout(self.http),
            http_headers: http_builder_headers(self.http),
            http_failed: http_builder_failed(self.http),
            base_url: opt_view(self.base_url),
            retries: self.retries as nat,
            initial_backoff: duration_nanos(self.initial_backoff),
            max_backoff: duration_nanos(self.max_backoff),
            custom_bounds: self.custom_bounds,
            default_headers: header_map_contents(self.default_headers),
        }
    }
}

impl ClientBuilder {
    /// The configuration a fresh builder starts from.
    pub open spec fn default_view() -> BuilderView {
        BuilderView {
            http_timeout: Some(30_000_000_000),
            http_headers: initial_http_headers(),
            http_failed: false,
            base_url: None,
            retries: 3,
            initial_backoff: 500_000_000,
            max_backoff: 30_000_000_000,
            custom_bounds: false,
            default_headers: Map::empty(),
        }
    }

    /// What a client built from `v` is made of: the timeout of the
    /// underlying builder, its default headers with the builder's default
    /// headers stored over them, one retry layer, and no initialisers.
    pub open spec fn settings_of(v: BuilderView) -> ClientSettings {
        ClientSettings {
            timeout: v.http_timeout,
            headers: merged_last(v.http_headers, v.default_headers),
            retry_layers: seq![Self::retry_policy_of(v)],
            initialisers: false,
        }
    }

    /// Whether the underlying builder's default headers and the builder's
    /// own fit together in a header map (see [`has_room`]).
    pub open spec fn headers_fit(v: BuilderView) -> bool {
        &&& v.http_headers.dom().finite()
        &&& v.http_headers.dom().len() + v.default_headers.dom().len() < header_name_limit()
    }

    /// The retry policy a client built from `v` uses: `v.retries` retries,
    /// within the bounds last given to `retry_bounds`, within the policy's
    /// defaults if it was never called.
    pub open spec fn retry_policy_of(v: BuilderView) -> RetryPolicyView {
        RetryPolicyView {
            max_retries: v.retries,
            min_backoff: if v.custom_bounds {
                v.initial_backoff
            } else {
                default_bounds().0
            },
            max_backoff: if v.custom_bounds {
                v.max_backoff
            } else {
                default_bounds().1
            },
        }
    }

    /// The backoff bounds, when set, are ordered, and the default headers
    /// are finitely many.
    pub closed spec fn wf(&self) -> bool {
        &&& self.custom_bounds ==> duration_nanos(self.initial_backoff) <= duration_nanos(
            self.max_backoff,
        )
        &&& header_map_contents(self.default_headers).dom().finite()
    }

    /// Create a new builder with defaults (30s timeout, 3 retries, exponential backoff).
    pub fn new() -> (r: Self)
        ensures
            r@ == Self::default_view(),
            r.wf(),
    {
        let timeout = duration_from_secs(30);
        let http = http_timeout(http_builder(), timeout);
        let r = ClientBuilder {
            http,
            base_url: None,
            retries: 3,
            initial_backoff: duration_from_millis(500),
            max_backoff: duration_from_secs(30),
            custom_bounds: false,
            default_headers: new_header_map(),
        };
        r
    }

    /// Set a base URL that is prepended to all relative paths.
    pub fn base_url<U: Into<String>>(self, url: U) -> (r: Self)
        requires
            self.wf(),
        ensures
            r.wf(),
            r@.base_url is Some,
            r@ == self@.with_base_url(r@.base_url->0),
            exists|s: String| call_ensures(<U as Into<String>>::into, (url,), s) && r@.base_url == Some(
                s@,
            ),
    {
        let s: String = url.into();
        ClientBuilder { base_url: Some(s), ..self }
    }

    /// Set the request timeout.
    pub fn timeout(self, timeout: Duration) -> (r: Self)
        requires
            self.wf(),
        ensures
            r.wf(),
            r@ == self@.with_timeout(duration_nanos(timeout)),
    {
        let http = http_timeout(self.http, timeout);
        ClientBuilder { http, ..self }
    }

    /// Set the maximum number of retries; backoff bounds set by
    /// `retry_bounds` are kept.
    pub fn retries(self, retries: u32) -> (r: Self)
        requires
            self.wf(),
        ensures
            r.wf(),
            r@ == self@.with_retries(retries as nat),
    {
        ClientBuilder { retries, ..self }
    }

    /// Set the initial and maximum retry backoff durations.
    pub fn retry_bounds(self, initial: Duration, max: Duration) -> (r: Self)
        requires
            self.wf(),
            duration_nanos(initial) <= duration_nanos(max),
        ensures
            r.wf(),
            r@ == self@.with_bounds(duration_nanos(initial), duration_nanos(max)),
    {
        ClientBuilder { initial_backoff: initial, max_backoff: max, custom_bounds: true, ..self }
    }

    /// Add a default header applied to every request, replacing what the
    /// name held. The name is stored in lower case.
    pub fn default_header(self, key: &'static str, value: &'static str) -> (r: Self)
        requires
            self.wf(),
            is_header_name_text(key@),
            is_header_value_text(value@),
            self@.default_headers.dom().len() < header_name_limit(),
        ensures
            r@ == self@.with_default_headers(
                with_header(self@.default_headers, lower_ascii(key@), value.spec_bytes()),
            ),
            r.wf(),
    {
        let mut headers = self.default_headers;
        let name = header_name_from_text(key);
        let val = header_value_from_text(value);
        insert_header(&mut headers, name, val);
        ClientBuilder { default_headers: headers, ..self }
    }

    /// Set multiple default headers applied to every request: each name of
    /// `headers` takes over, with the first value `headers` holds for it.
    pub fn default_headers(self, headers: http::HeaderMap) -> (r: Self)
        requires
            self.wf(),
            header_map_contents(headers).dom().finite(),
            self@.default_headers.dom().len() + header_map_contents(headers).dom().len()
                < header_name_limit(),
        ensures
            r.wf(),
            r@ == self@.with_default_headers(
                merged_headers(self@.default_headers, header_map_contents(headers)),
            ),
    {
        let ghost base = header_map_contents(self.default_headers);
        let ghost added = header_map_contents(headers);
        let mut merged = self.default_headers;
        merge_headers(&mut merged, headers);
        assert(merged_headers(base, added).dom() =~= base.dom().union(added.dom()));
        ClientBuilder { default_headers: merged, ..self }
    }

    /// Set the `User-Agent` header; a value `http` rejects makes building
    /// fail.
    pub fn user_agent(self, agent: &'static str) -> (r: Self)
        requires
            self.wf(),
            has_room(self@.http_headers),
        ensures
            r.wf(),
            r@ == self@.with_user_agent(agent@, agent.spec_bytes()),
    {
        let http = http_user_agent(self.http, agent);
        ClientBuilder { http, ..self }
    }

    /// Replace the underlying `reqwest::ClientBuilder` for advanced
    /// configuration; the client is then built from `builder` as it is,
    /// without the timeout and user agent set so far.
    pub fn reqwest_builder(self, builder: HttpClientBuilder) -> (r: Self)
        requires
            self.wf(),
        ensures
            r.wf(),
            r@ == (BuilderView {
                http_timeout: http_builder_timeout(builder),
                http_headers: http_builder_headers(builder),
                http_failed: http_builder_failed(builder),
                ..self@
            }),
    {
        ClientBuilder { http: builder, ..self }
    }

    /// The initial and maximum backoff durations last set (500ms and 30s
    /// by default). They shape the retry policy only while
    /// [`ClientBuilder::uses_custom_bounds`] holds.
    pub fn backoff_bounds(&self) -> (r: (Duration, Duration))
        ensures
            duration_nanos(r.0) == self@.initial_backoff,
            duration_nanos(r.1) == self@.max_backoff,
    {
        (self.initial_backoff, self.max_backoff)
    }

    /// Whether the retry policy uses the bounds last given to
    /// `retry_bounds` (rather than the policy's defaults).
    pub fn uses_custom_bounds(&self) -> (r: bool)
        ensures
            r == self@.custom_bounds,
    {
        self.custom_bounds
    }

    /// The default headers applied to every request.
    pub fn default_header_map(&self) -> (r: &http::HeaderMap)
        ensures
            header_map_contents(*r) == self@.default_headers,
    {
        &self.default_headers
    }

    fn retry_policy(&self) -> (r: reqwest_retry::policies::ExponentialBackoff)
        requires
            self.wf(),
        ensures
            policy_settings(r) == Self::retry_policy_of(self@),
    {
        let bounds = if self.custom_bounds {
            Some((self.initial_backoff, self.max_backoff))
        } else {
            None
        };
        backoff_policy(self.retries, bounds)
    }

    /// Builds the underlying `reqwest::Client` from the builder's
    /// configuration with the default headers handed to it, and attaches
    /// the retry middleware with the builder's policy; a failure to build
    /// the client is a `BuildError` carrying its message.
    pub fn try_prepare(self) -> (r: Result<PreparedClient, FetchError>)
        requires
            self.wf(),
            Self::headers_fit(self@),
        ensures
            self@.http_failed ==> r is Err,
            r matches Ok(p) ==> opt_view(p.base()) == self@.base_url && p.settings()
                == Self::settings_of(self@),
            r matches Err(e) ==> is_build_failure(e),
    {
        let policy = self.retry_policy();
        let http = http_default_headers(self.http, self.default_headers);
        match http_build(http) {
            Err(e) => Err(FetchError::BuildError(reqwest_error_text(&e))),
            Ok(client) => Ok(PreparedClient::assemble(client, policy, self.base_url)),
        }
    }

    /// Build the [`Client`], returning a [`FetchError`] on failure.
    pub fn try_build(self) -> (r: Result<Client, FetchError>)
        requires
            self.wf(),
            Self::headers_fit(self@),
        ensures
            self@.http_failed ==> r is Err,
            r matches Ok(c) ==> opt_view(c.base()) == self@.base_url && c.settings()
                == Self::settings_of(self@),
            r matches Err(e) ==> is_build_failure(e),
    {
        match self.try_prepare() {
            Ok(p) => Ok(p.finish()),
            Err(e) => Err(e),
        }
    }
}

impl Default for ClientBuilder {
    fn default() -> (r: Self)
        ensures
            r@ == ClientBuilder::default_view(),
            r.wf(),
    {
        Self::new()
    }
}

/// An HTTP client with its retry middleware attached, ready to take further
/// middleware before it becomes a [`Client`].
pub struct PreparedClient {
    chain: ChainBuilder,
    /// Base URL the client resolves paths against.
    pub base_url: Option<String>,
}

impl PreparedClient {
    fn assemble(
        client: HttpClient,
        policy: reqwest_retry::policies::ExponentialBackoff,
        base_url: Option<String>,
    ) -> (r: PreparedClient)
        ensures
            r.base() == base_url,
            r.settings() == (ClientSettings {
                timeout: http_client_timeout(client),
                headers: http_client_headers(client),
                retry_layers: seq![policy_settings(policy)],
                initialisers: false,
            }),
    {
        let chain = chain_with_retry(chain_builder(client), policy);
        assert(chain_retry_layers(chain) =~= seq![policy_settings(policy)]);
        PreparedClient { chain, base_url }
    }

    /// What the client is made of: the configuration calls of the
    /// `reqwest::ClientBuilder` its client was built from, and the settings
    /// of its retry layers.
    pub closed spec fn settings(&self) -> ClientSettings {
        ClientSettings {
            timeout: http_client_timeout(chain_client(self.chain)),
            headers: http_client_headers(chain_client(self.chain)),
            retry_layers: chain_retry_layers(self.chain),
            initialisers: chain_has_initialisers(self.chain),
        }
    }

    /// The base URL.
    pub closed spec fn base(&self) -> Option<String> {
        self.base_url
    }

    /// The base URL, for callers that read it through the contracts.
    pub fn base_url(&self) -> (r: Option<&str>)
        ensures
            match r {
                Some(u) => self.base() matches Some(b) && u@ == b@,
                None => self.base() is None,
            },
    {
        match &self.base_url {
            Some(b) => Some(b.as_str()),
            None => None,
        }
    }

    /// The [`Client`] over the middleware chain as it stands.
    pub fn finish(self) -> (r: Client)
        ensures
            r.base() == self.base(),
            r.settings() == self.settings(),
    {
        Client { inner: chain_build(self.chain), base_url: self.base_url }
    }

    /// The middleware chain builder and the base URL, for attaching further
    /// middleware (see [`Client::from_parts`]).
    pub fn into_parts(self) -> (r: (ChainBuilder, Option<String>))
        ensures
            r.1 == self.base(),
            http_client_timeout(chain_client(r.0)) == self.settings().timeout,
            http_client_headers(chain_client(r.0)) == self.settings().headers,
            chain_retry_layers(r.0) == self.settings().retry_layers,
            chain_has_initialisers(r.0) == self.settings().initialisers,
    {
        (self.chain, self.base_url)
    }
}

/// Clones a `ClientWithMiddleware`: the same client and middleware.
pub assume_specification[ <ClientWithMiddleware as Clone>::clone ](c: &ClientWithMiddleware) -> (r: ClientWithMiddleware)
    ensures
        r == *c,
;

/// A resilient HTTP client with retry, timeout, and typed JSON support.
#[derive(Debug)]
pub struct Client {
    inner: ClientWithMiddleware,
    /// Base URL prepended to every path.
    pub base_url: Option<String>,
}

impl Clone for Client {
    /// A client sharing this one's connection pool and middleware, with the
    /// same base URL.
    fn clone(&self) -> (r: Self)
        ensures
            opt_view(r.base()) == opt_view(self.base()),
            r.chain() == self.chain(),
    {
        let base_url = match &self.base_url {
            Some(b) => Some(b.clone()),
            None => None,
        };
        Client { inner: self.inner.clone(), base_url }
    }
}

impl Client {
    /// The base URL.
    pub closed spec fn base(&self) -> Option<String> {
        self.base_url
    }

    /// The base URL, for callers that read it through the contracts.
    pub fn base_url(&self) -> (r: Option<&str>)
        ensures
            match r {
                Some(u) => self.base() matches Some(b) && u@ == b@,
                None => self.base() is None,
            },
    {
        match &self.base_url {
            Some(b) => Some(b.as_str()),
            None => None,
        }
    }

    /// What the client is made of: the configuration calls of the
    /// `reqwest::ClientBuilder` its `reqwest::Client` was built from, and
    /// the settings of its retry layers.
    pub closed spec fn settings(&self) -> ClientSettings {
        ClientSettings {
            timeout: http_client_timeout(middleware_client(self.inner)),
            headers: http_client_headers(middleware_client(self.inner)),
            retry_layers: middleware_retry_layers(self.inner),
            initialisers: middleware_has_initialisers(self.inner),
        }
    }

    /// Where a request for `path` goes (see [`resolve`]).
    pub open spec fn target_of(&self, path: Seq<char>) -> Seq<char> {
        resolve(opt_view(self.base()), path)
    }

    /// Start building a client with custom settings.
    pub fn builder() -> (r: ClientBuilder)
        ensures
            r@ == ClientBuilder::default_view(),
            r.wf(),
    {
        ClientBuilder::new()
    }

    /// Construct a [`Client`] from a pre-built [`ClientWithMiddleware`] and
    /// an optional base URL.
    ///
    /// This is useful when you need to attach custom middleware (e.g. a
    /// circuit breaker from an external registry) that the builder does not
    /// natively support.
    pub fn from_parts(inner: ClientWithMiddleware, base_url: Option<String>) -> (r: Self)
        ensures
            r.base() == base_url,
            r.chain() == inner,
    {
        Client { inner, base_url }
    }

    /// The middleware chain.
    pub closed spec fn chain(&self) -> ClientWithMiddleware {
        self.inner
    }

    /// Resolve a path against the optional base URL (see [`resolve`]).
    pub fn resolve_url(&self, url: &str) -> (r: String)
        ensures
            r@ == self.target_of(url@),
    {
        match &self.base_url {
            Some(b) => resolve_against(Some(b.as_str()), url),
            None => resolve_against(None, url),
        }
    }

    /// Create a [`RequestBuilder`] for a GET request.
    pub fn get<U: Into<String>>(&self, url: U) -> (r: RequestBuilder<'_>)
        ensures
            r.client() == self,
            r.method() == Method::Get,
            r.options().len() == 0,
            !self.settings().initialisers ==> r.request() == get_request(self.chain(), r.target())
                && r.header_count() == 0,
            exists|p: String| call_ensures(<U as Into<String>>::into, (url,), p) && r.target()
                == self.target_of(p@),
    {
        let path: String = url.into();
        let target = self.resolve_url(path.as_str());
        let builder = chain_get(&self.inner, target.as_str());
        RequestBuilder { client: self, builder, method: Method::Get, target, options: Ghost(Seq::empty()) }
    }

    /// Create a [`RequestBuilder`] for a POST request.
    pub fn post<U: Into<String>>(&self, url: U) -> (r: RequestBuilder<'_>)
        ensures
            r.client() == self,
            r.method() == Method::Post,
            r.options().len() == 0,
            !self.settings().initialisers ==> r.request() == post_request(self.chain(), r.target())
                && r.header_count() == 0,
            exists|p: String| call_ensures(<U as Into<String>>::into, (url,), p) && r.target()
                == self.target_of(p@),
    {
        let path: String = url.into();
        let target = self.resolve_url(path.as_str());
        let builder = chain_post(&self.inner, target.as_str());
        RequestBuilder { client: self, builder, method: Method::Post, target, options: Ghost(Seq::empty()) }
    }

    /// Create a [`RequestBuilder`] for a PUT request.
    pub fn put<U: Into<String>>(&self, url: U) -> (r: RequestBuilder<'_>)
        ensures
            r.client() == self,
            r.method() == Method::Put,
            r.options().len() == 0,
            !self.settings().initialisers ==> r.request() == put_request(self.chain(), r.target())
                && r.header_count() == 0,
            exists|p: String| call_ensures(<U as Into<String>>::into, (url,), p) && r.target()
                == self.target_of(p@),
    {
        let path: String = url.into();
        let target = self.resolve_url(path.as_str());
        let builder = chain_put(&self.inner, target.as_str());
        RequestBuilder { client: self, builder, method: Method::Put, target, options: Ghost(Seq::empty()) }
    }

    /// Create a [`RequestBuilder`] for a DELETE request.
    pub fn delete<U: Into<String>>(&self, url: U) -> (r: RequestBuilder<'_>)
        ensures
            r.client() == self,
            r.method() == Method::Delete,
            r.options().len() == 0,
            !self.settings().initialisers ==> r.request() == delete_request(self.chain(), r.target())
                && r.header_count() == 0,
            exists|p: String| call_ensures(<U as Into<String>>::into, (url,), p) && r.target()
                == self.target_of(p@),
    {
        let path: String = url.into();
        let target = self.resolve_url(path.as_str());
        let builder = chain_delete(&self.inner, target.as_str());
        RequestBuilder { client: self, builder, method: Method::Delete, target, options: Ghost(Seq::empty()) }
    }

    /// Access the inner `reqwest_middleware::ClientWithMiddleware`.
    pub fn inner(&self) -> (r: &ClientWithMiddleware)
        ensures
            *r == self.chain(),
    {
        &self.inner
    }
}

/// The HTTP method of a request.
#[derive(Clone, Copy, Debug, PartialEq, Eq, Structural)]
pub enum Method {
    /// GET
    Get,
    /// POST
    Post,
    /// PUT
    Put,
    /// DELETE
    Delete,
}

/// The request `ClientWithMiddleware::get` starts on `c` for `url` when
/// `c` has no request initialisers.
pub uninterp spec fn get_request(c: ClientWithMiddleware, url: Seq<char>) -> ChainRequest;

/// Calls `reqwest_middleware::ClientWithMiddleware::get`.
#[verifier::external_body]
fn chain_get(c: &ClientWithMiddleware, url: &str) -> (r: ChainRequest)
    ensures
        !middleware_has_initialisers(*c) ==> r == get_request(*c, url@)
            && request_header_count(r) == 0,
{
    c.get(url)
}

/// The request `ClientWithMiddleware::post` starts on `c` for `url` when
/// `c` has no request initialisers.
pub uninterp spec fn post_request(c: ClientWithMiddleware, url: Seq<char>) -> ChainRequest;

/// Calls `reqwest_middleware::ClientWithMiddleware::post`.
#[verifier::external_body]
fn chain_post(c: &ClientWithMiddleware, url: &str) -> (r: ChainRequest)
    ensures
        !middleware_has_initialisers(*c) ==> r == post_request(*c, url@)
            && request_header_count(r) == 0,
{
    c.post(url)
}

/// The request `ClientWithMiddleware::put` starts on `c` for `url` when
/// `c` has no request initialisers.
pub uninterp spec fn put_request(c: ClientWithMiddleware, url: Seq<char>) -> ChainRequest;

/// Calls `reqwest_middleware::ClientWithMiddleware::put`.
#[verifier::external_body]
fn chain_put(c: &ClientWithMiddleware, url: &str) -> (r: ChainRequest)
    ensures
        !middleware_has_initialisers(*c) ==> r == put_request(*c, url@)
            && request_header_count(r) == 0,
{
    c.put(url)
}

/// The request `ClientWithMiddleware::delete` starts on `c` for `url` when
/// `c` has no request initialisers.
pub uninterp spec fn delete_request(c: ClientWithMiddleware, url: Seq<char>) -> ChainRequest;

/// Calls `reqwest_middleware::ClientWithMiddleware::delete`.
#[verifier::external_body]
fn chain_delete(c: &ClientWithMiddleware, url: &str) -> (r: ChainRequest)
    ensures
        !middleware_has_initialisers(*c) ==> r == delete_request(*c, url@)
            && request_header_count(r) == 0,
{
    c.delete(url)
}

/// A request being built: the underlying `reqwest_middleware` request
/// builder, with the method and the resolved URL it was started with.
pub struct RequestBuilder<'a> {
    client: &'a Client,
    builder: ChainRequest,
    method: Method,
    target: String,
    options: Ghost<Seq<RequestOption>>,
}

/// An option set on a request through [`RequestBuilder`], as the library
/// follows it: headers given as a map by their contents, a timeout by its
/// length, the others by their kind.
pub enum RequestOption {
    /// A total timeout of this many nanoseconds.
    Timeout(int),
    /// One header, given as a name and a value to convert.
    Header,
    /// The headers of a map, by name.
    Headers(Map<Seq<u8>, Seq<Seq<u8>>>),
    /// Query parameters appended to the URL.
    Query,
    /// A JSON body.
    Json,
    /// A form-encoded body.
    Form,
    /// A `Bearer` authorization header.
    BearerAuth,
    /// A `Basic` authorization header, with or without a password.
    BasicAuth { with_password: bool },
    /// A raw body.
    Body,
    /// A multipart body.
    Multipart,
}

impl<'a> RequestBuilder<'a> {
    /// The client the request was started from.
    pub closed spec fn client(&self) -> &'a Client {
        self.client
    }

    /// The request's method.
    pub closed spec fn method(&self) -> Method {
        self.method
    }

    /// The URL the request was started with.
    pub closed spec fn target(&self) -> Seq<char> {
        self.target@
    }

    /// The options set on the request so far, in the order they were set;
    /// the request goes out with all of them.
    pub closed spec fn options(&self) -> Seq<RequestOption> {
        self.options@
    }

    /// The underlying `reqwest_middleware` request builder.
    pub closed spec fn request(&self) -> ChainRequest {
        self.builder
    }

    /// Whether `r` is this request with only its options changed.
    pub open spec fn same_request(&self, r: RequestBuilder<'a>) -> bool {
        &&& r.client() == self.client()
        &&& r.method() == self.method()
        &&& r.target() == self.target()
    }

    /// The URL the request was started with.
    pub fn url(&self) -> (r: &str)
        ensures
            r@ == self.target(),
    {
        self.target.as_str()
    }

    /// The request's method.
    pub fn http_method(&self) -> (r: Method)
        ensures
            r == self.method(),
    {
        self.method
    }

    /// The underlying `reqwest_middleware` request builder, to send.
    pub fn into_inner(self) -> (r: ChainRequest)
        ensures
            r == self.request(),
    {
        self.builder
    }

    /// The number of header names the request holds.
    pub open spec fn header_count(&self) -> nat {
        request_header_count(self.request())
    }

    /// Override the request timeout.
    pub fn timeout(self, timeout: Duration) -> (r: Self)
        ensures
            self.same_request(r),
            r.options() == self.options().push(RequestOption::Timeout(duration_nanos(timeout))),
            r.request() == timeout_request(self.request(), timeout),
            r.header_count() <= self.header_count(),
    {
        let ghost options = self.options@.push(RequestOption::Timeout(duration_nanos(timeout)));
        let builder = request_timeout(self.builder, timeout);
        RequestBuilder { builder, options: Ghost(options), ..self }
    }

    /// Add a single header.
    pub fn header<K, V>(self, key: K, value: V) -> (r: Self)
        where
            http::header::HeaderName: TryFrom<K>,
            <http::header::HeaderName as TryFrom<K>>::Error: Into<http::Error>,
            http::HeaderValue: TryFrom<V>,
            <http::HeaderValue as TryFrom<V>>::Error: Into<http::Error>,
        requires
            self.header_count() < header_name_limit(),
        ensures
            self.same_request(r),
            r.options() == self.options().push(RequestOption::Header),
            r.header_count() <= self.header_count() + 1,
    {
        let ghost options = self.options@.push(RequestOption::Header);
        let builder = request_header(self.builder, key, value);
        RequestBuilder { builder, options: Ghost(options), ..self }
    }

    /// Set all headers from a `HeaderMap`: each of its names replaces what
    /// the request held under it.
    pub fn headers(self, headers: http::HeaderMap) -> (r: Self)
        requires
            header_map_contents(headers).dom().finite(),
            self.header_count() + header_map_contents(headers).dom().len() < header_name_limit(),
        ensures
            self.same_request(r),
            r.options() == self.options().push(RequestOption::Headers(header_map_contents(headers))),
            r.request() == headers_request(self.request(), headers),
            r.header_count() <= self.header_count() + header_map_contents(headers).dom().len(),
    {
        let ghost options = self.options@.push(RequestOption::Headers(header_map_contents(headers)));
        let builder = request_headers(self.builder, headers);
        RequestBuilder { builder, options: Ghost(options), ..self }
    }

    /// Append query parameters.
    pub fn query<T: serde::Serialize + ?Sized>(self, params: &T) -> (r: Self)
        ensures
            self.same_request(r),
            r.options() == self.options().push(RequestOption::Query),
            r.header_count() <= self.header_count(),
    {
        let ghost options = self.options@.push(RequestOption::Query);
        let builder = request_query(self.builder, params);
        RequestBuilder { builder, options: Ghost(options), ..self }
    }

    /// Set a JSON body.
    pub fn json<T: serde::Serialize + ?Sized>(self, body: &T) -> (r: Self)
        requires
            self.header_count() < header_name_limit(),
        ensures
            self.same_request(r),
            r.options() == self.options().push(RequestOption::Json),
            r.header_count() <= self.header_count() + 1,
    {
        let ghost options = self.options@.push(RequestOption::Json);
        let builder = request_json(self.builder, body);
        RequestBuilder { builder, options: Ghost(options), ..self }
    }

    /// Set form-encoded body from a serializable value.
    pub fn form<T: serde::Serialize + ?Sized>(self, form: &T) -> (r: Self)
        requires
            self.header_count() < header_name_limit(),
        ensures
            self.same_request(r),
            r.options() == self.options().push(RequestOption::Form),
            r.header_count() <= self.header_count() + 1,
    {
        let ghost options = self.options@.push(RequestOption::Form);
        let builder = request_form(self.builder, form);
        RequestBuilder { builder, options: Ghost(options), ..self }
    }

    /// Set a `Bearer` authorization token: the token's text.
    pub fn bearer_auth<T: std::fmt::Display>(self, token: T) -> (r: Self)
        requires
            self.header_count() < header_name_limit(),
        ensures
            self.same_request(r),
            r.options() == self.options().push(RequestOption::BearerAuth),
            exists|text: String|
                #[trigger] to_string_from_display_ensures::<T>(&token, text) && r.request()
                    == bearer_request(self.request(), text@),
            r.header_count() <= self.header_count() + 1,
    {
        let ghost options = self.options@.push(RequestOption::BearerAuth);
        let text = token.to_string();
        let builder = request_bearer_auth(self.builder, text);
        RequestBuilder { builder, options: Ghost(options), ..self }
    }

    /// Set HTTP basic auth credentials: the username's text and, when there
    /// is a password, its text.
    pub fn basic_auth<U: std::fmt::Display, P: std::fmt::Display>(
        self,
        username: U,
        password: Option<P>,
    ) -> (r: Self)
        requires
            self.header_count() < header_name_limit(),
        ensures
            self.same_request(r),
            r.options() == self.options().push(
                (RequestOption::BasicAuth { with_password: password is Some }),
            ),
            exists|user: String, pass: Option<String>|
                #![trigger to_string_from_display_ensures::<U>(&username, user), password_text(password, pass)]
                to_string_from_display_ensures::<U>(&username, user) && password_text(password, pass)
                    && r.request() == basic_request(self.request(), user@, opt_view(pass)),
            r.header_count() <= self.header_count() + 1,
    {
        let ghost options = self.options@.push(
            (RequestOption::BasicAuth { with_password: password is Some }),
        );
        let user = username.to_string();
        let pass = match &password {
            Some(p) => Some(p.to_string()),
            None => None,
        };
        let ghost g_user = user;
        let ghost g_pass = pass;
        assert(password_text(password, g_pass));
        assert(to_string_from_display_ensures::<U>(&username, g_user));
        let builder = request_basic_auth(self.builder, user, pass);
        RequestBuilder { builder, options: Ghost(options), ..self }
    }

    /// Set the request body directly: the body `body` converts into.
    pub fn body<T: Into<reqwest::Body>>(self, body: T) -> (r: Self)
        ensures
            self.same_request(r),
            r.options() == self.options().push(RequestOption::Body),
            exists|b: reqwest::Body|
                #[trigger] call_ensures(<T as Into<reqwest::Body>>::into, (body,), b) && r.request()
                    == body_request(self.request(), b),
            r.header_count() <= self.header_count(),
    {
        let ghost options = self.options@.push(RequestOption::Body);
        let converted: reqwest::Body = body.into();
        let builder = request_body(self.builder, converted);
        RequestBuilder { builder, options: Ghost(options), ..self }
    }

    /// Set a multipart form body.
    pub fn multipart(self, form: reqwest::multipart::Form) -> (r: Self)
        requires
            self.header_count() + 1 < header_name_limit(),
        ensures
            self.same_request(r),
            r.options() == self.options().push(RequestOption::Multipart),
            r.request() == multipart_request(self.request(), form),
            r.header_count() <= self.header_count() + 2,
    {
        let ghost options = self.options@.push(RequestOption::Multipart);
        let builder = request_multipart(self.builder, form);
        RequestBuilder { builder, options: Ghost(options), ..self }
    }
}

/// Whether `text` is the text of `password`: `None` for no password, the
/// password's `Display` rendering otherwise.
pub open spec fn password_text<P: std::fmt::Display>(password: Option<P>, text: Option<String>) -> bool {
    match password {
        Some(p) => text matches Some(t) && to_string_from_display_ensures::<P>(&p, t),
        None => text is None,
    }
}

#[verifier::external_type_specification]
#[verifier::external_body]
pub struct ExChainRequest(ChainRequest);

#[verifier::external_type_specification]
#[verifier::external_body]
pub struct ExHeaderName(http::header::HeaderName);

#[verifier::external_type_specification]
#[verifier::external_body]
pub struct ExHttpError(http::Error);

#[verifier::external_type_specification]
#[verifier::external_body]
pub struct ExBody(reqwest::Body);

#[verifier::external_type_specification]
#[verifier::external_body]
pub struct ExForm(reqwest::multipart::Form);

/// The number of header names a `reqwest_middleware::RequestBuilder`'s
/// request holds (none once building the request has failed).
pub uninterp spec fn request_header_count(b: ChainRequest) -> nat;

/// The request `reqwest_middleware::RequestBuilder::timeout` makes of `b`
/// with `timeout`.
pub uninterp spec fn timeout_request(b: ChainRequest, timeout: Duration) -> ChainRequest;

/// Calls `reqwest_middleware::RequestBuilder::timeout`, which leaves the
/// headers alone.
#[verifier::external_body]
fn request_timeout(b: ChainRequest, timeout: Duration) -> (r: ChainRequest)
    ensures
        r == timeout_request(b, timeout),
        request_header_count(r) <= request_header_count(b),
{
    b.timeout(timeout)
}

/// Calls `reqwest_middleware::RequestBuilder::header`, which appends one
/// header (or, when the name or value is rejected, fails the request).
#[verifier::external_body]
fn request_header<K, V>(b: ChainRequest, key: K, value: V) -> (r: ChainRequest)
    where
        http::header::HeaderName: TryFrom<K>,
        <http::header::HeaderName as TryFrom<K>>::Error: Into<http::Error>,
        http::HeaderValue: TryFrom<V>,
        <http::HeaderValue as TryFrom<V>>::Error: Into<http::Error>,
    requires
        request_header_count(b) < header_name_limit(),
    ensures
        request_header_count(r) <= request_header_count(b) + 1,
{
    b.header(key, value)
}

/// The request `reqwest_middleware::RequestBuilder::headers` makes of `b`
/// with `headers`.
pub uninterp spec fn headers_request(b: ChainRequest, headers: http::HeaderMap) -> ChainRequest;

/// Calls `reqwest_middleware::RequestBuilder::headers`, which stores each
/// name of `headers` in turn.
#[verifier::external_body]
fn request_headers(b: ChainRequest, headers: http::HeaderMap) -> (r: ChainRequest)
    requires
        header_map_contents(headers).dom().finite(),
        request_header_count(b) + header_map_contents(headers).dom().len() < header_name_limit(),
    ensures
        r == headers_request(b, headers),
        request_header_count(r) <= request_header_count(b) + header_map_contents(headers).dom().len(),
{
    b.headers(headers)
}

/// Calls `reqwest_middleware::RequestBuilder::query`, which changes only
/// the URL (or fails the request).
#[verifier::external_body]
fn request_query<T: serde::Serialize + ?Sized>(b: ChainRequest, params: &T) -> (r: ChainRequest)
    ensures
        request_header_count(r) <= request_header_count(b),
{
    b.query(params)
}

/// Calls `reqwest_middleware::RequestBuilder::json`, which may add a
/// `content-type` header.
#[verifier::external_body]
fn request_json<T: serde::Serialize + ?Sized>(b: ChainRequest, body: &T) -> (r: ChainRequest)
    requires
        request_header_count(b) < header_name_limit(),
    ensures
        request_header_count(r) <= request_header_count(b) + 1,
{
    b.json(body)
}

/// Calls `reqwest_middleware::RequestBuilder::form`, which may add a
/// `content-type` header.
#[verifier::external_body]
fn request_form<T: serde::Serialize + ?Sized>(b: ChainRequest, form: &T) -> (r: ChainRequest)
    requires
        request_header_count(b) < header_name_limit(),
    ensures
        request_header_count(r) <= request_header_count(b) + 1,
{
    b.form(form)
}

/// The request `reqwest_middleware::RequestBuilder::bearer_auth` makes of
/// `b` with a token of text `token`.
pub uninterp spec fn bearer_request(b: ChainRequest, token: Seq<char>) -> ChainRequest;

/// Calls `reqwest_middleware::RequestBuilder::bearer_auth`, which appends an
/// `authorization` header.
#[verifier::external_body]
fn request_bearer_auth(b: ChainRequest, token: String) -> (r: ChainRequest)
    requires
        request_header_count(b) < header_name_limit(),
    ensures
        r == bearer_request(b, token@),
        request_header_count(r) <= request_header_count(b) + 1,
{
    b.bearer_auth(token)
}

/// The request `reqwest_middleware::RequestBuilder::basic_auth` makes of
/// `b` with these credentials' texts.
pub uninterp spec fn basic_request(
    b: ChainRequest,
    username: Seq<char>,
    password: Option<Seq<char>>,
) -> ChainRequest;

/// Calls `reqwest_middleware::RequestBuilder::basic_auth`, which appends an
/// `authorization` header.
#[verifier::external_body]
fn request_basic_auth(b: ChainRequest, username: String, password: Option<String>) -> (r:
    ChainRequest)
    requires
        request_header_count(b) < header_name_limit(),
    ensures
        r == basic_request(b, username@, opt_view(password)),
        request_header_count(r) <= request_header_count(b) + 1,
{
    b.basic_auth(username, password)
}

/// The request `reqwest_middleware::RequestBuilder::body` makes of `b` with
/// `body`.
pub uninterp spec fn body_request(b: ChainRequest, body: reqwest::Body) -> ChainRequest;

/// Calls `reqwest_middleware::RequestBuilder::body`, which leaves the
/// headers alone.
#[verifier::external_body]
fn request_body(b: ChainRequest, body: reqwest::Body) -> (r: ChainRequest)
    ensures
        r == body_request(b, body),
        request_header_count(r) <= request_header_count(b),
{
    b.body(body)
}

/// The request `reqwest_middleware::RequestBuilder::multipart` makes of `b`
/// with `form`.
pub uninterp spec fn multipart_request(b: ChainRequest, form: reqwest::multipart::Form) -> ChainRequest;

/// Calls `reqwest_middleware::RequestBuilder::multipart`, which adds a
/// `content-type` header and, when the length is known, a `content-length`
/// header.
#[verifier::external_body]
fn request_multipart(b: ChainRequest, form: reqwest::multipart::Form) -> (r: ChainRequest)
    requires
        request_header_count(b) + 1 < header_name_limit(),
    ensures
        r == multipart_request(b, form),
        request_header_count(r) <= request_header_count(b) + 2,
{
    b.multipart(form)
}

} // verus!
