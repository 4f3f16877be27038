//! Resilient HTTP client: URL resolution, retry and circuit-breaker policy,
//! status classification and error mapping, over `reqwest-middleware`.

pub mod client;
pub mod error;
pub mod failure;
pub mod headers;
pub mod middleware;
pub mod recording;
pub mod retry;
pub mod status;
pub mod time;
pub mod url;

pub use client::{Client, ClientBuilder, Method, PreparedClient, RequestBuilder};
pub use error::FetchError;
pub use reqwest::Response;
