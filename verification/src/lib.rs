//! Core logic of a proxy-aware URL fetcher: composing a proxy URL from an
//! optional (protocol, ip, port) triple, classifying the outcome of a single
//! HTTP GET into a normalized response, and a greeting formatter.
//!
//! The network calls themselves are performed by the surrounding application;
//! this crate holds the decisions and the string construction, all verified.

pub mod digits;
pub mod fetch;
pub mod greeting;

pub use digits::u16_decimal;
pub use fetch::{proxy_url, response_of, FetchOutcome, FetchResponse};
pub use greeting::greet;
