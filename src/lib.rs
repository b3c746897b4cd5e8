//! A client library for the SauceNAO reverse image search API.
//!
//! The library builds search URLs, checks search arguments, turns a decoded
//! server reply into search results, keeps the rate-limit counters that the
//! server reports, and renders results as JSON text.

pub mod builder;
pub mod error;
pub mod handler;
pub mod json;
pub mod mask;
pub mod response;
pub mod sauce;
pub mod sources;
pub mod text;

pub use builder::HandlerBuilder;
pub use error::Error;
pub use handler::{Handler, SearchRequest};
pub use json::JsonValue;
pub use response::{ResponseHeader, ResultEntry, SearchResponse};
pub use sauce::{Sauce, ToJSON};
