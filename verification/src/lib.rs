//! The core of a client that submits experiment metrics to a Trackio
//! dashboard: buffering, batching and endpoint discovery, without any I/O.
//!
//! The caller owns the transport. Every operation that would need the network
//! hands back a [`client::Submission`] that says what to POST; the caller
//! performs the request and reports how it ended.

pub mod batcher;
pub mod client;
pub mod deps;
pub mod error;
pub mod item;
pub mod payload;
pub mod resolver;
pub mod settings;
pub mod transport;

pub use batcher::Batcher;
pub use client::{Client, Progress, Submission};
pub use error::TrackioError;
pub use item::LogItem;
pub use payload::BulkPayload;
pub use resolver::{EndpointResolver, Route, Step};
pub use settings::{EnvValues, Settings};
pub use transport::HttpOutcome;
