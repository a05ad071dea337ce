//! Core logic of a crash-report symbolication service: the on-disk cache
//! layer (entry codec, expiration policy, filesystem cache decisions), the
//! outbound HTTP guard for reserved IP ranges, the statsd metrics
//! computations, and the request service that dispatches symbolication jobs.

pub mod cache;
pub mod config;
pub mod http;
pub mod metrics;
pub mod service;
