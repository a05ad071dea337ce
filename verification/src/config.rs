//! Configuration consumed by the cache layer and the request service.
//!
//! Durations are whole seconds; an absent duration means an infinite
//! interval (the entry never expires for that reason).

use vstd::prelude::*;

verus! {

/// Which artifact family a cache stores. Failure outcomes that have no
/// on-disk sentinel of their own borrow their expiration strategy from the
/// cache kind.
#[derive(Debug, Clone, Copy, PartialEq, Eq, Structural)]
pub enum CacheKind {
    /// Raw downloads: ambiguous failures cool off like misses.
    Downloaded,
    /// Artifacts derived from downloads: ambiguous failures count as
    /// malformed conversions.
    Derived,
    /// Diagnostics dumps: ambiguous failures idle out like positives.
    Diagnostics,
}

/// User-configurable retention options of one named cache.
#[derive(Debug, Clone, Copy, PartialEq, Eq, Structural)]
pub struct CacheConfig {
    /// The kind tag deciding the strategy of sentinel-less failures.
    pub kind: CacheKind,
    /// Idle time-to-live of positive entries, in seconds.
    pub max_unused_for: Option<u64>,
    /// Cool-off after a failed lookup, in seconds.
    pub retry_misses_after: Option<u64>,
    /// Cool-off after a malformed conversion, in seconds.
    pub retry_malformed_after: Option<u64>,
}

/// Options of the in-memory caches.
#[derive(Debug, Clone, PartialEq, Eq, Structural)]
pub struct InMemoryCacheConfig {
    /// Time-to-live of the in-memory index of the monitoring backend's
    /// source listings, in seconds.
    pub sentry_index_ttl: u64,
}

/// Cache options grouped by storage.
#[derive(Debug, Clone, PartialEq, Eq, Structural)]
pub struct CacheConfigs {
    /// Options of the in-memory caches.
    pub in_memory: InMemoryCacheConfig,
}

/// Service-wide configuration.
#[derive(Debug, Clone)]
pub struct Config {
    /// Root directory of the filesystem caches; absent when caching is
    /// disabled.
    pub cache_dir: Option<String>,
    /// Whether outbound fetches of untrusted sources may reach reserved
    /// IP blocks.
    pub connect_to_reserved_ips: bool,
    /// Upper bound on simultaneously running symbolication jobs; absent
    /// means unbounded.
    pub max_concurrent_requests: Option<usize>,
    /// Cache options.
    pub caches: CacheConfigs,
}

} // verus!
