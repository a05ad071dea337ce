//! The filesystem cache layer: entry codec, expiration policy, and the
//! decisions of the per-named-cache directory abstraction.
//!
//! A cache file's contents encode one of three outcomes: an empty file is a
//! remembered miss, the nine-byte `malformed` sentinel is a remembered failed
//! conversion, and anything else is the artifact itself. The file's mtime is
//! the single timestamp the layer relies on: it means "last used" for
//! positive entries and "created" for negative and malformed ones.
//!
//! All functions here work on plain values (bytes, seconds); reading files,
//! bumping mtimes and creating temporary files is the embedding program's
//! part, driven by the results computed here.

use vstd::prelude::*;

use crate::config::{CacheConfig, CacheKind};
use core::sync::atomic::AtomicIsize;
use std::sync::Arc;

verus! {

/// The interval, in seconds, in which positive cache entries are touched.
/// Touching is debounced to once per interval so a hot entry is not bumped
/// on every read.
pub const TOUCH_EVERY: u64 = 3600;

/// How often the temp-file creation ritual is retried after the external
/// cleaner swept the temporary directory away mid-operation.
pub const MAX_TEMPFILE_RETRIES: u64 = 2;

/// Names of the distinct on-disk caches, one per artifact kind. Used as a
/// metric-tag value and as a subdirectory name.
#[derive(Debug, Clone, Copy, PartialEq, Eq, Structural)]
pub enum CacheName {
    Objects,
    ObjectMeta,
    Auxdifs,
    Symcaches,
    Cficaches,
    PpdbCaches,
    Diagnostics,
}

impl CacheName {
    /// The metric-tag and subdirectory spelling of the name.
    pub fn as_str(&self) -> (r: &'static str)
        ensures
            match *self {
                CacheName::Objects => r@ == "objects"@,
                CacheName::ObjectMeta => r@ == "object_meta"@,
                CacheName::Auxdifs => r@ == "auxdifs"@,
                CacheName::Symcaches => r@ == "symcaches"@,
                CacheName::Cficaches => r@ == "cficaches"@,
                CacheName::PpdbCaches => r@ == "ppdb_caches"@,
                CacheName::Diagnostics => r@ == "diagnostics"@,
            },
    {
        match *self {
            CacheName::Objects => "objects",
            CacheName::ObjectMeta => "object_meta",
            CacheName::Auxdifs => "auxdifs",
            CacheName::Symcaches => "symcaches",
            CacheName::Cficaches => "cficaches",
            CacheName::PpdbCaches => "ppdb_caches",
            CacheName::Diagnostics => "diagnostics",
        }
    }
}

/// Why a cache lookup or conversion failed.
#[derive(Debug, Clone, PartialEq, Eq)]
pub enum CacheError {
    /// The object was not found at the source.
    NotFound,
    /// A conversion produced an invalid artifact; the payload is the reason.
    Malformed(String),
    /// The computation timed out.
    Timeout,
    /// Downloading the object failed; the payload is the reason.
    DownloadError(String),
    /// The source denied access.
    PermissionDenied,
    /// An unexpected internal failure.
    InternalError,
}

/// The outcome of a cache lookup: the artifact's bytes, or why there are
/// none.
pub type CacheEntry<T> = Result<T, CacheError>;

/// Ghost model of what one on-disk cache file means.
pub enum EntryOutcome {
    /// The file holds the artifact itself.
    Positive(Seq<u8>),
    /// The file remembers a failed lookup.
    NotFound,
    /// The file remembers a failed conversion.
    Malformed,
}

/// The nine ASCII bytes of `malformed`, the sentinel contents of a cache
/// file remembering a failed conversion.
pub open spec fn malformed_marker() -> Seq<u8> {
    seq![109u8, 97u8, 108u8, 102u8, 111u8, 114u8, 109u8, 101u8, 100u8]
}

/// What a cache file with contents `b` means: empty files are remembered
/// misses, the sentinel is a remembered failed conversion, anything else is
/// the artifact. Total on all byte sequences.
pub open spec fn decoded(b: Seq<u8>) -> EntryOutcome {
    if b.len() == 0 {
        EntryOutcome::NotFound
    } else if b == malformed_marker() {
        EntryOutcome::Malformed
    } else {
        EntryOutcome::Positive(b)
    }
}

/// The bytes written for an outcome. Outcomes other than the two sentinels
/// carry the artifact through unchanged.
pub open spec fn encoded(o: EntryOutcome) -> Seq<u8> {
    match o {
        EntryOutcome::Positive(b) => b,
        EntryOutcome::NotFound => Seq::empty(),
        EntryOutcome::Malformed => malformed_marker(),
    }
}

/// Whether the in-memory entry `e` faithfully represents the decoded
/// outcome `o`: positive bytes match, a remembered miss is `NotFound`, and
/// a remembered failed conversion is `Malformed` with an empty reason.
pub open spec fn entry_represents(e: CacheEntry<Vec<u8>>, o: EntryOutcome) -> bool {
    match e {
        Ok(v) => o == EntryOutcome::Positive(v@),
        Err(err) => match err {
            CacheError::NotFound => o == EntryOutcome::NotFound,
            CacheError::Malformed(m) => o == EntryOutcome::Malformed && m@ == Seq::<char>::empty(),
            _ => false,
        },
    }
}

/// The outcome under which an entry is written back to disk. Errors without
/// a sentinel of their own are collapsed onto the malformed sentinel; a
/// richer on-disk format would invalidate existing caches.
pub open spec fn write_outcome(e: CacheEntry<Vec<u8>>) -> EntryOutcome {
    match e {
        Ok(v) => EntryOutcome::Positive(v@),
        Err(CacheError::NotFound) => EntryOutcome::NotFound,
        Err(_) => EntryOutcome::Malformed,
    }
}

/// Whether `b` spells exactly the `malformed` sentinel.
fn is_malformed_marker(b: &Vec<u8>) -> (r: bool)
    ensures
        r == (b@ == malformed_marker()),
{
    let marker: Vec<u8> = vec![109u8, 97u8, 108u8, 102u8, 111u8, 114u8, 109u8, 101u8, 100u8];
    proof {
        assert(marker@ =~= malformed_marker());
    }
    if b.len() != marker.len() {
        return false;
    }
    let mut i: usize = 0;
    while i < marker.len()
        invariant
            marker@ =~= malformed_marker(),
            b@.len() == marker@.len(),
            i <= marker@.len(),
            forall|j: int| 0 <= j < i ==> b@[j] == marker@[j],
        decreases marker@.len() - i,
    {
        if b[i] != marker[i] {
            return false;
        }
        i = i + 1;
    }
    proof {
        assert(b@ =~= malformed_marker());
    }
    true
}

/// Decodes the contents of a cache file into a cache entry. Total: every
/// byte sequence means something.
pub fn cache_entry_from_bytes(bytes: Vec<u8>) -> (r: CacheEntry<Vec<u8>>)
    ensures
        entry_represents(r, decoded(bytes@)),
{
    if bytes.len() == 0 {
        Err(CacheError::NotFound)
    } else if is_malformed_marker(&bytes) {
        Err(CacheError::Malformed(String::new()))
    } else {
        Ok(bytes)
    }
}

/// Encodes a cache entry as the contents of a cache file. A positive
/// artifact must be distinguishable from the two sentinels; writers pad or
/// otherwise disambiguate such payloads before they reach the cache.
pub fn cache_entry_to_bytes(entry: CacheEntry<Vec<u8>>) -> (r: Vec<u8>)
    requires
        entry matches Ok(v) ==> v@.len() != 0 && v@ != malformed_marker(),
    ensures
        r@ == encoded(write_outcome(entry)),
{
    match entry {
        Ok(v) => v,
        Err(CacheError::NotFound) => Vec::new(),
        Err(_) => {
            let marker: Vec<u8> = vec![
                109u8,
                97u8,
                108u8,
                102u8,
                111u8,
                114u8,
                109u8,
                101u8,
                100u8,
            ];
            proof {
                assert(marker@ =~= malformed_marker());
            }
            marker
        },
    }
}

/// Codec round-trip: any payload that is neither empty nor the sentinel
/// decodes back to itself, and the two sentinels decode to the failures
/// they stand for.
pub proof fn lemma_codec_round_trip(b: Seq<u8>)
    requires
        b.len() != 0,
        b != malformed_marker(),
    ensures
        decoded(encoded(EntryOutcome::Positive(b))) == EntryOutcome::Positive(b),
        decoded(encoded(EntryOutcome::NotFound)) == EntryOutcome::NotFound,
        decoded(encoded(EntryOutcome::Malformed)) == EntryOutcome::Malformed,
{
}

/// Expiration strategies for cache entries, named after the entry kind they
/// apply to rather than the mechanism.
#[derive(Debug, Clone, Copy, PartialEq, Eq, Structural)]
pub enum ExpirationStrategy {
    /// Positive entries: clean up after the entry sits unused for a fixed
    /// period.
    Positive,
    /// Clean up after a forced cool-off so the lookup can be retried.
    Negative,
    /// Like `Negative`, and additionally expire entries created before the
    /// running process started.
    Malformed,
}

/// When a cache entry next needs attention, in seconds.
#[derive(Debug, Clone, Copy, PartialEq, Eq, Structural)]
pub enum ExpirationTime {
    /// A negative or malformed entry expires and needs recomputing after
    /// this long.
    RefreshIn(u64),
    /// A positive entry needs its mtime bumped after this long to stay
    /// alive.
    TouchIn(u64),
}

/// A configured duration limit, with absence meaning "never".
pub open spec fn limit_or_max(limit: Option<u64>) -> u64 {
    match limit {
        Some(l) => l,
        None => u64::MAX,
    }
}

/// Seconds between a file's mtime and the current wall clock; a file
/// stamped in the future counts as age zero.
pub open spec fn elapsed_since(mtime: u64, now: u64) -> int {
    if now >= mtime {
        now - mtime
    } else {
        0
    }
}

/// Saturating subtraction on mathematical integers.
pub open spec fn sub_or_zero(a: int, b: int) -> int {
    if a >= b {
        a - b
    } else {
        0
    }
}

/// The rule table assigning a strategy to an entry: positives idle out,
/// remembered misses cool off, malformed conversions cool off with the
/// pre-restart rule, and errors without their own sentinel borrow the
/// strategy of the cache kind.
pub open spec fn spec_expiration_strategy<T>(
    config: CacheConfig,
    status: CacheEntry<T>,
) -> ExpirationStrategy {
    match status {
        Ok(_) => ExpirationStrategy::Positive,
        Err(CacheError::NotFound) => ExpirationStrategy::Negative,
        Err(CacheError::Malformed(_)) => ExpirationStrategy::Malformed,
        Err(_) => match config.kind {
            CacheKind::Downloaded => ExpirationStrategy::Negative,
            CacheKind::Derived => ExpirationStrategy::Malformed,
            CacheKind::Diagnostics => ExpirationStrategy::Positive,
        },
    }
}

/// The strategy of an entry as decoded from disk; decoding never yields a
/// sentinel-less error, so the cache kind plays no part here.
pub open spec fn strategy_of_outcome(o: EntryOutcome) -> ExpirationStrategy {
    match o {
        EntryOutcome::Positive(_) => ExpirationStrategy::Positive,
        EntryOutcome::NotFound => ExpirationStrategy::Negative,
        EntryOutcome::Malformed => ExpirationStrategy::Malformed,
    }
}

/// Whether an entry with the given strategy, stamped `mtime`, is expired at
/// wall clock `now` for a process that started at `start_time`.
pub open spec fn spec_expired(
    strategy: ExpirationStrategy,
    config: CacheConfig,
    mtime: u64,
    start_time: u64,
    now: u64,
) -> bool {
    match strategy {
        ExpirationStrategy::Positive => elapsed_since(mtime, now) > limit_or_max(
            config.max_unused_for,
        ),
        ExpirationStrategy::Negative => sub_or_zero(
            limit_or_max(config.retry_misses_after) as int,
            elapsed_since(mtime, now),
        ) == 0,
        ExpirationStrategy::Malformed => mtime < start_time || sub_or_zero(
            limit_or_max(config.retry_malformed_after) as int,
            elapsed_since(mtime, now),
        ) == 0,
    }
}

/// The next-action time of an unexpired entry: positives are touched when
/// the touch interval has run out, failures are refreshed when their
/// cool-off has.
pub open spec fn spec_expiration_time(
    strategy: ExpirationStrategy,
    config: CacheConfig,
    mtime: u64,
    now: u64,
) -> ExpirationTime {
    match strategy {
        ExpirationStrategy::Positive => ExpirationTime::TouchIn(
            sub_or_zero(TOUCH_EVERY as int, elapsed_since(mtime, now)) as u64,
        ),
        ExpirationStrategy::Negative => ExpirationTime::RefreshIn(
            sub_or_zero(
                limit_or_max(config.retry_misses_after) as int,
                elapsed_since(mtime, now),
            ) as u64,
        ),
        ExpirationStrategy::Malformed => ExpirationTime::RefreshIn(
            sub_or_zero(
                limit_or_max(config.retry_malformed_after) as int,
                elapsed_since(mtime, now),
            ) as u64,
        ),
    }
}

/// The cleanup strategy for the entry `status` of a cache configured with
/// `cache_config`, per the rule table.
pub fn expiration_strategy<T>(
    cache_config: &CacheConfig,
    status: &CacheEntry<T>,
) -> (r: ExpirationStrategy)
    ensures
        r == spec_expiration_strategy(*cache_config, *status),
{
    match status {
        Ok(_) => ExpirationStrategy::Positive,
        Err(CacheError::NotFound) => ExpirationStrategy::Negative,
        Err(CacheError::Malformed(_)) => ExpirationStrategy::Malformed,
        Err(_) => match cache_config.kind {
            CacheKind::Downloaded => ExpirationStrategy::Negative,
            CacheKind::Derived => ExpirationStrategy::Malformed,
            CacheKind::Diagnostics => ExpirationStrategy::Positive,
        },
    }
}

/// Strategy totality: every configuration and entry variant is assigned
/// exactly one strategy, the one the rule table names.
pub proof fn lemma_strategy_rule_table<T>(config: CacheConfig, status: CacheEntry<T>)
    ensures
        status matches Ok(_) ==> spec_expiration_strategy(config, status)
            == ExpirationStrategy::Positive,
        status matches Err(e) && e is NotFound ==> spec_expiration_strategy(config, status)
            == ExpirationStrategy::Negative,
        status matches Err(e) && e is Malformed ==> spec_expiration_strategy(config, status)
            == ExpirationStrategy::Malformed,
        status matches Err(e) && !(e is NotFound) && !(e is Malformed)
            ==> spec_expiration_strategy(config, status) == (match config.kind {
            CacheKind::Downloaded => ExpirationStrategy::Negative,
            CacheKind::Derived => ExpirationStrategy::Malformed,
            CacheKind::Diagnostics => ExpirationStrategy::Positive,
        }),
{
}

/// Errors of the filesystem cache's decision functions. `NotFound` marks a
/// clean miss; an external cleaner may remove entries at any time, so a
/// miss is never an error worth surfacing.
#[derive(Debug, Clone, PartialEq, Eq)]
pub enum IoError {
    /// The entry is absent or expired: a cache miss.
    NotFound,
    /// Any other failure, with its description.
    Other(String),
}

/// Turns a `NotFound` failure into a clean miss and passes everything else
/// through: the recovery policy of every cache read path.
pub fn catch_not_found<R>(result: Result<R, IoError>) -> (r: Result<Option<R>, IoError>)
    ensures
        ({
            match result {
                Ok(x) => r == Ok::<Option<R>, IoError>(Some(x)),
                Err(e) => if e is NotFound {
                    r == Ok::<Option<R>, IoError>(None)
                } else {
                    r == Err::<Option<R>, IoError>(e)
                },
            }
        }),
{
    match result {
        Ok(x) => Ok(Some(x)),
        Err(e) => match e {
            IoError::NotFound => Ok(None),
            _ => Err(e),
        },
    }
}

/// The runtime handle of one named on-disk cache.
///
/// `cache_dir` and `tmp_dir` are either both present or both absent; absent
/// means the cache is disabled. `start_time` is the wall-clock second the
/// process started at, used to expire malformed entries left behind by an
/// earlier process. `max_lazy_refreshes` is a shared token counter callers
/// use to cap speculative refreshes; the cache only hands the counter out.
#[derive(Debug, Clone)]
pub struct Cache {
    name: CacheName,
    cache_dir: Option<String>,
    tmp_dir: Option<String>,
    start_time: u64,
    cache_config: CacheConfig,
    max_lazy_refreshes: Arc<AtomicIsize>,
}

impl Cache {
    /// The cache's name.
    pub closed spec fn spec_name(&self) -> CacheName {
        self.name
    }

    /// The cache's directory, absent when the cache is disabled.
    pub closed spec fn spec_cache_dir(&self) -> Option<String> {
        self.cache_dir
    }

    /// The sibling directory for temporary files, absent when disabled.
    pub closed spec fn spec_tmp_dir(&self) -> Option<String> {
        self.tmp_dir
    }

    /// The wall-clock second the owning process started at.
    pub closed spec fn spec_start_time(&self) -> u64 {
        self.start_time
    }

    /// The cache's retention options.
    pub closed spec fn spec_config(&self) -> CacheConfig {
        self.cache_config
    }

    /// The shared token counter capping speculative refreshes.
    pub closed spec fn spec_max_lazy_refreshes(&self) -> Arc<AtomicIsize> {
        self.max_lazy_refreshes
    }

    /// The cache directory and the temporary directory stand or fall
    /// together.
    pub open spec fn wf(&self) -> bool {
        self.spec_cache_dir() is Some <==> self.spec_tmp_dir() is Some
    }

    /// Builds the handle of one named cache. `start_time` is the wall-clock
    /// second the process started at; the embedding program creates
    /// `cache_dir` on disk before any entry is opened.
    pub fn from_config(
        name: CacheName,
        cache_dir: Option<String>,
        tmp_dir: Option<String>,
        cache_config: CacheConfig,
        max_lazy_refreshes: Arc<AtomicIsize>,
        start_time: u64,
    ) -> (r: Cache)
        requires
            cache_dir is Some <==> tmp_dir is Some,
        ensures
            r.spec_name() == name,
            r.spec_cache_dir() == cache_dir,
            r.spec_tmp_dir() == tmp_dir,
            r.spec_config() == cache_config,
            r.spec_start_time() == start_time,
            r.spec_max_lazy_refreshes() == max_lazy_refreshes,
            r.wf(),
    {
        Cache { name, cache_dir, tmp_dir, start_time, cache_config, max_lazy_refreshes }
    }

    /// The cache's name.
    pub fn name(&self) -> (r: CacheName)
        ensures
            r == self.spec_name(),
    {
        self.name
    }

    /// The cache's directory, absent when the cache is disabled.
    pub fn cache_dir(&self) -> (r: &Option<String>)
        ensures
            *r == self.spec_cache_dir(),
    {
        &self.cache_dir
    }

    /// The sibling directory for temporary files, absent when disabled.
    pub fn tmp_dir(&self) -> (r: &Option<String>)
        ensures
            *r == self.spec_tmp_dir(),
    {
        &self.tmp_dir
    }

    /// The shared token counter capping speculative refreshes of this
    /// cache. The cache performs no accounting itself: callers take a token
    /// before scheduling a refresh and return it on completion.
    pub fn max_lazy_refreshes(&self) -> (r: &Arc<AtomicIsize>)
        ensures
            *r == self.spec_max_lazy_refreshes(),
    {
        &self.max_lazy_refreshes
    }

    /// Validates the expiration of an entry with contents `contents` and
    /// modification time `mtime` at wall clock `now`. An expired entry is
    /// reported as `NotFound`, a miss; a live one is returned decoded,
    /// together with when it next needs touching or refreshing.
    pub fn check_expiry(&self, contents: Vec<u8>, mtime: u64, now: u64) -> (r: Result<
        (CacheEntry<Vec<u8>>, ExpirationTime),
        IoError,
    >)
        ensures
            ({
                let o = decoded(contents@);
                let s = strategy_of_outcome(o);
                &&& (r is Err <==> spec_expired(
                    s,
                    self.spec_config(),
                    mtime,
                    self.spec_start_time(),
                    now,
                ))
                &&& (r matches Err(e) ==> e == IoError::NotFound)
                &&& (r matches Ok(pair) ==> entry_represents(pair.0, o) && pair.1
                    == spec_expiration_time(s, self.spec_config(), mtime, now))
            }),
    {
        let entry = cache_entry_from_bytes(contents);
        let strategy = expiration_strategy(&self.cache_config, &entry);
        let elapsed: u64 = if now >= mtime {
            now - mtime
        } else {
            0
        };
        match strategy {
            ExpirationStrategy::Positive => {
                let max_unused_for: u64 = match self.cache_config.max_unused_for {
                    Some(l) => l,
                    None => u64::MAX,
                };
                if elapsed > max_unused_for {
                    return Err(IoError::NotFound);
                }
                let touch_in: u64 = if TOUCH_EVERY >= elapsed {
                    TOUCH_EVERY - elapsed
                } else {
                    0
                };
                Ok((entry, ExpirationTime::TouchIn(touch_in)))
            },
            ExpirationStrategy::Negative => {
                let retry_misses_after: u64 = match self.cache_config.retry_misses_after {
                    Some(l) => l,
                    None => u64::MAX,
                };
                let expires_in: u64 = if retry_misses_after >= elapsed {
                    retry_misses_after - elapsed
                } else {
                    0
                };
                if expires_in == 0 {
                    return Err(IoError::NotFound);
                }
                Ok((entry, ExpirationTime::RefreshIn(expires_in)))
            },
            ExpirationStrategy::Malformed => {
                let retry_malformed_after: u64 = match self.cache_config.retry_malformed_after {
                    Some(l) => l,
                    None => u64::MAX,
                };
                let expires_in: u64 = if retry_malformed_after >= elapsed {
                    retry_malformed_after - elapsed
                } else {
                    0
                };
                // Entries stamped before this process started are expired
                // outright: a newer build may well convert what an older
                // one marked malformed.
                if mtime < self.start_time || expires_in == 0 {
                    return Err(IoError::NotFound);
                }
                Ok((entry, ExpirationTime::RefreshIn(expires_in)))
            },
        }
    }

    /// Opens an entry: validates expiration and decides the mtime bump.
    /// Returns `None` for a miss (absent or expired). For a hit, returns
    /// the decoded entry, the next-action time, and the mtime the file must
    /// carry afterwards: `now` when a due touch is performed, the old
    /// `mtime` otherwise.
    pub fn open_cachefile(&self, contents: Vec<u8>, mtime: u64, now: u64) -> (r: Option<
        (CacheEntry<Vec<u8>>, ExpirationTime, u64),
    >)
        ensures
            ({
                let o = decoded(contents@);
                let s = strategy_of_outcome(o);
                let raw = spec_expiration_time(s, self.spec_config(), mtime, now);
                &&& (r is None <==> spec_expired(
                    s,
                    self.spec_config(),
                    mtime,
                    self.spec_start_time(),
                    now,
                ))
                &&& (r matches Some(t) ==> entry_represents(t.0, o) && (if raw
                    == ExpirationTime::TouchIn(0u64) {
                    t.1 == ExpirationTime::TouchIn(TOUCH_EVERY) && t.2 == now
                } else {
                    t.1 == raw && t.2 == mtime
                }))
            }),
    {
        let checked = catch_not_found(self.check_expiry(contents, mtime, now));
        match checked {
            Ok(Some((entry, expiration))) => {
                let should_touch = match expiration {
                    ExpirationTime::TouchIn(d) => d == 0,
                    _ => false,
                };
                if should_touch {
                    Some((entry, ExpirationTime::TouchIn(TOUCH_EVERY), now))
                } else {
                    Some((entry, expiration, mtime))
                }
            },
            Ok(None) => None,
            Err(_) => None,
        }
    }

    /// After `retries` failed attempts at creating a temporary cache file,
    /// says whether to re-create the temporary directory and try again, or
    /// to give up and surface the error.
    pub fn tempfile_should_retry(&self, retries: u64) -> (r: bool)
        ensures
            r == (retries <= MAX_TEMPFILE_RETRIES),
    {
        retries <= MAX_TEMPFILE_RETRIES
    }
}

impl ExpirationTime {
    /// The next-action time of a freshly written entry, computed as if no
    /// time had passed since its mtime.
    pub fn for_fresh_status(cache: &Cache, entry: &CacheEntry<Vec<u8>>) -> (r: ExpirationTime)
        ensures
            r == spec_fresh_expiration_time(cache.spec_config(), *entry),
    {
        let strategy = expiration_strategy(&cache.cache_config, entry);
        match strategy {
            ExpirationStrategy::Positive => ExpirationTime::TouchIn(TOUCH_EVERY),
            ExpirationStrategy::Negative => {
                let retry_misses_after: u64 = match cache.cache_config.retry_misses_after {
                    Some(l) => l,
                    None => u64::MAX,
                };
                ExpirationTime::RefreshIn(retry_misses_after)
            },
            ExpirationStrategy::Malformed => {
                let retry_malformed_after: u64 = match cache.cache_config.retry_malformed_after {
                    Some(l) => l,
                    None => u64::MAX,
                };
                ExpirationTime::RefreshIn(retry_malformed_after)
            },
        }
    }

    /// Says whether the cache file was just touched: the full touch
    /// interval lies ahead.
    pub fn was_touched(&self) -> (r: bool)
        ensures
            r == (*self == ExpirationTime::TouchIn(TOUCH_EVERY)),
    {
        match self {
            ExpirationTime::TouchIn(d) => *d == TOUCH_EVERY,
            _ => false,
        }
    }
}

/// The next-action time of a freshly written entry: a full touch interval
/// for positives, the configured cool-off for failures.
pub open spec fn spec_fresh_expiration_time(
    config: CacheConfig,
    entry: CacheEntry<Vec<u8>>,
) -> ExpirationTime {
    match spec_expiration_strategy(config, entry) {
        ExpirationStrategy::Positive => ExpirationTime::TouchIn(TOUCH_EVERY),
        ExpirationStrategy::Negative => ExpirationTime::RefreshIn(
            limit_or_max(config.retry_misses_after),
        ),
        ExpirationStrategy::Malformed => ExpirationTime::RefreshIn(
            limit_or_max(config.retry_malformed_after),
        ),
    }
}

/// Expiry is monotone in the wall clock: holding the mtime fixed, advancing
/// the clock never moves an entry from expired back to valid.
pub proof fn lemma_expiry_monotonic(
    strategy: ExpirationStrategy,
    config: CacheConfig,
    mtime: u64,
    start_time: u64,
    now1: u64,
    now2: u64,
)
    requires
        now1 <= now2,
        spec_expired(strategy, config, mtime, start_time, now1),
    ensures
        spec_expired(strategy, config, mtime, start_time, now2),
{
}

/// Refreshing a positive entry's mtime to the current instant makes it
/// valid again with a full touch interval ahead.
pub proof fn lemma_refresh_resets(config: CacheConfig, start_time: u64, now: u64)
    ensures
        !spec_expired(ExpirationStrategy::Positive, config, now, start_time, now),
        spec_expiration_time(ExpirationStrategy::Positive, config, now, now)
            == ExpirationTime::TouchIn(TOUCH_EVERY),
{
}

/// A malformed entry stamped before the running process started is expired
/// no matter how generous the malformed cool-off is.
pub proof fn lemma_pre_restart_malformed(
    config: CacheConfig,
    mtime: u64,
    start_time: u64,
    now: u64,
)
    requires
        mtime < start_time,
    ensures
        spec_expired(ExpirationStrategy::Malformed, config, mtime, start_time, now),
{
}

/// Touch debounce: a positive entry younger than the touch interval is not
/// due for a touch, so opening it leaves its mtime alone.
pub proof fn lemma_touch_debounce(config: CacheConfig, mtime: u64, now: u64)
    requires
        elapsed_since(mtime, now) < TOUCH_EVERY,
    ensures
        spec_expiration_time(ExpirationStrategy::Positive, config, mtime, now)
            != ExpirationTime::TouchIn(0u64),
{
}

} // verus!
