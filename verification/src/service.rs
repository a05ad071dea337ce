//! The request service: a request/response model around the symbolication
//! engine.
//!
//! A submission registers a fresh request id and a completion channel,
//! subject to a global in-flight cap. A worker later fulfills the channel
//! with the response; the entry then stays around for a retention window so
//! late pollers still observe the completion, and is removed afterwards.
//! Pollers look the channel up by id and wait on it with an optional
//! timeout.
//!
//! The state and its transitions live here; running workers, timers and
//! channels on an executor is the embedding program's part. Where a
//! transition depends on something only the runtime knows (how the wait on
//! a channel went, how the job's future ended), that observation comes in
//! as an argument and the transition is verified for every value of it.

use vstd::prelude::*;

use crate::config::Config;
use std::collections::BTreeMap;
use vstd::string::StringExecFns;

verus! {

broadcast use vstd::std_specs::btree::group_btree_axioms, vstd::laws_cmp::group_laws_cmp;

/// The retention window, in seconds, of a completed request's response for
/// late pollers.
pub const MAX_POLL_DELAY: u64 = 90;

/// The seconds after which a poller whose wait ran out is told to retry.
pub const PENDING_RETRY_AFTER: usize = 30;

/// Symbolication task identifier: a version-4 UUID, carried as its 128-bit
/// value.
#[derive(Debug, Clone, Copy, PartialEq, Eq, Structural)]
pub struct RequestId(pub u128);

impl RequestId {
    /// Creates a new symbolication task identifier.
    pub fn new(uuid: u128) -> (r: RequestId)
        ensures
            r.0 == uuid,
    {
        RequestId(uuid)
    }
}

/// The sixteen lowercase hexadecimal digits.
pub open spec fn hex_digit_chars() -> Seq<char> {
    seq!['0', '1', '2', '3', '4', '5', '6', '7', '8', '9', 'a', 'b', 'c', 'd', 'e', 'f']
}

/// The nibble of `v` at position `i`, counting the most significant nibble
/// of the 128-bit value as position zero.
pub open spec fn spec_uuid_nibble(v: u128, i: int) -> u128 {
    (v >> (((31 - i) * 4) as u128)) & 0xf
}

/// The thirty-two hex digits of `v`, most significant first.
pub open spec fn spec_uuid_digits(v: u128) -> Seq<char> {
    Seq::new(32, |i: int| hex_digit_chars()[spec_uuid_nibble(v, i) as int])
}

/// The canonical hyphenated spelling of a 128-bit identifier: the digits
/// in groups of eight, four, four, four and twelve.
pub open spec fn spec_uuid_string(v: u128) -> Seq<char> {
    spec_uuid_digits(v).subrange(0, 8) + seq!['-'] + spec_uuid_digits(v).subrange(8, 12)
        + seq!['-'] + spec_uuid_digits(v).subrange(12, 16) + seq!['-'] + spec_uuid_digits(
        v,
    ).subrange(16, 20) + seq!['-'] + spec_uuid_digits(v).subrange(20, 32)
}

/// The first `j` hex digits of `v`'s hyphenated spelling, with the hyphens
/// that precede them.
spec fn spec_uuid_prefix(v: u128, j: int) -> Seq<char> {
    let d = spec_uuid_digits(v);
    if j <= 8 {
        d.subrange(0, j)
    } else if j <= 12 {
        d.subrange(0, 8) + seq!['-'] + d.subrange(8, j)
    } else if j <= 16 {
        d.subrange(0, 8) + seq!['-'] + d.subrange(8, 12) + seq!['-'] + d.subrange(12, j)
    } else if j <= 20 {
        d.subrange(0, 8) + seq!['-'] + d.subrange(8, 12) + seq!['-'] + d.subrange(12, 16)
            + seq!['-'] + d.subrange(16, j)
    } else {
        d.subrange(0, 8) + seq!['-'] + d.subrange(8, 12) + seq!['-'] + d.subrange(12, 16)
            + seq!['-'] + d.subrange(16, 20) + seq!['-'] + d.subrange(20, j)
    }
}

/// One lowercase hex digit as a string slice.
fn hex_digit_str(nib: u128) -> (r: &'static str)
    requires
        nib < 16,
    ensures
        r@.len() == 1,
        r@[0] == hex_digit_chars()[nib as int],
{
    proof {
        reveal_strlit("0");
        reveal_strlit("1");
        reveal_strlit("2");
        reveal_strlit("3");
        reveal_strlit("4");
        reveal_strlit("5");
        reveal_strlit("6");
        reveal_strlit("7");
        reveal_strlit("8");
        reveal_strlit("9");
        reveal_strlit("a");
        reveal_strlit("b");
        reveal_strlit("c");
        reveal_strlit("d");
        reveal_strlit("e");
        reveal_strlit("f");
    }
    if nib == 0 {
        "0"
    } else if nib == 1 {
        "1"
    } else if nib == 2 {
        "2"
    } else if nib == 3 {
        "3"
    } else if nib == 4 {
        "4"
    } else if nib == 5 {
        "5"
    } else if nib == 6 {
        "6"
    } else if nib == 7 {
        "7"
    } else if nib == 8 {
        "8"
    } else if nib == 9 {
        "9"
    } else if nib == 10 {
        "a"
    } else if nib == 11 {
        "b"
    } else if nib == 12 {
        "c"
    } else if nib == 13 {
        "d"
    } else if nib == 14 {
        "e"
    } else {
        "f"
    }
}

impl RequestId {
    /// The canonical hyphenated lowercase spelling of the identifier, the
    /// form requests are polled and reported under.
    pub fn to_display_string(&self) -> (r: String)
        ensures
            r@ == spec_uuid_string(self.0),
    {
        let v = self.0;
        let mut s = String::new();
        let mut j: usize = 0;
        while j < 32
            invariant
                j <= 32,
                s@ == spec_uuid_prefix(v, j as int),
            decreases 32 - j,
        {
            if j == 8 || j == 12 || j == 16 || j == 20 {
                s.append("-");
                proof {
                    reveal_strlit("-");
                    assert(s@ =~= spec_uuid_prefix(v, j as int) + seq!['-']);
                }
            }
            let sh: u128 = ((31 - j) as u128) * 4;
            let nib: u128 = (v >> sh) & 0xf;
            proof {
                assert(((v >> sh) & 0xf) < 16) by (bit_vector);
                assert(sh == (((31 - j as int) * 4) as u128));
                assert(nib == spec_uuid_nibble(v, j as int));
            }
            let c = hex_digit_str(nib);
            s.append(c);
            proof {
                assert(s@ =~= spec_uuid_prefix(v, j as int + 1));
            }
            j = j + 1;
        }
        proof {
            assert(spec_uuid_prefix(v, 32) =~= spec_uuid_string(v));
        }
        s
    }
}

/// Relies on `uuid::Uuid::new_v4` to draw a fresh random version-4 UUID;
/// nothing can be promised of a random value.
#[verifier::external_body]
fn fresh_request_uuid() -> u128 {
    uuid::Uuid::new_v4().as_u128()
}

/// One debug-information file considered for a module during
/// symbolication.
#[derive(Debug, PartialEq, Eq)]
pub struct ObjectCandidate {
    /// The source that offered the file.
    pub source: String,
    /// The file's location within the source.
    pub location: String,
}

impl Clone for ObjectCandidate {
    fn clone(&self) -> (r: Self)
        ensures
            r == *self,
    {
        ObjectCandidate { source: self.source.clone(), location: self.location.clone() }
    }
}

/// Ghost model of one DIF candidate.
pub struct CandidateView {
    /// The source that offered the file.
    pub source: Seq<char>,
    /// The file's location within the source.
    pub location: Seq<char>,
}

impl View for ObjectCandidate {
    type V = CandidateView;

    open spec fn view(&self) -> CandidateView {
        CandidateView { source: self.source@, location: self.location@ }
    }
}

/// Per-module information of a completed response.
#[derive(Debug, PartialEq, Eq)]
pub struct CompleteObjectInfo {
    /// The module's debug identifier.
    pub debug_id: String,
    /// The debug-information files considered for the module.
    pub candidates: Vec<ObjectCandidate>,
}

impl Clone for CompleteObjectInfo {
    fn clone(&self) -> (r: Self)
        ensures
            r@ == self@,
    {
        let candidates = self.candidates.clone();
        proof {
            assert forall|i: int| 0 <= i < self.candidates@.len() implies candidates@[i]
                == self.candidates@[i] by {
                assert(cloned::<ObjectCandidate>(self.candidates@[i], candidates@[i]));
            }
            assert(candidates@ =~= self.candidates@);
        }
        CompleteObjectInfo { debug_id: self.debug_id.clone(), candidates }
    }
}

/// Ghost model of one module's information.
pub struct ObjectInfoView {
    /// The module's debug identifier.
    pub debug_id: Seq<char>,
    /// The DIF candidates considered for the module.
    pub candidates: Seq<CandidateView>,
}

impl View for CompleteObjectInfo {
    type V = ObjectInfoView;

    open spec fn view(&self) -> ObjectInfoView {
        ObjectInfoView {
            debug_id: self.debug_id@,
            candidates: self.candidates@.map_values(|c: ObjectCandidate| c@),
        }
    }
}

/// The symbolicated crash as produced by the engine: the modules list with
/// their DIF candidate details.
#[derive(Debug, PartialEq, Eq)]
pub struct CompletedSymbolicationResponse {
    /// The modules the crash was symbolicated against.
    pub modules: Vec<CompleteObjectInfo>,
}

impl Clone for CompletedSymbolicationResponse {
    fn clone(&self) -> (r: Self)
        ensures
            r@ == self@,
    {
        let modules = self.modules.clone();
        proof {
            assert forall|i: int| 0 <= i < self.modules@.len() implies modules@[i]@
                == self.modules@[i]@ by {
                assert(cloned::<CompleteObjectInfo>(self.modules@[i], modules@[i]));
            }
            assert(modules@.map_values(|m: CompleteObjectInfo| m@) =~= self.modules@.map_values(
                |m: CompleteObjectInfo| m@,
            ));
        }
        CompletedSymbolicationResponse { modules }
    }
}

/// Ghost model of a completed response.
pub struct CompletedView {
    /// The modules the crash was symbolicated against.
    pub modules: Seq<ObjectInfoView>,
}

impl View for CompletedSymbolicationResponse {
    type V = CompletedView;

    open spec fn view(&self) -> CompletedView {
        CompletedView { modules: self.modules@.map_values(|m: CompleteObjectInfo| m@) }
    }
}

/// The response of a symbolication request or poll request.
#[derive(Debug, PartialEq, Eq)]
pub enum SymbolicationResponse {
    /// Symbolication still runs; poll again after `retry_after` seconds.
    Pending {
        /// The id under which further updates can be polled.
        request_id: RequestId,
        /// An indication when the next poll would be suitable.
        retry_after: usize,
    },
    /// The finished response.
    Completed(Box<CompletedSymbolicationResponse>),
    /// The job failed; the message says why.
    Failed {
        /// The failure's description.
        message: String,
    },
    /// The job exceeded the per-job hard timeout.
    Timeout,
    /// The job's worker vanished before fulfilling the request.
    InternalError,
}

impl Clone for SymbolicationResponse {
    fn clone(&self) -> (r: Self)
        ensures
            r@ == self@,
    {
        match self {
            SymbolicationResponse::Pending { request_id, retry_after } => (
            SymbolicationResponse::Pending {
                request_id: *request_id,
                retry_after: *retry_after,
            }),
            SymbolicationResponse::Completed(b) => SymbolicationResponse::Completed(
                Box::new((**b).clone()),
            ),
            SymbolicationResponse::Failed { message } => (SymbolicationResponse::Failed {
                message: message.clone(),
            }),
            SymbolicationResponse::Timeout => SymbolicationResponse::Timeout,
            SymbolicationResponse::InternalError => SymbolicationResponse::InternalError,
        }
    }
}

/// Ghost model of a response.
pub enum ResponseView {
    /// Symbolication still runs.
    Pending {
        /// The id under which further updates can be polled.
        request_id: RequestId,
        /// An indication when the next poll would be suitable.
        retry_after: usize,
    },
    /// The finished response.
    Completed(CompletedView),
    /// The job failed with this message.
    Failed(Seq<char>),
    /// The job exceeded the per-job hard timeout.
    Timeout,
    /// The job's worker vanished before fulfilling the request.
    InternalError,
}

impl View for SymbolicationResponse {
    type V = ResponseView;

    open spec fn view(&self) -> ResponseView {
        match *self {
            SymbolicationResponse::Pending { request_id, retry_after } => ResponseView::Pending {
                request_id,
                retry_after,
            },
            SymbolicationResponse::Completed(b) => ResponseView::Completed(b@),
            SymbolicationResponse::Failed { message } => ResponseView::Failed(message@),
            SymbolicationResponse::Timeout => ResponseView::Timeout,
            SymbolicationResponse::InternalError => ResponseView::InternalError,
        }
    }
}

/// Errors during symbolication.
#[derive(Debug, PartialEq, Eq)]
pub enum SymbolicationError {
    /// The job exceeded the per-job hard timeout.
    Timeout,
    /// The engine failed; the payload is its message.
    Failed(String),
}

impl SymbolicationError {
    /// The human-readable description of the error.
    pub fn message(&self) -> (r: String)
        ensures
            match *self {
                SymbolicationError::Timeout => r@ == "symbolication took too long"@,
                SymbolicationError::Failed(m) => r@ == m@,
            },
    {
        match self {
            SymbolicationError::Timeout => "symbolication took too long".to_owned(),
            SymbolicationError::Failed(m) => m.clone(),
        }
    }
}

impl SymbolicationResponse {
    /// The response reported for a failed job: a timeout stays a timeout,
    /// any other failure carries its message.
    pub fn from_error(error: &SymbolicationError) -> (r: SymbolicationResponse)
        ensures
            match *error {
                SymbolicationError::Timeout => r == SymbolicationResponse::Timeout,
                SymbolicationError::Failed(m) => r matches SymbolicationResponse::Failed {
                    message,
                } && message@ == m@,
            },
    {
        match error {
            SymbolicationError::Timeout => SymbolicationResponse::Timeout,
            SymbolicationError::Failed(_) => (SymbolicationResponse::Failed {
                message: error.message(),
            }),
        }
    }
}

/// Common options of all symbolication requests.
#[derive(Debug, Clone, Copy, PartialEq, Eq, Structural)]
pub struct RequestOptions {
    /// Whether detailed DIF candidate information stays in the response.
    pub dif_candidates: bool,
}

impl Default for RequestOptions {
    /// By default the bulky candidate lists are stripped.
    fn default() -> (r: Self)
        ensures
            r.dif_candidates == false,
    {
        RequestOptions { dif_candidates: false }
    }
}

/// Whether `cleared` is `orig` with every module's candidate list emptied
/// and everything else kept.
pub open spec fn modules_cleared(
    orig: Seq<ObjectInfoView>,
    cleared: Seq<ObjectInfoView>,
) -> bool {
    &&& cleared.len() == orig.len()
    &&& forall|i: int|
        0 <= i < orig.len() ==> (#[trigger] cleared[i]).debug_id == orig[i].debug_id
            && cleared[i].candidates.len() == 0
}

/// Clears the DIF object candidate information out of every module of the
/// response, so it is not serialised for clients that did not ask for it.
pub fn clear_dif_candidates(response: &mut CompletedSymbolicationResponse)
    ensures
        modules_cleared(old(response)@.modules, final(response)@.modules),
{
    let n = response.modules.len();
    let mut cleared: Vec<CompleteObjectInfo> = Vec::new();
    let mut i: usize = 0;
    while i < n
        invariant
            n == old(response).modules@.len(),
            response.modules@ == old(response).modules@,
            i <= n,
            cleared@.len() == i,
            forall|j: int|
                0 <= j < i ==> (#[trigger] cleared@[j])@.debug_id == old(
                    response,
                ).modules@[j]@.debug_id && cleared@[j]@.candidates.len() == 0,
        decreases n - i,
    {
        let debug_id = response.modules[i].debug_id.clone();
        cleared.push(CompleteObjectInfo { debug_id, candidates: Vec::new() });
        i = i + 1;
    }
    response.modules = cleared;
}

/// How a spawned job ended, as its runner observed it: the engine finished
/// with its result, or the per-job hard timeout cut the job off.
#[derive(Debug)]
pub enum JobOutcome {
    /// The engine returned: the completed response, or its error message.
    Finished(Result<CompletedSymbolicationResponse, String>),
    /// The hard timeout elapsed first.
    TimedOut,
}

/// Session-end markers reported to the crash monitor.
#[derive(Debug, Clone, Copy, PartialEq, Eq, Structural)]
pub enum SessionOutcome {
    /// The job completed normally.
    Exited,
    /// The job timed out.
    Abnormal,
    /// The job failed, or its worker vanished.
    Crashed,
}

/// Collapses the timeout-wrapped engine result into the service's error
/// taxonomy.
pub fn collapse_job_outcome(outcome: JobOutcome) -> (r: Result<
    CompletedSymbolicationResponse,
    SymbolicationError,
>)
    ensures
        match outcome {
            JobOutcome::TimedOut => r == Err::<CompletedSymbolicationResponse, SymbolicationError>(
                SymbolicationError::Timeout,
            ),
            JobOutcome::Finished(inner) => match inner {
                Ok(resp) => r == Ok::<CompletedSymbolicationResponse, SymbolicationError>(resp),
                Err(msg) => r == Err::<CompletedSymbolicationResponse, SymbolicationError>(
                    SymbolicationError::Failed(msg),
                ),
            },
        },
{
    match outcome {
        JobOutcome::TimedOut => Err(SymbolicationError::Timeout),
        JobOutcome::Finished(inner) => match inner {
            Ok(resp) => Ok(resp),
            Err(msg) => Err(SymbolicationError::Failed(msg)),
        },
    }
}

/// Turns the collapsed job result into the response to publish and the
/// session-end marker to record: success strips the DIF candidates unless
/// asked to keep them and ends the session normally; a timeout ends it
/// abnormally; any other failure ends it crashed.
pub fn finish_symbolication(
    result: Result<CompletedSymbolicationResponse, SymbolicationError>,
    options: &RequestOptions,
) -> (r: (SymbolicationResponse, SessionOutcome))
    ensures
        match result {
            Ok(resp) => r.0 matches SymbolicationResponse::Completed(b) && r.1
                == SessionOutcome::Exited && (if options.dif_candidates {
                b@ == resp@
            } else {
                modules_cleared(resp@.modules, b@.modules)
            }),
            Err(e) => match e {
                SymbolicationError::Timeout => r == (
                    SymbolicationResponse::Timeout,
                    SessionOutcome::Abnormal,
                ),
                SymbolicationError::Failed(m) => r.0 matches SymbolicationResponse::Failed {
                    message,
                } && r.1 == SessionOutcome::Crashed && message@ == m@,
            },
        },
{
    match result {
        Ok(response) => {
            let mut response = response;
            if !options.dif_candidates {
                clear_dif_candidates(&mut response);
            }
            (SymbolicationResponse::Completed(Box::new(response)), SessionOutcome::Exited)
        },
        Err(error) => {
            let status = match &error {
                SymbolicationError::Timeout => SessionOutcome::Abnormal,
                _ => SessionOutcome::Crashed,
            };
            let response = SymbolicationResponse::from_error(&error);
            (response, status)
        },
    }
}

/// Returned when a submission arrives while the maximum number of
/// concurrent requests is already being processed.
#[derive(Debug, Clone, Copy, PartialEq, Eq, Structural)]
pub struct MaxRequestsError;

impl MaxRequestsError {
    /// The human-readable description of the error.
    pub fn message(&self) -> (r: String)
        ensures
            r@ == "maximum number of concurrent requests reached"@,
    {
        "maximum number of concurrent requests reached".to_owned()
    }
}

/// The model of one request's completion channel: nothing delivered yet,
/// or the response together with the second it was finished at.
#[derive(Debug)]
pub enum ChannelState {
    /// The worker has not fulfilled the request yet.
    Pending,
    /// The worker delivered the response at `finished_at`.
    Fulfilled {
        /// The wall-clock second of completion.
        finished_at: u64,
        /// The delivered response.
        response: SymbolicationResponse,
    },
}

/// What awaiting an in-flight request's channel observed: the caller's
/// timer won, the worker delivered, or the channel reported its sender
/// dropped because the worker vanished.
#[derive(Debug)]
pub enum WaitOutcome {
    /// The caller-supplied timeout elapsed before anything was delivered.
    Elapsed,
    /// The worker delivered the response at the given second.
    Delivered(u64, SymbolicationResponse),
    /// The sender was dropped: the worker panicked or was cancelled.
    Canceled,
}

/// The response a poller's wait on an in-flight channel resolves to.
pub open spec fn spec_wrap_response(request_id: RequestId, wait: WaitOutcome) -> ResponseView {
    match wait {
        WaitOutcome::Elapsed => ResponseView::Pending {
            request_id,
            retry_after: PENDING_RETRY_AFTER,
        },
        WaitOutcome::Delivered(_, response) => response@,
        WaitOutcome::Canceled => ResponseView::InternalError,
    }
}

/// The result of polling `request_id` against the completion map: unknown
/// ids yield nothing, fulfilled channels yield their response, and a wait
/// on a still-pending channel resolves per the wait's outcome.
pub open spec fn spec_poll_response(
    requests: Map<u128, ChannelState>,
    request_id: RequestId,
    wait: WaitOutcome,
) -> Option<ResponseView> {
    if !requests.contains_key(request_id.0) {
        None
    } else {
        match requests[request_id.0] {
            ChannelState::Fulfilled { response, .. } => Some(response@),
            ChannelState::Pending => Some(spec_wrap_response(request_id, wait)),
        }
    }
}

/// Resolves a poller's wait on a request's channel: an elapsed timer means
/// "retry shortly", a delivery is the response itself, and a dropped
/// sender surfaces as an internal error (the panicking worker already
/// reported itself at the source).
pub fn wrap_response_channel(
    request_id: RequestId,
    timeout: Option<u64>,
    wait: WaitOutcome,
) -> (r: SymbolicationResponse)
    requires
        timeout is None ==> !(wait is Elapsed),
    ensures
        r@ == spec_wrap_response(request_id, wait),
{
    match wait {
        WaitOutcome::Elapsed => (SymbolicationResponse::Pending {
            request_id,
            retry_after: PENDING_RETRY_AFTER,
        }),
        WaitOutcome::Delivered(_, response) => response,
        WaitOutcome::Canceled => SymbolicationResponse::InternalError,
    }
}

/// The underlying service of the HTTP request handlers: admission control,
/// the completion map, and the in-flight count.
#[derive(Debug)]
pub struct RequestService {
    config: Config,
    requests: BTreeMap<u128, ChannelState>,
    max_concurrent_requests: Option<usize>,
    current_requests: usize,
}

impl RequestService {
    /// The service's configuration.
    pub closed spec fn spec_config(&self) -> Config {
        self.config
    }

    /// The completion map: each known request's channel, exactly once.
    pub closed spec fn spec_requests(&self) -> Map<u128, ChannelState> {
        self.requests@
    }

    /// The configured in-flight cap; absent means unbounded.
    pub closed spec fn spec_max_concurrent(&self) -> Option<usize> {
        self.max_concurrent_requests
    }

    /// How many jobs count as in flight.
    pub closed spec fn spec_in_flight(&self) -> usize {
        self.current_requests
    }

    /// Whether a new job may be admitted: no cap is configured, or the
    /// in-flight count is below it.
    pub open spec fn spec_admits(&self) -> bool {
        match self.spec_max_concurrent() {
            Some(max) => self.spec_in_flight() < max,
            None => true,
        }
    }

    /// Creates the service. When the filesystem caches are disabled the
    /// in-memory source-index TTL is zeroed with them, a coupling the
    /// crash monitor's integration tests rely on.
    pub fn create(config: Config) -> (r: RequestService)
        ensures
            r.spec_requests() == Map::<u128, ChannelState>::empty(),
            r.spec_in_flight() == 0,
            r.spec_max_concurrent() == config.max_concurrent_requests,
            r.spec_config().cache_dir == config.cache_dir,
            r.spec_config().connect_to_reserved_ips == config.connect_to_reserved_ips,
            r.spec_config().max_concurrent_requests == config.max_concurrent_requests,
            r.spec_config().caches.in_memory.sentry_index_ttl == (if config.cache_dir is None {
                0u64
            } else {
                config.caches.in_memory.sentry_index_ttl
            }),
    {
        let mut config = config;
        if config.cache_dir.is_none() {
            config.caches.in_memory.sentry_index_ttl = 0;
        }
        let max_concurrent_requests = config.max_concurrent_requests;
        RequestService {
            config,
            requests: BTreeMap::new(),
            max_concurrent_requests,
            current_requests: 0,
        }
    }

    /// The service's configuration.
    pub fn config(&self) -> (r: &Config)
        ensures
            r == self.spec_config(),
    {
        &self.config
    }

    /// How many jobs count as in flight.
    pub fn in_flight(&self) -> (r: usize)
        ensures
            r == self.spec_in_flight(),
    {
        self.current_requests
    }

    /// Registers a new symbolication job: draws a fresh request id, stores
    /// its pending channel, and starts counting it as in flight. Admission
    /// fails, and the service is left untouched, exactly when the
    /// configured cap of concurrent requests is already reached.
    pub fn create_symbolication_request(&mut self) -> (r: Result<RequestId, MaxRequestsError>)
        requires
            old(self).spec_in_flight() < usize::MAX,
        ensures
            r is Ok <==> old(self).spec_admits(),
            r matches Ok(id) ==> final(self).spec_requests() == old(self).spec_requests().insert(
                id.0,
                ChannelState::Pending,
            ) && final(self).spec_in_flight() == old(self).spec_in_flight() + 1,
            r is Err ==> final(self).spec_requests() == old(self).spec_requests()
                && final(self).spec_in_flight() == old(self).spec_in_flight(),
            final(self).spec_config() == old(self).spec_config(),
            final(self).spec_max_concurrent() == old(self).spec_max_concurrent(),
    {
        let num_requests = self.current_requests;
        if let Some(max_concurrent_requests) = self.max_concurrent_requests {
            if num_requests >= max_concurrent_requests {
                return Err(MaxRequestsError);
            }
        }
        let request_id = RequestId::new(fresh_request_uuid());
        self.requests.insert(request_id.0, ChannelState::Pending);
        self.current_requests = self.current_requests + 1;
        Ok(request_id)
    }

    /// Whether `request_id` is known and still awaiting its response: the
    /// state `complete_request` asks for.
    pub fn has_pending_request(&self, request_id: RequestId) -> (r: bool)
        ensures
            r == (self.spec_requests().contains_key(request_id.0)
                && self.spec_requests()[request_id.0] is Pending),
    {
        match self.requests.get(&request_id.0) {
            Some(state) => match state {
                ChannelState::Pending => true,
                _ => false,
            },
            None => false,
        }
    }

    /// The worker fulfills the request's channel: the response is recorded
    /// with its completion second, and the job stops counting as in
    /// flight. The entry itself stays for the retention window.
    pub fn complete_request(
        &mut self,
        request_id: RequestId,
        finished_at: u64,
        response: SymbolicationResponse,
    )
        requires
            old(self).spec_requests().contains_key(request_id.0),
            old(self).spec_requests()[request_id.0] is Pending,
            old(self).spec_in_flight() >= 1,
        ensures
            final(self).spec_requests() == old(self).spec_requests().insert(
                request_id.0,
                (ChannelState::Fulfilled { finished_at, response }),
            ),
            final(self).spec_in_flight() == old(self).spec_in_flight() - 1,
            final(self).spec_config() == old(self).spec_config(),
            final(self).spec_max_concurrent() == old(self).spec_max_concurrent(),
    {
        self.requests.insert(request_id.0, ChannelState::Fulfilled { finished_at, response });
        self.current_requests = self.current_requests - 1;
    }

    /// Drops a request's entry from the completion map. This runs when the
    /// retention window after completion ends, and as the guard when a
    /// worker is dropped before fulfilling its request. The in-flight
    /// count is untouched: completion already released it, and a vanished
    /// worker never does.
    pub fn remove_request(&mut self, request_id: RequestId) -> (r: bool)
        ensures
            final(self).spec_requests() == old(self).spec_requests().remove(request_id.0),
            r == old(self).spec_requests().contains_key(request_id.0),
            final(self).spec_in_flight() == old(self).spec_in_flight(),
            final(self).spec_config() == old(self).spec_config(),
            final(self).spec_max_concurrent() == old(self).spec_max_concurrent(),
    {
        let removed = self.requests.remove(&request_id.0);
        removed.is_some()
    }

    /// Polls the status of a started symbolication task. An unknown id
    /// yields nothing; a fulfilled channel yields its response; a wait on
    /// a still-pending channel resolves per the wait's outcome, with an
    /// elapsed timer turned into a retry hint. `timeout` is the caller's
    /// wait in seconds; waiting without one cannot be cut short by a
    /// timer.
    pub fn get_response(
        &self,
        request_id: RequestId,
        timeout: Option<u64>,
        wait: WaitOutcome,
    ) -> (r: Option<SymbolicationResponse>)
        requires
            timeout is None ==> !(wait is Elapsed),
        ensures
            r is Some <==> spec_poll_response(self.spec_requests(), request_id, wait) is Some,
            r matches Some(resp) ==> Some(resp@) == spec_poll_response(
                self.spec_requests(),
                request_id,
                wait,
            ),
    {
        let channel_opt = self.requests.get(&request_id.0);
        match channel_opt {
            Some(state) => match state {
                ChannelState::Fulfilled { finished_at: _, response } => Some(response.clone()),
                ChannelState::Pending => Some(wrap_response_channel(request_id, timeout, wait)),
            },
            None => None,
        }
    }
}

/// Admission cap: with a cap configured, a submission is admitted exactly
/// when fewer jobs than the cap are in flight, so of cap-plus-one
/// submissions with none completing, the first cap-many are admitted and
/// the next is refused.
pub proof fn lemma_admission_cap(s: RequestService, max: usize)
    requires
        s.spec_max_concurrent() == Some(max),
    ensures
        s.spec_admits() <==> s.spec_in_flight() < max,
{
}

/// Poll idempotence: every poll of a completed request within the
/// retention window observes the same response, whatever the caller's
/// timeout was and however its wait went.
pub proof fn lemma_poll_idempotent(
    requests: Map<u128, ChannelState>,
    request_id: RequestId,
    wait1: WaitOutcome,
    wait2: WaitOutcome,
)
    requires
        requests.contains_key(request_id.0),
        requests[request_id.0] is Fulfilled,
    ensures
        spec_poll_response(requests, request_id, wait1) == spec_poll_response(
            requests,
            request_id,
            wait2,
        ),
        spec_poll_response(requests, request_id, wait1) == Some(
            (requests[request_id.0]->Fulfilled_response)@,
        ),
{
}

/// Poll timeout: when the wait on an in-flight request's channel runs
/// out, the poller is told it is still pending and to retry after thirty
/// seconds.
pub proof fn lemma_poll_timeout(requests: Map<u128, ChannelState>, request_id: RequestId)
    requires
        requests.contains_key(request_id.0),
        requests[request_id.0] is Pending,
    ensures
        spec_poll_response(requests, request_id, WaitOutcome::Elapsed) == Some(
            (ResponseView::Pending { request_id, retry_after: PENDING_RETRY_AFTER }),
        ),
{
}

} // verus!
