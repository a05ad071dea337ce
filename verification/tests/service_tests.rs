use symbolicator_core::config::{CacheConfigs, Config, InMemoryCacheConfig};
use symbolicator_core::service::{
    clear_dif_candidates, collapse_job_outcome, finish_symbolication, wrap_response_channel,
    CompleteObjectInfo, CompletedSymbolicationResponse, JobOutcome,
    MaxRequestsError, ObjectCandidate, RequestId, RequestOptions, RequestService,
    SessionOutcome, SymbolicationError, SymbolicationResponse, WaitOutcome, MAX_POLL_DELAY,
    PENDING_RETRY_AFTER,
};

fn test_config(max_concurrent_requests: Option<usize>) -> Config {
    Config {
        cache_dir: Some("cache".to_string()),
        connect_to_reserved_ips: true,
        max_concurrent_requests,
        caches: CacheConfigs {
            in_memory: InMemoryCacheConfig {
                sentry_index_ttl: 3600,
            },
        },
    }
}

fn sample_response() -> CompletedSymbolicationResponse {
    CompletedSymbolicationResponse {
        modules: vec![
            CompleteObjectInfo {
                debug_id: "502fc0a5-1ec1-3e47-9998-684fa139dca7".to_string(),
                candidates: vec![ObjectCandidate {
                    source: "sentry:project".to_string(),
                    location: "x/y.dSYM".to_string(),
                }],
            },
            CompleteObjectInfo {
                debug_id: "a1b2c3d4-0000-0000-0000-000000000000".to_string(),
                candidates: Vec::new(),
            },
        ],
    }
}

#[test]
fn admission_cap_respected() {
    // Three submissions against a cap of two: the first two are admitted,
    // the third is refused, and two jobs count as in flight throughout.
    let mut service = RequestService::create(test_config(Some(2)));
    assert!(service.create_symbolication_request().is_ok());
    assert_eq!(service.in_flight(), 1);
    assert!(service.create_symbolication_request().is_ok());
    assert_eq!(service.in_flight(), 2);
    let refused = service.create_symbolication_request();
    assert_eq!(refused, Err(MaxRequestsError));
    assert_eq!(service.in_flight(), 2);
}

#[test]
fn admission_unbounded_without_cap() {
    let mut service = RequestService::create(test_config(None));
    for _ in 0..10 {
        assert!(service.create_symbolication_request().is_ok());
    }
    assert_eq!(service.in_flight(), 10);
}

#[test]
fn admission_frees_up_after_completion() {
    let mut service = RequestService::create(test_config(Some(1)));
    let id = service.create_symbolication_request().unwrap();
    assert!(service.create_symbolication_request().is_err());
    service.complete_request(id, 100, SymbolicationResponse::Timeout);
    assert_eq!(service.in_flight(), 0);
    assert!(service.create_symbolication_request().is_ok());
}

#[test]
fn request_ids_are_fresh() {
    let mut service = RequestService::create(test_config(None));
    let a = service.create_symbolication_request().unwrap();
    let b = service.create_symbolication_request().unwrap();
    assert_ne!(a, b);
}

#[test]
fn sentry_index_ttl_zeroed_without_cache_dir() {
    let mut config = test_config(None);
    config.cache_dir = None;
    let service = RequestService::create(config);
    assert_eq!(service.config().caches.in_memory.sentry_index_ttl, 0);

    let service = RequestService::create(test_config(None));
    assert_eq!(service.config().caches.in_memory.sentry_index_ttl, 3600);
}

#[test]
fn poll_completed_request_repeatedly() {
    // Every poll inside the retention window observes the same response.
    let mut service = RequestService::create(test_config(None));
    let id = service.create_symbolication_request().unwrap();
    let response =
        SymbolicationResponse::Completed(Box::new(sample_response()));
    service.complete_request(id, 500, response.clone());

    let first = service.get_response(id, None, WaitOutcome::Canceled);
    let second = service.get_response(id, Some(1), WaitOutcome::Elapsed);
    assert_eq!(first, Some(response.clone()));
    assert_eq!(first, second);

    // Once the retention window has elapsed the entry is removed and the
    // id is unknown.
    assert!(MAX_POLL_DELAY == 90);
    assert!(service.remove_request(id));
    assert_eq!(service.get_response(id, None, WaitOutcome::Canceled), None);
}

#[test]
fn poll_pending_request_with_elapsed_timeout() {
    let mut service = RequestService::create(test_config(None));
    let id = service.create_symbolication_request().unwrap();
    let response = service.get_response(id, Some(0), WaitOutcome::Elapsed);
    assert_eq!(
        response,
        Some(SymbolicationResponse::Pending {
            request_id: id,
            retry_after: PENDING_RETRY_AFTER,
        })
    );
    assert_eq!(PENDING_RETRY_AFTER, 30);
}

#[test]
fn poll_unknown_request() {
    let service = RequestService::create(test_config(None));
    let id = RequestId::new(0x1234_5678_9abc_def0);
    assert_eq!(service.get_response(id, Some(1), WaitOutcome::Elapsed), None);
}

#[test]
fn crashed_worker_surfaces_internal_error() {
    // A worker dropped before fulfilling its request: pollers already
    // waiting observe the cancellation as an internal error, the guard
    // removes the entry, and later pollers find the id unknown.
    let mut service = RequestService::create(test_config(None));
    let id = service.create_symbolication_request().unwrap();
    assert_eq!(
        wrap_response_channel(id, None, WaitOutcome::Canceled),
        SymbolicationResponse::InternalError
    );
    assert!(service.remove_request(id));
    assert!(!service.remove_request(id));
    assert_eq!(service.get_response(id, None, WaitOutcome::Canceled), None);
}

#[test]
fn wrap_response_channel_delivery() {
    let id = RequestId::new(7);
    let delivered = SymbolicationResponse::Failed {
        message: "no sources".to_string(),
    };
    assert_eq!(
        wrap_response_channel(id, Some(10), WaitOutcome::Delivered(3, delivered.clone())),
        delivered
    );
}

#[test]
fn pending_channel_state_is_stored() {
    let mut service = RequestService::create(test_config(None));
    let id = service.create_symbolication_request().unwrap();
    // A pending entry resolves per the wait's outcome.
    let got = service.get_response(
        id,
        Some(5),
        WaitOutcome::Delivered(9, SymbolicationResponse::Timeout),
    );
    assert_eq!(got, Some(SymbolicationResponse::Timeout));
}

#[test]
fn collapse_outcomes() {
    assert!(matches!(
        collapse_job_outcome(JobOutcome::TimedOut),
        Err(SymbolicationError::Timeout)
    ));
    let ok = collapse_job_outcome(JobOutcome::Finished(Ok(sample_response())));
    assert_eq!(ok.unwrap(), sample_response());
    let failed = collapse_job_outcome(JobOutcome::Finished(Err("engine broke".to_string())));
    match failed {
        Err(SymbolicationError::Failed(m)) => assert_eq!(m, "engine broke"),
        other => panic!("unexpected outcome: {:?}", other),
    }
}

#[test]
fn finish_strips_candidates_by_default() {
    let options = RequestOptions::default();
    assert!(!options.dif_candidates);
    let (response, session) = finish_symbolication(Ok(sample_response()), &options);
    assert_eq!(session, SessionOutcome::Exited);
    match response {
        SymbolicationResponse::Completed(b) => {
            assert_eq!(b.modules.len(), 2);
            assert_eq!(b.modules[0].debug_id, "502fc0a5-1ec1-3e47-9998-684fa139dca7");
            assert!(b.modules.iter().all(|m| m.candidates.is_empty()));
        }
        other => panic!("unexpected response: {:?}", other),
    }
}

#[test]
fn finish_keeps_candidates_when_asked() {
    let options = RequestOptions {
        dif_candidates: true,
    };
    let (response, session) = finish_symbolication(Ok(sample_response()), &options);
    assert_eq!(session, SessionOutcome::Exited);
    match response {
        SymbolicationResponse::Completed(b) => assert_eq!(*b, sample_response()),
        other => panic!("unexpected response: {:?}", other),
    }
}

#[test]
fn finish_timeout_is_abnormal() {
    let (response, session) =
        finish_symbolication(Err(SymbolicationError::Timeout), &RequestOptions::default());
    assert_eq!(response, SymbolicationResponse::Timeout);
    assert_eq!(session, SessionOutcome::Abnormal);
}

#[test]
fn finish_failure_is_crashed() {
    let (response, session) = finish_symbolication(
        Err(SymbolicationError::Failed("minidump truncated".to_string())),
        &RequestOptions::default(),
    );
    assert_eq!(session, SessionOutcome::Crashed);
    assert_eq!(
        response,
        SymbolicationResponse::Failed {
            message: "minidump truncated".to_string()
        }
    );
}

#[test]
fn clear_candidates_in_place() {
    let mut response = sample_response();
    clear_dif_candidates(&mut response);
    assert_eq!(response.modules.len(), 2);
    assert_eq!(
        response.modules[0].debug_id,
        "502fc0a5-1ec1-3e47-9998-684fa139dca7"
    );
    assert!(response.modules.iter().all(|m| m.candidates.is_empty()));
}

#[test]
fn error_messages() {
    assert_eq!(
        SymbolicationError::Timeout.message(),
        "symbolication took too long"
    );
    assert_eq!(
        SymbolicationError::Failed("boom".to_string()).message(),
        "boom"
    );
    assert_eq!(
        MaxRequestsError.message(),
        "maximum number of concurrent requests reached"
    );
}

#[test]
fn response_from_error() {
    assert_eq!(
        SymbolicationResponse::from_error(&SymbolicationError::Timeout),
        SymbolicationResponse::Timeout
    );
    assert_eq!(
        SymbolicationResponse::from_error(&SymbolicationError::Failed("boom".to_string())),
        SymbolicationResponse::Failed {
            message: "boom".to_string()
        }
    );
}

#[test]
fn request_id_carries_uuid() {
    let id = RequestId::new(0xfeed_beef);
    assert_eq!(id, RequestId(0xfeed_beef));
}

#[test]
fn request_id_display_string() {
    let id = RequestId::new(0x502fc0a5_1ec1_3e47_9998_684fa139dca7);
    assert_eq!(
        id.to_display_string(),
        "502fc0a5-1ec1-3e47-9998-684fa139dca7"
    );
    assert_eq!(
        RequestId::new(0).to_display_string(),
        "00000000-0000-0000-0000-000000000000"
    );
    assert_eq!(
        RequestId::new(u128::MAX).to_display_string(),
        "ffffffff-ffff-ffff-ffff-ffffffffffff"
    );
}
