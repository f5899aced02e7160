use gatehouse::admission::PermitPool;
use gatehouse::failure::FailureKind;
use gatehouse::identity::ApiKeyAuth;
use gatehouse::pipeline::{admit_request, process_request, AdmissionDecision};
use gatehouse::shutdown::ShutdownCoordinator;

fn test_gate() -> ApiKeyAuth {
    ApiKeyAuth::from_apikeys(vec![
        ("key-alice".to_string(), "alice".to_string()),
        ("key-bob".to_string(), "bob".to_string()),
    ])
}

#[test]
fn unauthenticated_request_never_reaches_handler() {
    let gate = test_gate();
    let mut pool = PermitPool::new(3);
    let report = process_request(
        &gate,
        &mut pool,
        "/".to_string(),
        "GET".to_string(),
        None,
        200,
        50,
        Ok(200),
    );
    assert!(!report.handler_ran);
    assert_eq!(report.outcome.status, 401);
    assert_eq!(report.outcome.identity, "UNAUTHORIZED");
    assert_eq!(pool.available_permits(), 3);
}

#[test]
fn unknown_credential_is_recorded_with_sentinel() {
    let gate = test_gate();
    let mut pool = PermitPool::new(3);
    let credential = "no-such-key".to_string();
    let report = process_request(
        &gate,
        &mut pool,
        "/".to_string(),
        "GET".to_string(),
        Some(&credential),
        200,
        50,
        Ok(200),
    );
    assert!(!report.handler_ran);
    assert_eq!(report.outcome.status, 401);
    assert_eq!(report.outcome.identity, "UNAUTHORIZED");
}

#[test]
fn authorized_request_is_labelled_with_its_identity() {
    let gate = test_gate();
    let mut pool = PermitPool::new(3);
    let credential = "key-bob".to_string();
    let report = process_request(
        &gate,
        &mut pool,
        "/".to_string(),
        "GET".to_string(),
        Some(&credential),
        200,
        50,
        Ok(200),
    );
    assert!(report.handler_ran);
    assert_eq!(report.outcome.status, 200);
    assert_eq!(report.outcome.identity, "bob");
    assert_eq!(report.outcome.duration_ms, 50);
}

#[test]
fn three_concurrent_requests_against_capacity_two() {
    // Capacity 2, three requests in flight at once: two hold a permit, the
    // third is shed immediately, and completion restores the full balance.
    let gate = test_gate();
    let mut pool = PermitPool::new(2);
    let credential = "key-alice".to_string();

    let first = admit_request(&gate, &mut pool, Some(&credential));
    let second = admit_request(&gate, &mut pool, Some(&credential));
    let third = admit_request(&gate, &mut pool, Some(&credential));

    assert!(matches!(first, AdmissionDecision::Admitted(_)));
    assert!(matches!(second, AdmissionDecision::Admitted(_)));
    assert!(matches!(third, AdmissionDecision::Overloaded(_)));
    assert_eq!(pool.available_permits(), 0);

    pool.release();
    pool.release();
    assert_eq!(pool.available_permits(), 2);
}

#[test]
fn overload_is_shed_without_waiting() {
    let gate = test_gate();
    let mut pool = PermitPool::new(1);
    assert!(pool.try_acquire());
    let credential = "key-bob".to_string();
    let report = process_request(
        &gate,
        &mut pool,
        "/query/short".to_string(),
        "GET".to_string(),
        Some(&credential),
        200,
        500,
        Ok(204),
    );
    assert!(!report.handler_ran);
    assert_eq!(report.outcome.status, 429);
    assert_eq!(report.outcome.duration_ms, 0);
    assert_eq!(report.outcome.identity, "bob");
    assert_eq!(pool.available_permits(), 0);
    pool.release();
}

#[test]
fn deadline_overrun_yields_timeout_at_the_budget() {
    // Deadline 200 ms, handler takes 400 ms: the caller sees the timeout at
    // about 200 ms, not 400 ms, even though the handler would have succeeded.
    let gate = test_gate();
    let mut pool = PermitPool::new(2);
    let credential = "key-bob".to_string();
    let report = process_request(
        &gate,
        &mut pool,
        "/query/long".to_string(),
        "GET".to_string(),
        Some(&credential),
        200,
        400,
        Ok(200),
    );
    assert!(report.handler_ran);
    assert_eq!(report.outcome.status, 504);
    assert_eq!(report.outcome.duration_ms, 200);
    assert_eq!(pool.available_permits(), 2);
}

#[test]
fn permit_balance_is_kept_on_every_path() {
    let gate = test_gate();
    let mut pool = PermitPool::new(2);
    let credential = "key-bob".to_string();
    let cases: Vec<(u64, Result<u16, FailureKind>)> = vec![
        (50, Ok(200)),
        (50, Err(FailureKind::Validation("bad field".to_string()))),
        (50, Err(FailureKind::Internal("boom".to_string()))),
        (999, Ok(200)),
    ];
    for (handler_ms, handler_result) in cases {
        let before = pool.available_permits();
        let _ = process_request(
            &gate,
            &mut pool,
            "/".to_string(),
            "GET".to_string(),
            Some(&credential),
            200,
            handler_ms,
            handler_result,
        );
        assert_eq!(pool.available_permits(), before);
    }
}

#[test]
fn handler_failures_are_classified_through() {
    let gate = test_gate();
    let mut pool = PermitPool::new(2);
    let credential = "key-bob".to_string();
    let report = process_request(
        &gate,
        &mut pool,
        "/".to_string(),
        "GET".to_string(),
        Some(&credential),
        200,
        50,
        Err(FailureKind::Validation("missing field".to_string())),
    );
    assert_eq!(report.outcome.status, 400);
    let report = process_request(
        &gate,
        &mut pool,
        "/".to_string(),
        "GET".to_string(),
        Some(&credential),
        200,
        50,
        Err(FailureKind::Internal("secret detail".to_string())),
    );
    assert_eq!(report.outcome.status, 500);
}

#[test]
fn draining_refuses_new_connections_while_admitted_work_finishes() {
    let gate = test_gate();
    let mut pool = PermitPool::new(2);
    let mut coordinator = ShutdownCoordinator::new();
    assert!(coordinator.is_accepting());

    // A request is admitted while the service still accepts connections.
    let credential = "key-bob".to_string();
    let decision = admit_request(&gate, &mut pool, Some(&credential));
    assert!(matches!(decision, AdmissionDecision::Admitted(_)));

    // The termination signal arrives: no new connection is accepted.
    coordinator.observe_signal(true);
    assert!(!coordinator.is_accepting());

    // The already-admitted request still completes normally.
    pool.release();
    assert_eq!(pool.available_permits(), 2);

    // And the phase never reverts, whatever is observed later.
    coordinator.observe_signal(false);
    assert!(!coordinator.is_accepting());
}
