use stunt::supervisor::{
    after_session, backoff_delay_secs, probe_check, respawn_after_adopted, stability_check, Readiness,
    ReadinessProbe, RestartDecision, MAX_BACKOFF_SECS, MAX_RETRIES,
};

#[test]
fn backoff_doubles_from_one_second_up_to_the_cap() {
    let got: Vec<u64> = (1..=10).map(backoff_delay_secs).collect();
    assert_eq!(got, vec![1, 2, 4, 8, 16, 32, 60, 60, 60, 60]);
    assert_eq!(backoff_delay_secs(u32::MAX), MAX_BACKOFF_SECS);
}

#[test]
fn backoff_never_shrinks() {
    let mut prev = 0;
    for a in 1..200u32 {
        let d = backoff_delay_secs(a);
        assert!(d >= prev && d >= 1 && d <= MAX_BACKOFF_SECS);
        prev = d;
    }
}

#[test]
fn session_end_stops_when_suspended_or_not_restarting() {
    assert!(matches!(after_session(0, true, true, true).1, RestartDecision::Stop));
    assert!(matches!(after_session(3, false, false, false).1, RestartDecision::Stop));
}

#[test]
fn session_end_retries_with_backoff_and_resets_after_ready() {
    let (a, d) = after_session(0, false, false, true);
    assert_eq!(a, 1);
    assert!(matches!(d, RestartDecision::Retry { attempt: 1, delay_secs: 1 }));
    let (a, d) = after_session(4, false, false, true);
    assert_eq!(a, 5);
    assert!(matches!(d, RestartDecision::Retry { attempt: 5, delay_secs: 16 }));
    // A session that became ready resets the count.
    let (a, d) = after_session(9, true, false, true);
    assert_eq!(a, 1);
    assert!(matches!(d, RestartDecision::Retry { attempt: 1, delay_secs: 1 }));
}

#[test]
fn session_end_gives_up_after_max_retries() {
    let (_, d) = after_session(MAX_RETRIES, false, false, true);
    match d {
        RestartDecision::GiveUp { reason } => assert_eq!(reason, "max retries (10) exhausted"),
        other => panic!("unexpected decision {other:?}"),
    }
}

#[test]
fn adopted_process_respawns_only_when_restarting() {
    assert!(respawn_after_adopted(false, true));
    assert!(!respawn_after_adopted(true, true));
    assert!(!respawn_after_adopted(false, false));
}

#[test]
fn readiness_checks() {
    assert_eq!(probe_check(true, true, false), Readiness::Failed);
    assert_eq!(probe_check(false, true, true), Readiness::Ready);
    assert_eq!(probe_check(false, false, true), Readiness::Failed);
    assert_eq!(probe_check(false, false, false), Readiness::Wait);
    assert_eq!(stability_check(true, true, true, true), Readiness::Failed);
    assert_eq!(stability_check(false, false, false, true), Readiness::Failed);
    assert_eq!(stability_check(false, true, true, true), Readiness::Ready);
    assert_eq!(stability_check(false, true, true, false), Readiness::Failed);
    assert_eq!(stability_check(false, true, false, false), Readiness::Wait);
}

#[test]
fn probe_holds_its_target() {
    let p = ReadinessProbe::new("127.0.0.1".to_string(), 8080);
    assert_eq!(p.address, "127.0.0.1");
    assert_eq!(p.port, 8080);
}
