use bringup_fetch::buffer::ResponseBuffer;
use bringup_fetch::config::RetryPolicy;
use bringup_fetch::config::TlsPolicy;
use bringup_fetch::config::TransportMode;
use bringup_fetch::fetch::cycle_verdict;
use bringup_fetch::fetch::handshake_permitted;
use bringup_fetch::fetch::plan_cycle_resources;
use bringup_fetch::fetch::run_cycle;
use bringup_fetch::fetch::run_fetch_loop;
use bringup_fetch::fetch::FetchCycleResult;
use bringup_fetch::fetch::LoopDirective;
use bringup_fetch::fetch::SecureFetchLoop;
use bringup_fetch::fetch::TransportReport;

fn hello_report() -> TransportReport {
    TransportReport::Delivered {
        status: 200,
        raw_body: b"hello".to_vec(),
    }
}

#[test]
fn successful_cycle_carries_status_and_body() {
    let r = run_cycle(hello_report());
    match r {
        FetchCycleResult::Success { status, body } => {
            assert_eq!(status, 200);
            assert_eq!(body, b"hello".to_vec());
        }
        other => panic!("expected success, got {:?}", other),
    }
}

#[test]
fn build_failure_classified_and_fatal() {
    let r = run_cycle(TransportReport::BuildFailed);
    assert!(matches!(r, FetchCycleResult::RequestBuildFailed));
    assert_eq!(cycle_verdict(&r), LoopDirective::Stop);
}

#[test]
fn send_failure_classified_and_fatal() {
    let r = run_cycle(TransportReport::SendFailed);
    assert!(matches!(r, FetchCycleResult::SendFailed));
    assert_eq!(cycle_verdict(&r), LoopDirective::Stop);
}

#[test]
fn undecodable_body_classified_and_fatal() {
    let r = run_cycle(TransportReport::Delivered {
        status: 200,
        raw_body: vec![0xff, 0xfe, 0x80],
    });
    assert!(matches!(r, FetchCycleResult::BodyDecodeFailed));
    assert_eq!(cycle_verdict(&r), LoopDirective::Stop);
}

#[test]
fn non_success_status_is_not_an_error() {
    let r = run_cycle(TransportReport::Delivered {
        status: 500,
        raw_body: b"oops".to_vec(),
    });
    match &r {
        FetchCycleResult::Success { status, body } => {
            assert_eq!(*status, 500);
            assert_eq!(body, &b"oops".to_vec());
        }
        other => panic!("expected success, got {:?}", other),
    }
    assert_eq!(
        cycle_verdict(&r),
        LoopDirective::SleepThenRepeat { delay_secs: 10 }
    );
}

#[test]
fn body_at_exact_buffer_capacity_succeeds() {
    let r = run_cycle(TransportReport::Delivered {
        status: 200,
        raw_body: vec![b'a'; 8192],
    });
    match r {
        FetchCycleResult::Success { status, body } => {
            assert_eq!(status, 200);
            assert_eq!(body.len(), 8192);
        }
        other => panic!("expected success, got {:?}", other),
    }
}

#[test]
fn body_one_byte_over_capacity_fails_cleanly() {
    let r = run_cycle(TransportReport::Delivered {
        status: 200,
        raw_body: vec![b'a'; 8193],
    });
    assert!(matches!(r, FetchCycleResult::SendFailed));
}

#[test]
fn buffer_refuses_overflow_whole() {
    let mut buf = ResponseBuffer::new(4);
    assert_eq!(buf.capacity(), 4);
    assert!(buf.receive(b"ab").is_ok());
    assert_eq!(buf.len(), 2);
    assert!(buf.receive(b"cd").is_ok());
    assert_eq!(buf.len(), 4);
    assert!(buf.receive(b"e").is_err());
    assert_eq!(buf.len(), 4);
    assert_eq!(buf.into_bytes(), b"abcd".to_vec());
}

#[test]
fn buffer_accepts_chunk_exactly_at_capacity() {
    let mut buf = ResponseBuffer::new(4);
    assert!(buf.receive(b"abcd").is_ok());
    assert_eq!(buf.into_bytes(), b"abcd".to_vec());
    let mut buf = ResponseBuffer::new(4);
    assert!(buf.receive(b"abcde").is_err());
    assert_eq!(buf.len(), 0);
}

#[test]
fn empty_body_is_a_success() {
    let r = run_cycle(TransportReport::Delivered {
        status: 204,
        raw_body: Vec::new(),
    });
    match r {
        FetchCycleResult::Success { status, body } => {
            assert_eq!(status, 204);
            assert!(body.is_empty());
        }
        other => panic!("expected success, got {:?}", other),
    }
}

#[test]
fn empty_chunk_is_accepted_even_when_full() {
    let mut buf = ResponseBuffer::new(2);
    assert!(buf.receive(b"ab").is_ok());
    assert!(buf.receive(b"").is_ok());
    assert_eq!(buf.len(), 2);
}

#[test]
fn zero_capacity_buffer_only_takes_nothing() {
    let mut buf = ResponseBuffer::new(0);
    assert!(buf.receive(b"").is_ok());
    assert!(buf.receive(b"a").is_err());
    assert_eq!(buf.len(), 0);
}

#[test]
fn build_failure_on_cycle_n_ends_the_loop() {
    let reports = vec![
        hello_report(),
        hello_report(),
        TransportReport::BuildFailed,
        hello_report(),
        hello_report(),
    ];
    let results = run_fetch_loop(reports);
    assert_eq!(results.len(), 3);
    assert!(matches!(results[0], FetchCycleResult::Success { .. }));
    assert!(matches!(results[1], FetchCycleResult::Success { .. }));
    assert!(matches!(results[2], FetchCycleResult::RequestBuildFailed));
}

#[test]
fn deterministic_transport_gives_identical_cycles() {
    let reports = vec![hello_report(), hello_report(), hello_report()];
    let results = run_fetch_loop(reports);
    assert_eq!(results.len(), 3);
    for r in &results {
        match r {
            FetchCycleResult::Success { status, body } => {
                assert_eq!(*status, 200);
                assert_eq!(body, &b"hello".to_vec());
            }
            other => panic!("expected success, got {:?}", other),
        }
        assert_eq!(
            cycle_verdict(r),
            LoopDirective::SleepThenRepeat { delay_secs: 10 }
        );
    }
}

#[test]
fn task_halts_after_first_failed_cycle() {
    let mut task = SecureFetchLoop::new();
    assert!(task.will_run_next_cycle());
    assert_eq!(task.retry_policy(), RetryPolicy::FailFast);
    task.on_report(hello_report());
    assert!(task.will_run_next_cycle());
    task.on_report(TransportReport::SendFailed);
    assert!(!task.will_run_next_cycle());
}

#[test]
fn plain_target_never_builds_a_tls_session() {
    let plan = plan_cycle_resources(TransportMode::Plain, TlsPolicy::Disabled, 7);
    assert_eq!(plan.response_capacity, 8192);
    assert!(plan.tls.is_none());
}

#[test]
fn tls_target_always_builds_a_tls_session() {
    let plan = plan_cycle_resources(TransportMode::Tls, TlsPolicy::EnabledNoVerify, 99);
    assert_eq!(plan.response_capacity, 8192);
    let tls = plan.tls.expect("tls session owed for an encrypted target");
    assert_eq!(tls.read_capacity, 16640);
    assert_eq!(tls.write_capacity, 16640);
    assert_eq!(tls.seed, 99);
    assert_eq!(tls.policy, TlsPolicy::EnabledNoVerify);
}

#[test]
fn no_verify_policy_accepts_invalid_certificate() {
    assert!(handshake_permitted(TlsPolicy::EnabledNoVerify, false));
    assert!(handshake_permitted(TlsPolicy::EnabledNoVerify, true));
}

#[test]
fn verify_policy_requires_valid_certificate() {
    assert!(!handshake_permitted(TlsPolicy::EnabledVerify, false));
    assert!(handshake_permitted(TlsPolicy::EnabledVerify, true));
}
