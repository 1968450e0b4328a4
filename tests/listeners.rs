use listeners::{
    is_transient_error, join, AcceptAction, AcceptEvent, Backoff, ConcurrentListener, ConcurrentRun,
    EndpointListener, ErrorKind, FailoverListener, FailoverStep, ListenError, Listener, ParsedEndpoint,
    Phase, Transport,
};

const ALL_KINDS: [ErrorKind; 16] = [
    ErrorKind::NotFound,
    ErrorKind::PermissionDenied,
    ErrorKind::ConnectionRefused,
    ErrorKind::ConnectionReset,
    ErrorKind::ConnectionAborted,
    ErrorKind::NotConnected,
    ErrorKind::AddrInUse,
    ErrorKind::AddrNotAvailable,
    ErrorKind::BrokenPipe,
    ErrorKind::WouldBlock,
    ErrorKind::InvalidInput,
    ErrorKind::TimedOut,
    ErrorKind::Interrupted,
    ErrorKind::Unsupported,
    ErrorKind::OutOfMemory,
    ErrorKind::Other,
];

fn running_tcp(addr: &str, floor: u64, ceiling: u64) -> EndpointListener {
    let mut l = EndpointListener::tcp(addr.to_string(), floor, ceiling);
    assert!(l.begin_listen().is_ok());
    assert!(l.bind_finished(Ok(())).is_ok());
    l
}

#[test]
fn classifier_reports_transient_kinds_only() {
    for k in ALL_KINDS {
        let expected = matches!(
            k,
            ErrorKind::ConnectionRefused | ErrorKind::ConnectionAborted | ErrorKind::ConnectionReset
        );
        assert_eq!(is_transient_error(k), expected, "{:?}", k);
    }
}

#[test]
fn bound_tcp_listener_dispatches_a_connection_once() {
    let mut l = EndpointListener::tcp("127.0.0.1:8080".to_string(), 1, 1000);
    assert_eq!(l.phase(), Phase::NotBound);
    assert!(l.begin_listen().is_ok());
    assert_eq!(l.phase(), Phase::Binding);
    assert!(l.bind_finished(Ok(())).is_ok());
    assert_eq!(l.phase(), Phase::Running);
    let a = l.on_accept(AcceptEvent::Accepted);
    assert!(matches!(a, AcceptAction::Dispatch));
    assert_eq!(l.phase(), Phase::Running);
}

#[test]
fn bind_to_address_in_use_is_a_bind_error() {
    let mut l = EndpointListener::tcp("127.0.0.1:8080".to_string(), 1, 1000);
    assert!(l.begin_listen().is_ok());
    let r = l.bind_finished(Err(ErrorKind::AddrInUse));
    assert!(matches!(r, Err(ListenError::Bind(ErrorKind::AddrInUse))));
    assert_eq!(l.phase(), Phase::Terminated);
    // the listener never runs an accept loop again
    assert!(matches!(l.begin_listen(), Err(ListenError::Consumed)));
    assert_eq!(l.phase(), Phase::Terminated);
}

#[test]
fn backoff_doubles_up_to_ceiling_and_resets_after_accept() {
    let mut l = running_tcp("127.0.0.1:8080", 10, 100);
    let mut delays = Vec::new();
    for _ in 0..6 {
        match l.on_accept(AcceptEvent::Failed(ErrorKind::ConnectionReset)) {
            AcceptAction::Retry(ms) => delays.push(ms),
            other => panic!("unexpected {:?}", other),
        }
    }
    assert_eq!(delays, vec![10, 20, 40, 80, 100, 100]);
    assert!(matches!(l.on_accept(AcceptEvent::Accepted), AcceptAction::Dispatch));
    assert_eq!(l.backoff().current_ms(), 10);
    assert!(matches!(
        l.on_accept(AcceptEvent::Failed(ErrorKind::ConnectionAborted)),
        AcceptAction::Retry(10)
    ));
}

#[test]
fn backoff_caps_at_an_odd_ceiling() {
    let mut b = Backoff::new(3, 10);
    assert_eq!(b.on_transient_error(), 3);
    assert_eq!(b.on_transient_error(), 6);
    assert_eq!(b.on_transient_error(), 10);
    assert_eq!(b.on_transient_error(), 10);
    assert_eq!(b.current_ms(), 10);
    b.reset();
    assert_eq!(b.current_ms(), 3);
    assert_eq!(b.floor_ms(), 3);
    assert_eq!(b.ceiling_ms(), 10);
}

#[test]
fn backoff_at_largest_ceiling_does_not_overflow() {
    let mut b = Backoff::new(u64::MAX / 2 + 1, u64::MAX);
    assert_eq!(b.on_transient_error(), u64::MAX / 2 + 1);
    assert_eq!(b.current_ms(), u64::MAX);
    assert_eq!(b.on_transient_error(), u64::MAX);
}

#[test]
fn fatal_accept_error_ends_the_loop() {
    let mut l = running_tcp("127.0.0.1:8080", 1, 8);
    let a = l.on_accept(AcceptEvent::Failed(ErrorKind::NotConnected));
    assert!(matches!(a, AcceptAction::Stop(ListenError::Accept(ErrorKind::NotConnected))));
    assert_eq!(l.phase(), Phase::Terminated);
}

#[test]
fn concurrent_bind_failure_leaves_sibling_running() {
    let mut c = ConcurrentListener::new();
    c.add(EndpointListener::tcp("127.0.0.1:80".to_string(), 1, 8));
    c.add(EndpointListener::tcp("127.0.0.1:8080".to_string(), 1, 8));
    let mut children = c.begin_listen().unwrap();
    assert_eq!(children.len(), 2);
    let mut run = ConcurrentRun::new(children.len());

    let a_bind = {
        let a = &mut children[0];
        a.begin_listen().unwrap();
        a.bind_finished(Err(ErrorKind::PermissionDenied))
    };
    run.record(0, a_bind);
    assert!(!run.is_finished());

    let b = &mut children[1];
    b.begin_listen().unwrap();
    assert!(b.bind_finished(Ok(())).is_ok());
    assert!(matches!(b.on_accept(AcceptEvent::Accepted), AcceptAction::Dispatch));
    assert!(matches!(b.on_accept(AcceptEvent::Accepted), AcceptAction::Dispatch));
    assert_eq!(b.phase(), Phase::Running);
    assert!(!run.is_finished());

    run.record(1, Ok(()));
    assert!(run.is_finished());
    match run.into_result() {
        Err(ListenError::Composite(errors)) => {
            assert_eq!(errors.len(), 1);
            assert!(matches!(errors[0], ListenError::Bind(ErrorKind::PermissionDenied)));
        }
        other => panic!("unexpected {:?}", other),
    }
}

#[test]
fn concurrent_reports_every_child_error_in_order() {
    let mut run = ConcurrentRun::new(3);
    run.record(2, Err(ListenError::Accept(ErrorKind::Other)));
    run.record(0, Err(ListenError::Bind(ErrorKind::AddrInUse)));
    run.record(1, Ok(()));
    match run.into_result() {
        Err(ListenError::Composite(errors)) => {
            assert_eq!(errors.len(), 2);
            assert!(matches!(errors[0], ListenError::Bind(ErrorKind::AddrInUse)));
            assert!(matches!(errors[1], ListenError::Accept(ErrorKind::Other)));
        }
        other => panic!("unexpected {:?}", other),
    }
}

#[test]
fn concurrent_with_no_failure_succeeds() {
    let mut run = ConcurrentRun::new(2);
    run.record(0, Ok(()));
    run.record(1, Ok(()));
    assert!(matches!(run.into_result(), Ok(())));
    assert!(ConcurrentRun::new(0).is_finished());
}

#[test]
fn failover_serves_first_candidate_that_binds() {
    let mut f = FailoverListener::new();
    f.add(EndpointListener::tcp("127.0.0.1:80".to_string(), 1, 8));
    f.add(EndpointListener::tcp("127.0.0.1:8080".to_string(), 1, 8));
    f.add(EndpointListener::tcp("127.0.0.1:9090".to_string(), 1, 8));
    assert_eq!(f.describe(), "not yet bound");
    let mut candidates = f.begin_listen().unwrap();
    let mut attempted = Vec::new();
    let served = loop {
        match f.next_step() {
            FailoverStep::Attempt(i) => {
                attempted.push(i);
                let c = &mut candidates[i];
                c.begin_listen().unwrap();
                let r = if i == 0 {
                    c.bind_finished(Err(ErrorKind::PermissionDenied))
                } else {
                    c.bind_finished(Ok(()))
                };
                f.record_bind(r);
            }
            FailoverStep::Serve(i) => break i,
            FailoverStep::Exhausted => panic!("no candidate bound"),
        }
    };
    assert_eq!(served, 1);
    assert_eq!(attempted, vec![0, 1]);
    assert_eq!(f.next_step(), FailoverStep::Serve(1));
    assert_eq!(candidates[2].phase(), Phase::NotBound);
    assert_eq!(f.describe(), "http://127.0.0.1:8080");
}

#[test]
fn failover_with_all_candidates_failing_is_an_aggregate_error() {
    let mut f = FailoverListener::new();
    f.add(EndpointListener::tcp("127.0.0.1:80".to_string(), 1, 8));
    f.add(EndpointListener::unix("/run/app.sock".to_string(), 1, 8));
    let mut candidates = f.begin_listen().unwrap();
    let mut served = 0;
    loop {
        match f.next_step() {
            FailoverStep::Attempt(i) => {
                let c = &mut candidates[i];
                c.begin_listen().unwrap();
                let kind = if i == 0 { ErrorKind::AddrInUse } else { ErrorKind::NotFound };
                f.record_bind(c.bind_finished(Err(kind)));
            }
            FailoverStep::Serve(_) => served += 1,
            FailoverStep::Exhausted => break,
        }
    }
    assert_eq!(served, 0);
    match f.take_failures() {
        ListenError::Composite(errors) => {
            assert_eq!(errors.len(), 2);
            assert!(matches!(errors[0], ListenError::Bind(ErrorKind::AddrInUse)));
            assert!(matches!(errors[1], ListenError::Bind(ErrorKind::NotFound)));
        }
        other => panic!("unexpected {:?}", other),
    }
    assert_eq!(f.next_step(), FailoverStep::Exhausted);
}

#[test]
fn failover_with_no_candidates_is_exhausted() {
    let mut f = FailoverListener::new();
    assert!(f.begin_listen().unwrap().is_empty());
    assert_eq!(f.next_step(), FailoverStep::Exhausted);
    assert!(matches!(f.take_failures(), ListenError::Composite(e) if e.is_empty()));
}

#[test]
fn second_listen_is_refused_with_a_bind_error() {
    let mut l = running_tcp("127.0.0.1:8080", 1, 8);
    assert!(matches!(l.begin_listen(), Err(ListenError::Consumed)));
    assert_eq!(l.phase(), Phase::Running);

    let mut c = ConcurrentListener::new();
    c.add(EndpointListener::tcp("127.0.0.1:8080".to_string(), 1, 8));
    assert_eq!(c.begin_listen().unwrap().len(), 1);
    assert!(matches!(c.begin_listen(), Err(ListenError::Consumed)));

    let mut f = FailoverListener::new();
    f.add(EndpointListener::tcp("127.0.0.1:8080".to_string(), 1, 8));
    assert_eq!(f.begin_listen().unwrap().len(), 1);
    assert!(matches!(f.begin_listen(), Err(ListenError::Consumed)));
}

#[test]
fn endpoints_describe_scheme_and_address() {
    let t = EndpointListener::tcp("127.0.0.1:8080".to_string(), 1, 8);
    assert_eq!(t.describe(), "http://127.0.0.1:8080");
    let u = EndpointListener::unix("/tmp/app.sock".to_string(), 1, 8);
    assert_eq!(u.describe(), "http+unix:///tmp/app.sock");
    let d = EndpointListener::from_bound(Transport::Unix, "/tmp/fd.sock".to_string(), 1, 8);
    assert!(d.is_prebound());
    assert_eq!(d.transport(), Transport::Unix);
    assert_eq!(d.address(), "/tmp/fd.sock");
    assert_eq!(d.describe(), "http+unix:///tmp/fd.sock");
}

#[test]
fn concurrent_describe_joins_children() {
    let mut c = ConcurrentListener::new();
    assert_eq!(c.describe(), "");
    c.add(EndpointListener::tcp("127.0.0.1:8080".to_string(), 1, 8));
    assert_eq!(c.describe(), "http://127.0.0.1:8080");
    c.add(EndpointListener::unix("/tmp/a.sock".to_string(), 1, 8));
    assert_eq!(c.len(), 2);
    assert_eq!(c.describe(), "http://127.0.0.1:8080, http+unix:///tmp/a.sock");
    let _ = c.begin_listen().unwrap();
    assert_eq!(c.describe(), "http://127.0.0.1:8080, http+unix:///tmp/a.sock");
    let names = vec!["a".to_string(), "b".to_string(), "c".to_string()];
    assert_eq!(join(&names), "a, b, c");
}

#[test]
fn parsed_endpoint_unwraps_to_its_listener() {
    let p = ParsedEndpoint::Unix(EndpointListener::unix("/tmp/x.sock".to_string(), 1, 8));
    let l = Listener::from_parsed(p);
    assert_eq!(l.describe(), "http+unix:///tmp/x.sock");
    let q = ParsedEndpoint::Tcp(EndpointListener::tcp("0.0.0.0:80".to_string(), 1, 8));
    let e = q.into_listener();
    assert_eq!(e.transport(), Transport::Tcp);
    assert!(!e.is_prebound());
    let f = Listener::Failover(FailoverListener::new());
    assert_eq!(f.describe(), "not yet bound");
}
