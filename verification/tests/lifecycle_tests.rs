use static_server::lifecycle::{
    step, Lifecycle, LifecycleAction, LifecycleEvent, EXIT_BIND_FAILED, EXIT_OK,
};

#[test]
fn bind_success_starts_listening() {
    let (s, a) = step(Lifecycle::Starting, LifecycleEvent::BoundOk);
    assert_eq!(s, Lifecycle::Listening { in_flight: 0 });
    assert_eq!(a, LifecycleAction::Continue);
}

#[test]
fn bind_failure_is_fatal() {
    let (s, a) = step(Lifecycle::Starting, LifecycleEvent::BindFailed);
    assert_eq!(s, Lifecycle::Stopped { exit: EXIT_BIND_FAILED });
    assert_eq!(a, LifecycleAction::Exit);
}

#[test]
fn listening_accepts_connections() {
    let (s, a) = step(Lifecycle::Listening { in_flight: 0 }, LifecycleEvent::Connection);
    assert_eq!(s, Lifecycle::Listening { in_flight: 1 });
    assert_eq!(a, LifecycleAction::Accept);
}

#[test]
fn finished_request_keeps_server_listening() {
    let (s, a) = step(Lifecycle::Listening { in_flight: 2 }, LifecycleEvent::RequestDone);
    assert_eq!(s, Lifecycle::Listening { in_flight: 1 });
    assert_eq!(a, LifecycleAction::Continue);
    // The next connection is still accepted.
    let (s2, a2) = step(s, LifecycleEvent::Connection);
    assert_eq!(s2, Lifecycle::Listening { in_flight: 2 });
    assert_eq!(a2, LifecycleAction::Accept);
}

#[test]
fn signal_with_work_in_flight_drains() {
    let (s, a) = step(Lifecycle::Listening { in_flight: 3 }, LifecycleEvent::Signal);
    assert_eq!(s, Lifecycle::Draining { in_flight: 3 });
    assert_eq!(a, LifecycleAction::Continue);
}

#[test]
fn signal_with_idle_server_stops_at_once() {
    let (s, a) = step(Lifecycle::Listening { in_flight: 0 }, LifecycleEvent::Signal);
    assert_eq!(s, Lifecycle::Stopped { exit: EXIT_OK });
    assert_eq!(a, LifecycleAction::Exit);
}

#[test]
fn draining_refuses_new_connections() {
    let (s, a) = step(Lifecycle::Draining { in_flight: 2 }, LifecycleEvent::Connection);
    assert_eq!(s, Lifecycle::Draining { in_flight: 2 });
    assert_eq!(a, LifecycleAction::Refuse);
}

#[test]
fn drain_completes_then_exits_cleanly() {
    let (s1, a1) = step(Lifecycle::Draining { in_flight: 2 }, LifecycleEvent::RequestDone);
    assert_eq!(s1, Lifecycle::Draining { in_flight: 1 });
    assert_eq!(a1, LifecycleAction::Continue);
    let (s2, a2) = step(s1, LifecycleEvent::RequestDone);
    assert_eq!(s2, Lifecycle::Stopped { exit: EXIT_OK });
    assert_eq!(a2, LifecycleAction::Exit);
}

#[test]
fn full_graceful_shutdown_walk() {
    let (s, _) = step(Lifecycle::Starting, LifecycleEvent::BoundOk);
    let (s, a) = step(s, LifecycleEvent::Connection);
    assert_eq!(a, LifecycleAction::Accept);
    let (s, _) = step(s, LifecycleEvent::Signal);
    assert_eq!(s, Lifecycle::Draining { in_flight: 1 });
    let (s, a) = step(s, LifecycleEvent::Connection);
    assert_eq!(a, LifecycleAction::Refuse);
    let (s, a) = step(s, LifecycleEvent::RequestDone);
    assert_eq!(s, Lifecycle::Stopped { exit: EXIT_OK });
    assert_eq!(a, LifecycleAction::Exit);
}
