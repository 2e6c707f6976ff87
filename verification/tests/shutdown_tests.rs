use lifecycle_core::shutdown::{install_listeners, SignalKind};

#[test]
fn install_needs_both_listeners() {
    assert!(install_listeners(true, true).is_ok());
    let e = install_listeners(false, true).expect_err("terminate listener missing");
    assert_eq!(e.listener, SignalKind::Terminate);
    let e = install_listeners(true, false).expect_err("interrupt listener missing");
    assert_eq!(e.listener, SignalKind::Interrupt);
    let e = install_listeners(false, false).expect_err("both listeners missing");
    assert_eq!(e.listener, SignalKind::Terminate);
}

#[test]
fn signal_is_delivered_at_most_once() {
    let mut c = install_listeners(true, true).unwrap();
    assert!(c.signal(SignalKind::Terminate));
    assert!(!c.signal(SignalKind::Interrupt));
    assert!(!c.signal(SignalKind::Terminate));
    assert!(c.raised);
}

#[test]
fn either_signal_kind_raises_shutdown() {
    let mut c = install_listeners(true, true).unwrap();
    assert!(c.signal(SignalKind::Interrupt));
    assert!(c.raised);
}

#[test]
fn no_accept_after_shutdown_and_in_flight_completes() {
    let mut c = install_listeners(true, true).unwrap();
    assert!(c.should_accept());
    assert!(c.try_accept());
    assert!(c.try_accept());
    assert_eq!(c.in_flight, 2);
    c.finish_one();
    c.signal(SignalKind::Terminate);
    assert!(!c.should_accept());
    assert!(!c.try_accept());
    assert_eq!(c.accepted, 2);
    assert!(!c.drained());
    c.finish_one();
    assert!(c.drained());
    assert_eq!(c.completed, 2);
    assert_eq!(c.in_flight, 0);
}
