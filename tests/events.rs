use b2b::events::{
    delivery_mode, DeliveryMode, Event, EventKind, EventQueue, Subscription, SubscriptionPhase,
    UnregisterStep, UNREGISTER_WAIT_MS,
};

fn ev(code: i32) -> Event {
    Event { code, text: None }
}

#[test]
fn fixed_names_map_to_kinds() {
    assert_eq!(EventKind::from_name(Some("REGISTERING")), EventKind::Registering);
    assert_eq!(EventKind::from_name(Some("REGISTER_OK")), EventKind::RegisterOk);
    assert_eq!(EventKind::from_name(Some("REGISTER_FAIL")), EventKind::RegisterFail);
    assert_eq!(EventKind::from_name(Some("UNREGISTERING")), EventKind::Unregistering);
    assert_eq!(EventKind::from_name(Some("FALLBACK_OK")), EventKind::FallbackOk);
    assert_eq!(EventKind::from_name(Some("FALLBACK_FAIL")), EventKind::FallbackFail);
    assert_eq!(EventKind::from_name(Some("CREATE")), EventKind::Create);
    assert_eq!(EventKind::from_name(Some("SHUTDOWN")), EventKind::Shutdown);
    assert_eq!(EventKind::from_name(Some("EXIT")), EventKind::Exit);
    assert_eq!(EventKind::from_name(Some("MODULE")), EventKind::Module);
    assert_eq!(EventKind::from_name(Some("CUSTOM")), EventKind::Custom);
}

#[test]
fn other_names_are_kept() {
    assert_eq!(
        EventKind::from_name(Some("CALL_ESTABLISHED")),
        EventKind::Other("CALL_ESTABLISHED".to_string())
    );
    assert_eq!(EventKind::from_name(Some("registering")), EventKind::Other("registering".to_string()));
    assert_eq!(EventKind::from_name(None), EventKind::Other("?".to_string()));
}

#[test]
fn kind_name_round_trips() {
    for n in ["REGISTERING", "EXIT", "CUSTOM", "CALL_CLOSED"] {
        assert_eq!(EventKind::from_name(Some(n)).name(), n);
    }
}

#[test]
fn capacity_selects_mode() {
    assert_eq!(delivery_mode(0), DeliveryMode::Unbounded);
    assert_eq!(delivery_mode(3), DeliveryMode::Bounded(3));
}

#[test]
fn bounded_queue_drops_newest_when_full() {
    let mut q = EventQueue::new(DeliveryMode::Bounded(1));
    assert!(q.deliver(ev(0)));
    assert!(!q.deliver(ev(2)));
    assert_eq!(q.len(), 1);
    assert_eq!(q.receive(), Some(ev(0)));
    assert_eq!(q.receive(), None);
}

#[test]
fn unbounded_queue_keeps_everything_in_order() {
    let mut q = EventQueue::new(DeliveryMode::Unbounded);
    for c in 0..100 {
        assert!(q.deliver(Event { code: c, text: Some(format!("e{c}")) }));
    }
    for c in 0..100 {
        assert_eq!(q.receive(), Some(Event { code: c, text: Some(format!("e{c}")) }));
    }
}

#[test]
fn unregister_returns_within_bound_while_engine_busy() {
    // The engine thread is busy for 1000 ms with another job.
    let mut s = Subscription::new(0);
    s.begin_unregister(true);
    assert_eq!(s.phase(), SubscriptionPhase::TeardownScheduled);
    let mut waited = 0u64;
    let mut released_at = None;
    while waited <= 1000 {
        let confirmed = waited >= 1000;
        if s.poll_unregister(confirmed, waited) == UnregisterStep::Release {
            released_at = Some(waited);
            break;
        }
        waited += 50;
    }
    assert_eq!(released_at, Some(UNREGISTER_WAIT_MS));
    assert_eq!(s.phase(), SubscriptionPhase::WaitElapsed);
    assert!(s.release());
    assert_eq!(s.phase(), SubscriptionPhase::Released);
}

#[test]
fn unregister_after_engine_gone_tears_down_in_caller() {
    let mut s = Subscription::new(4);
    assert_eq!(s.mode(), DeliveryMode::Bounded(4));
    s.begin_unregister(false);
    assert_eq!(s.phase(), SubscriptionPhase::TornDown);
    assert_eq!(s.poll_unregister(false, 0), UnregisterStep::Release);
}

#[test]
fn confirmed_teardown_releases_at_once() {
    let mut s = Subscription::new(0);
    s.begin_unregister(true);
    assert_eq!(s.poll_unregister(false, 10), UnregisterStep::Wait);
    assert_eq!(s.poll_unregister(true, 20), UnregisterStep::Release);
    assert_eq!(s.phase(), SubscriptionPhase::TornDown);
}

#[test]
fn live_subscription_is_not_released() {
    let mut s = Subscription::new(0);
    assert!(!s.release());
    assert_eq!(s.phase(), SubscriptionPhase::Live);
}

#[test]
fn scheduled_teardown_is_not_released_early() {
    let mut s = Subscription::new(0);
    s.begin_unregister(true);
    assert!(!s.release());
    assert_eq!(s.poll_unregister(false, UNREGISTER_WAIT_MS - 1), UnregisterStep::Wait);
    assert!(!s.release());
    assert_eq!(s.phase(), SubscriptionPhase::TeardownScheduled);
    assert_eq!(s.poll_unregister(false, UNREGISTER_WAIT_MS), UnregisterStep::Release);
    assert!(s.release());
    assert!(!s.release());
}
