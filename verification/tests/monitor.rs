//! Behavior of the per-host monitor state machine, alone and driven
//! end-to-end into the status store.

use jbtop::app::{App, HostState};
use jbtop::event::{ConnectionEvent, Event, LoadEvent};
use jbtop::handler::apply_event;
use jbtop::monitor::{ConnectOutcome, HostMonitor, MonitorAction, PollOutcome};

#[test]
fn new_monitor_announces_connecting() {
    let (monitor, announce) = HostMonitor::new("a".to_string());
    assert_eq!(
        announce,
        Event::HostStatus("a".to_string(), ConnectionEvent::Connecting)
    );
    assert_eq!(monitor.on_tick(), MonitorAction::Connect);
}

#[test]
fn failing_connects_only_retry_and_never_sample() {
    let (mut monitor, announce) = HostMonitor::new("a".to_string());
    let mut emitted = vec![announce];
    for round in 0..5 {
        assert_eq!(monitor.on_tick(), MonitorAction::Connect);
        let reason = format!("refused {round}");
        let ev = monitor.on_connect_outcome(ConnectOutcome::Failed(reason.clone()));
        assert_eq!(
            ev,
            Event::HostStatus("a".to_string(), ConnectionEvent::ConnectionError(reason))
        );
        emitted.push(ev);
    }
    for ev in &emitted {
        assert!(!matches!(ev, Event::LoadStatus(_, _)));
    }
}

#[test]
fn successful_connect_then_poll_samples() {
    let sample = "0.42 0.38 0.35 1/203 9821\n";
    let (mut monitor, _) = HostMonitor::new("h".to_string());
    let ev = monitor.on_connect_outcome(ConnectOutcome::Connected);
    assert_eq!(
        ev,
        Event::HostStatus("h".to_string(), ConnectionEvent::Connected)
    );
    assert_eq!(monitor.on_tick(), MonitorAction::Poll);
    let ev = monitor.on_poll_outcome(PollOutcome::Completed(
        0,
        sample.to_string(),
        String::new(),
    ));
    assert_eq!(
        ev,
        Event::LoadStatus("h".to_string(), LoadEvent::Load(sample.to_string()))
    );

    let mut app = App::new();
    apply_event(ev, &mut app);
    assert_eq!(app.get_host("h"), Some(&HostState::Up(sample.to_string())));
}

#[test]
fn nonzero_exit_is_a_sampling_error_and_keeps_the_session() {
    let (mut monitor, _) = HostMonitor::new("h".to_string());
    monitor.on_connect_outcome(ConnectOutcome::Connected);
    let ev = monitor.on_poll_outcome(PollOutcome::Completed(
        1,
        String::new(),
        "cat: no such file".to_string(),
    ));
    assert_eq!(
        ev,
        Event::LoadStatus(
            "h".to_string(),
            LoadEvent::LoadError("cat: no such file".to_string())
        )
    );
    assert_eq!(monitor.on_tick(), MonitorAction::Poll);
}

#[test]
fn channel_failure_is_a_sampling_error_and_keeps_the_session() {
    let (mut monitor, _) = HostMonitor::new("h".to_string());
    monitor.on_connect_outcome(ConnectOutcome::Connected);
    let ev = monitor.on_poll_outcome(PollOutcome::ChannelFailed("no channel".to_string()));
    assert_eq!(
        ev,
        Event::LoadStatus("h".to_string(), LoadEvent::LoadError("no channel".to_string()))
    );
    assert_eq!(monitor.on_tick(), MonitorAction::Poll);
}

#[test]
fn lost_session_forces_reconnect() {
    let (mut monitor, _) = HostMonitor::new("h".to_string());
    monitor.on_connect_outcome(ConnectOutcome::Connected);
    let ev = monitor.on_poll_outcome(PollOutcome::SessionLost("reset by peer".to_string()));
    assert_eq!(
        ev,
        Event::HostStatus(
            "h".to_string(),
            ConnectionEvent::ConnectionError("reset by peer".to_string())
        )
    );
    assert_eq!(monitor.on_tick(), MonitorAction::Connect);
}

/// Host set `{a, b}`: "a" connects and samples successfully on every
/// interval; "b" never connects. After every interval's events are applied
/// the store holds the latest sample for "a" and the latest error for "b".
#[test]
fn end_to_end_one_good_host_one_bad_host() {
    let mut app = App::new();
    let (mut mon_a, hello_a) = HostMonitor::new("a".to_string());
    let (mut mon_b, hello_b) = HostMonitor::new("b".to_string());
    apply_event(hello_a, &mut app);
    apply_event(hello_b, &mut app);
    assert_eq!(app.get_host("a"), Some(&HostState::Connecting));
    assert_eq!(app.get_host("b"), Some(&HostState::Connecting));

    let intervals = 4;
    for round in 0..intervals {
        let ev_a = match mon_a.on_tick() {
            MonitorAction::Connect => mon_a.on_connect_outcome(ConnectOutcome::Connected),
            MonitorAction::Poll => mon_a.on_poll_outcome(PollOutcome::Completed(
                0,
                format!("0.{round} 0.10 0.05 1/10 42\n"),
                String::new(),
            )),
        };
        let ev_b = match mon_b.on_tick() {
            MonitorAction::Connect => {
                mon_b.on_connect_outcome(ConnectOutcome::Failed(format!("refused {round}")))
            }
            MonitorAction::Poll => unreachable!("b never connects"),
        };
        apply_event(ev_a, &mut app);
        apply_event(ev_b, &mut app);
        assert!(app.running);
    }

    let last = intervals - 1;
    assert_eq!(
        app.get_host("a"),
        Some(&HostState::Up(format!("0.{last} 0.10 0.05 1/10 42\n")))
    );
    assert_eq!(
        app.get_host("b"),
        Some(&HostState::Down(format!("refused {last}")))
    );
    assert_eq!(app.hosts.len(), 2);
    assert!(app.get_host("c").is_none());
}
