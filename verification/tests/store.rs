//! Behavior of the status store and the main loop's update rules.

use jbtop::app::{App, HostState};
use jbtop::event::{ConnectionEvent, Event, KeyCode, KeyPress, LoadEvent};
use jbtop::handler::{apply_event, handle_host_events, handle_key_events, handle_load_events};

fn key(code: KeyCode) -> KeyPress {
    KeyPress { code, ctrl: false }
}

fn ctrl_key(code: KeyCode) -> KeyPress {
    KeyPress { code, ctrl: true }
}

#[test]
fn new_app_is_running_and_empty() {
    let app = App::new();
    assert!(app.running);
    assert_eq!(app.counter, 0);
    assert!(app.hosts.is_empty());
    assert!(app.get_host("a").is_none());
}

#[test]
fn set_host_status_inserts_up() {
    let mut app = App::new();
    app.set_host_status("a", "0.10 0.20 0.30 1/10 100\n");
    assert_eq!(
        app.get_host("a"),
        Some(&HostState::Up("0.10 0.20 0.30 1/10 100\n".to_string()))
    );
    assert!(app.get_host("b").is_none());
}

#[test]
fn set_host_overwrites_in_place() {
    let mut app = App::new();
    app.set_host_connecting("a");
    assert_eq!(app.get_host("a"), Some(&HostState::Connecting));
    app.set_host_status("a", "load");
    assert_eq!(app.get_host("a"), Some(&HostState::Up("load".to_string())));
    app.set_host_error("a", "gone");
    assert_eq!(app.get_host("a"), Some(&HostState::Down("gone".to_string())));
    assert_eq!(app.hosts.len(), 1);
}

#[test]
fn two_hosts_do_not_interfere() {
    let mut app = App::new();
    app.set_host_status("a", "la");
    app.set_host_error("b", "eb");
    assert_eq!(app.get_host("a"), Some(&HostState::Up("la".to_string())));
    assert_eq!(app.get_host("b"), Some(&HostState::Down("eb".to_string())));
    app.set_host_error("a", "ea");
    assert_eq!(app.get_host("a"), Some(&HostState::Down("ea".to_string())));
    assert_eq!(app.get_host("b"), Some(&HostState::Down("eb".to_string())));
}

#[test]
fn unmentioned_host_never_appears() {
    let mut app = App::new();
    let events = vec![
        Event::Tick,
        Event::HostStatus("a".to_string(), ConnectionEvent::Connecting),
        Event::HostStatus("b".to_string(), ConnectionEvent::Connecting),
        Event::LoadStatus("a".to_string(), LoadEvent::Load("l".to_string())),
        Event::HostStatus(
            "b".to_string(),
            ConnectionEvent::ConnectionError("e".to_string()),
        ),
        Event::Resize(80, 24),
    ];
    for ev in events {
        apply_event(ev, &mut app);
    }
    assert!(app.get_host("c").is_none());
    assert_eq!(app.hosts.len(), 2);
}

#[test]
fn connection_error_overwrites_any_prior_state() {
    // Absent, connecting and up entries all end as Down(reason).
    let mut app = App::new();
    app.set_host_connecting("b");
    app.set_host_status("c", "load");
    for host in ["a", "b", "c"] {
        handle_host_events(
            host,
            ConnectionEvent::ConnectionError("unreachable".to_string()),
            &mut app,
        );
        assert_eq!(
            app.get_host(host),
            Some(&HostState::Down("unreachable".to_string()))
        );
    }
}

#[test]
fn sample_then_sample_error_leaves_down() {
    let mut app = App::new();
    apply_event(
        Event::LoadStatus("a".to_string(), LoadEvent::Load("0.42".to_string())),
        &mut app,
    );
    apply_event(
        Event::LoadStatus("a".to_string(), LoadEvent::LoadError("boom".to_string())),
        &mut app,
    );
    assert_eq!(app.get_host("a"), Some(&HostState::Down("boom".to_string())));
    assert_eq!(app.hosts.len(), 1);
}

#[test]
fn store_holds_latest_status_per_host() {
    let mut app = App::new();
    let events = vec![
        Event::HostStatus("a".to_string(), ConnectionEvent::Connecting),
        Event::LoadStatus("b".to_string(), LoadEvent::Load("b1".to_string())),
        Event::LoadStatus("a".to_string(), LoadEvent::Load("a1".to_string())),
        Event::Tick,
        Event::HostStatus("a".to_string(), ConnectionEvent::Connected),
        Event::LoadStatus("b".to_string(), LoadEvent::LoadError("b2".to_string())),
    ];
    for ev in events {
        apply_event(ev, &mut app);
    }
    // The last event assigning "a" a status carried Up("a1"); the later
    // Connected notification assigns none. For "b" the error came last.
    assert_eq!(app.get_host("a"), Some(&HostState::Up("a1".to_string())));
    assert_eq!(app.get_host("b"), Some(&HostState::Down("b2".to_string())));
}

#[test]
fn load_events_update_store() {
    let mut app = App::new();
    handle_load_events("a", LoadEvent::Load("0.5".to_string()), &mut app);
    assert_eq!(app.get_host("a"), Some(&HostState::Up("0.5".to_string())));
    handle_load_events("a", LoadEvent::LoadError("err".to_string()), &mut app);
    assert_eq!(app.get_host("a"), Some(&HostState::Down("err".to_string())));
}

#[test]
fn connected_event_changes_nothing() {
    let mut app = App::new();
    app.set_host_status("a", "load");
    handle_host_events("a", ConnectionEvent::Connected, &mut app);
    assert_eq!(app.get_host("a"), Some(&HostState::Up("load".to_string())));
    handle_host_events("b", ConnectionEvent::Connected, &mut app);
    assert!(app.get_host("b").is_none());
}

#[test]
fn quit_keys_stop_the_application() {
    for press in [
        key(KeyCode::Esc),
        key(KeyCode::Char('q')),
        ctrl_key(KeyCode::Char('c')),
        ctrl_key(KeyCode::Char('C')),
    ] {
        let mut app = App::new();
        handle_key_events(press, &mut app);
        assert!(!app.running);
    }
}

#[test]
fn plain_c_does_not_quit() {
    let mut app = App::new();
    handle_key_events(key(KeyCode::Char('c')), &mut app);
    assert!(app.running);
    handle_key_events(key(KeyCode::Char('x')), &mut app);
    assert!(app.running);
    handle_key_events(key(KeyCode::Other), &mut app);
    assert!(app.running);
}

#[test]
fn arrow_keys_move_the_counter() {
    let mut app = App::new();
    handle_key_events(key(KeyCode::Right), &mut app);
    handle_key_events(key(KeyCode::Right), &mut app);
    assert_eq!(app.counter, 2);
    handle_key_events(key(KeyCode::Left), &mut app);
    assert_eq!(app.counter, 1);
}

#[test]
fn counter_saturates_at_both_ends() {
    let mut app = App::new();
    app.decrement_counter();
    assert_eq!(app.counter, 0);
    for _ in 0..300 {
        app.increment_counter();
    }
    assert_eq!(app.counter, u8::MAX);
    app.increment_counter();
    assert_eq!(app.counter, u8::MAX);
}

#[test]
fn tick_and_resize_change_nothing() {
    let mut app = App::new();
    app.set_host_status("a", "load");
    apply_event(Event::Tick, &mut app);
    apply_event(Event::Resize(100, 40), &mut app);
    apply_event(Event::Mouse, &mut app);
    assert!(app.running);
    assert_eq!(app.counter, 0);
    assert_eq!(app.get_host("a"), Some(&HostState::Up("load".to_string())));
}

#[test]
fn quit_event_stops_the_main_loop_flag() {
    let mut app = App::new();
    apply_event(
        Event::Key(KeyPress { code: KeyCode::Char('q'), ctrl: false }),
        &mut app,
    );
    assert!(!app.running);
}
