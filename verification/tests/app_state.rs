//! The operator loop's state: configuration validation, the alert queue's
//! age-bounded eviction with its render-offset clamp, and key and mouse
//! dispositions.

use opensnitch_tui::alert::{Alert, Priority, Type, What};
use opensnitch_tui::app::{App, BindAddress, Button};
use opensnitch_tui::broker::{DispositionBroker, DispositionReply};
use opensnitch_tui::constants::{Action, Duration};
use opensnitch_tui::event::{AppEvent, KeyCommand, KeyInput, QueuedConnection};
use opensnitch_tui::messages::Connection;

fn new_app() -> App {
    App::new(
        &"127.0.0.1:65534".to_string(),
        &"deny".to_string(),
        &"12h".to_string(),
        &60,
    )
    .expect("new failed")
}

fn alert_at(ts: u64, msg: &str) -> Alert {
    Alert {
        timestamp: ts,
        priority: Priority::Low,
        kind: Type::Info,
        what: What::Generic,
        msg: String::from(msg),
    }
}

fn descriptor(host: &str) -> Connection {
    Connection {
        protocol: String::from("tcp"),
        src_ip: String::from("192.168.0.3"),
        src_port: 1337,
        dst_ip: String::from("192.128.0.4"),
        dst_host: String::from(host),
        dst_port: 1338,
        user_id: 1000,
        process_id: 1339,
        process_path: String::from("/usr/bin/hello"),
        process_cwd: String::from("/home/spongebob"),
        process_args: vec![],
        process_env: vec![],
        process_checksums: vec![],
        process_tree: vec![],
    }
}

/// Simple construction test.
#[test]
fn test_new() {
    let _ = App::new(
        &"127.0.0.1:65534".to_string(),
        &"deny".to_string(),
        &"12h".to_string(),
        &60,
    )
    .expect("new failed");
}

/// Test Unix socket address parsing.
#[test]
fn test_unix_socket() {
    let app = App::new(
        &"unix:///tmp/test.sock".to_string(),
        &"deny".to_string(),
        &"12h".to_string(),
        &60,
    )
    .expect("new failed");

    match app.bind_address {
        BindAddress::Unix(path) => {
            assert_eq!(path, "/tmp/test.sock");
        }
        BindAddress::Tcp(_) => {
            panic!("Expected Unix socket, got TCP");
        }
    }
}

/// Test that empty Unix socket path is rejected.
#[test]
fn test_unix_socket_empty_path() {
    let result = App::new(
        &"unix://".to_string(),
        &"deny".to_string(),
        &"12h".to_string(),
        &60,
    );

    assert!(result.is_err());
    assert_eq!(result.unwrap_err(), "Unix socket path cannot be empty");
}

/// Test that making a rule with no "current connection" generates a noop.
#[test]
fn test_make_rule_no_conn() {
    let app = new_app();

    assert!(app.broker.pending.is_none());

    let maybe_rule = app.make_rule(Action::Allow, Duration::Once);
    assert!(maybe_rule.is_none());
}

#[test]
fn new_rejects_bad_action_lifetime_and_timeout() {
    let bind = "127.0.0.1:65534".to_string();
    let err = App::new(&bind, &"drop".to_string(), &"12h".to_string(), &60).unwrap_err();
    assert_eq!(err, "Invalid default action: drop");
    let err = App::new(&bind, &"deny".to_string(), &"2h".to_string(), &60).unwrap_err();
    assert_eq!(err, "Invalid temporary rule lifetime: 2h");
    let err = App::new(&bind, &"deny".to_string(), &"12h".to_string(), &116).unwrap_err();
    assert_eq!(err, "Connection disposition timeout 116 cannot be over 115");
    assert!(App::new(&bind, &"deny".to_string(), &"12h".to_string(), &115).is_ok());
}

/// An alert stays through a tick at 59 seconds of age and leaves at 61; the
/// render offset that sat on the evicted tail position is clamped back.
#[test]
fn alert_queue_sixty_second_eviction() {
    let mut app = new_app();
    let t0: u64 = 1_000;
    assert!(app.handle_event(AppEvent::Alert(alert_at(t0, "one")), t0).is_none());

    assert!(!app.tick(t0 + 59));
    assert_eq!(app.current_alerts.len(), 1);

    assert!(app.tick(t0 + 61));
    assert_eq!(app.current_alerts.len(), 0);
    assert_eq!(app.alert_list_render_offset, 0);
}

#[test]
fn eviction_clamps_render_offset_to_remaining_tail() {
    let mut app = new_app();
    let t0: u64 = 5_000;
    app.handle_event(AppEvent::Alert(alert_at(t0, "old")), t0);
    app.handle_event(AppEvent::Alert(alert_at(t0 + 30, "young")), t0 + 30);

    // Scroll to the back of the two-entry list.
    assert!(app.handle_key(KeyInput::Down).is_none());
    assert_eq!(app.alert_list_render_offset, 1);

    // Only the front entry is old enough to leave.
    assert!(app.tick(t0 + 61));
    assert_eq!(app.current_alerts.len(), 1);
    assert_eq!(app.current_alerts[0].msg, "young");
    assert_eq!(app.alert_list_render_offset, 0);

    // A second tick at the same instant changes nothing: the survivor is
    // only 31 seconds old.
    assert!(!app.tick(t0 + 61));
    assert_eq!(app.current_alerts.len(), 1);
}

#[test]
fn scroll_keys_stay_within_queue() {
    let mut app = new_app();
    assert!(app.handle_key(KeyInput::Up).is_none());
    assert_eq!(app.alert_list_render_offset, 0);
    // Down on an empty queue does nothing.
    assert!(app.handle_key(KeyInput::Down).is_none());
    assert_eq!(app.alert_list_render_offset, 0);

    app.handle_event(AppEvent::Alert(alert_at(10, "a")), 10);
    app.handle_event(AppEvent::Alert(alert_at(11, "b")), 11);
    app.handle_key(KeyInput::Down);
    app.handle_key(KeyInput::Down);
    app.handle_key(KeyInput::Down);
    assert_eq!(app.alert_list_render_offset, 1);
    app.handle_key(KeyInput::Up);
    assert_eq!(app.alert_list_render_offset, 0);
}

#[test]
fn quit_paths_stop_the_loop() {
    let mut app = new_app();
    assert!(app.running);
    let cmd = app.handle_key(KeyInput::Ctrl('c'));
    assert_eq!(cmd, Some(KeyCommand::Quit));
    assert!(app.running, "the key only asks; the quit event stops the loop");
    assert!(app.handle_event(AppEvent::Quit, 0).is_none());
    assert!(!app.running);
}

#[test]
fn test_notify_round_trip() {
    let mut app = new_app();
    let cmd = app.handle_key(KeyInput::Plain('t'));
    assert_eq!(cmd, Some(KeyCommand::TestNotify));
    let notification = app
        .handle_event(AppEvent::TestNotify, 0)
        .expect("missing notification");
    assert_eq!(notification.id, 123);
    assert_eq!(notification.kind, 14);
    assert_eq!(notification.data, "Test notification triggers an error");
    assert!(notification.rules.is_empty());
}

#[test]
fn allow_key_dispositions_pending_connection() {
    let mut app = new_app();
    let (tx, mut rx) = tokio::sync::oneshot::channel::<DispositionReply>();
    let queued = QueuedConnection {
        connection: descriptor(""),
        reply: tx,
    };
    assert!(app.handle_event(AppEvent::AskRule(queued), 100).is_none());
    assert!(app.broker.pending.is_some());

    assert!(app.handle_key(KeyInput::Plain('a')).is_none());
    assert!(app.broker.pending.is_none());

    match rx.try_recv().expect("no reply delivered") {
        DispositionReply::Rule(rule) => {
            assert_eq!(rule.name, "allow-192.128.0.4");
            assert_eq!(rule.duration, "12h");
        }
        DispositionReply::AlreadyPending => panic!("unexpected rejection"),
    }
}

#[test]
fn deny_forever_key_uses_always_lifetime() {
    let mut app = new_app();
    let (tx, mut rx) = tokio::sync::oneshot::channel::<DispositionReply>();
    let queued = QueuedConnection {
        connection: descriptor("suspicious.local"),
        reply: tx,
    };
    app.handle_event(AppEvent::AskRule(queued), 100);
    app.handle_key(KeyInput::Plain('l'));
    match rx.try_recv().expect("no reply delivered") {
        DispositionReply::Rule(rule) => {
            assert_eq!(rule.name, "deny-suspicious.local");
            assert_eq!(rule.duration, "always");
        }
        DispositionReply::AlreadyPending => panic!("unexpected rejection"),
    }
}

#[test]
fn mouse_click_hits_first_button() {
    let mut app = new_app();
    app.set_buttons(vec![
        Button {
            x: 2,
            y: 5,
            width: 10,
            height: 1,
            action: Action::Allow,
            duration: Duration::UntilRestart,
        },
        Button {
            x: 13,
            y: 5,
            width: 9,
            height: 1,
            action: Action::Deny,
            duration: Duration::UntilRestart,
        },
    ]);

    // A click outside every button does nothing.
    assert!(!app.handle_mouse(1, 5));
    assert!(!app.handle_mouse(2, 4));

    let (tx, mut rx) = tokio::sync::oneshot::channel::<DispositionReply>();
    app.handle_event(
        AppEvent::AskRule(QueuedConnection {
            connection: descriptor(""),
            reply: tx,
        }),
        100,
    );
    assert!(app.handle_mouse(14, 5));
    match rx.try_recv().expect("no reply delivered") {
        DispositionReply::Rule(rule) => {
            assert_eq!(rule.name, "deny-192.128.0.4");
            assert_eq!(rule.duration, "until restart");
        }
        DispositionReply::AlreadyPending => panic!("unexpected rejection"),
    }
}

/// A second disposition request while one is outstanding is answered
/// `AlreadyPending` at once, and the first stays pending.
#[test]
fn second_disposition_request_is_rejected() {
    let mut app = new_app();
    let (tx1, mut rx1) = tokio::sync::oneshot::channel::<DispositionReply>();
    let (tx2, mut rx2) = tokio::sync::oneshot::channel::<DispositionReply>();
    app.handle_event(
        AppEvent::AskRule(QueuedConnection {
            connection: descriptor(""),
            reply: tx1,
        }),
        100,
    );
    app.handle_event(
        AppEvent::AskRule(QueuedConnection {
            connection: descriptor("suspicious.local"),
            reply: tx2,
        }),
        101,
    );
    assert_eq!(rx2.try_recv().unwrap(), DispositionReply::AlreadyPending);
    assert!(rx1.try_recv().is_err(), "first request must still wait");
    let pending = app.broker.pending.as_ref().expect("first request lost");
    assert_eq!(pending.connection.dst_ip, "192.128.0.4");
    assert_eq!(pending.expiry, 160);
}

#[test]
fn update_event_counts_pings_and_keeps_latest_stats() {
    let mut app = new_app();
    assert_eq!(app.rx_pings, 0);
    let stats = opensnitch_tui::messages::Statistics {
        daemon_version: String::from("1.6.6"),
        rules: 4,
        uptime: 99,
        dns_responses: 1,
        connections: 2,
        ignored: 3,
        accepted: 5,
        dropped: 6,
        rule_hits: 7,
        rule_misses: 8,
    };
    let event = AppEvent::Update(opensnitch_tui::event::PingEvent {
        peer: Some(String::from("127.0.0.1:4242")),
        stats,
    });
    assert!(app.handle_event(event, 0).is_none());
    assert_eq!(app.rx_pings, 1);
    assert_eq!(app.peer.as_deref(), Some("127.0.0.1:4242"));
    assert_eq!(app.current_stats.as_ref().unwrap().uptime, 99);
}

/// A disposition expires on the tick at its deadline, never on one before.
#[test]
fn tick_expires_pending_disposition_at_deadline() {
    let mut app = new_app();
    let (tx, mut rx) = tokio::sync::oneshot::channel::<DispositionReply>();
    app.handle_event(
        AppEvent::AskRule(QueuedConnection {
            connection: descriptor(""),
            reply: tx,
        }),
        1_000,
    );
    // The configured timeout is 60 seconds: expiry sits at 1060.
    assert!(!app.tick(1_059));
    assert!(app.broker.pending.is_some());
    assert!(app.tick(1_060));
    assert!(app.broker.pending.is_none());
    // The abandoned reply channel reports closure to the waiting request.
    assert!(rx.try_recv().is_err());

    // The slot is free again.
    let mut broker = DispositionBroker::new();
    assert!(broker.pending.is_none());
}
