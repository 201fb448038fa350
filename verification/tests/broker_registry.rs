//! The disposition broker's single-flight handshake and deadline, the
//! notification registry's newest-wins swap, and the request server's
//! translations.

use opensnitch_tui::alert::{Priority, Type, What};
use opensnitch_tui::app::App;
use opensnitch_tui::broker::{
    disposition_outcome, DispositionBroker, DispositionError, DispositionReply,
};
use opensnitch_tui::constants::{Action, DefaultAction, Duration};
use opensnitch_tui::log;
use opensnitch_tui::messages::{
    AlertData, AlertMessage, ClientConfig, Connection, Notification, PingRequest, Statistics,
};
use opensnitch_tui::registry::NotificationRegistry;
use opensnitch_tui::rules::synthesize;
use opensnitch_tui::server::{
    handle_ping, handle_post_alert, reply_code_alert, stream_closed_alert, stream_error_alert,
    subscribe_reply,
};

fn descriptor() -> Connection {
    Connection {
        protocol: String::from("udp"),
        src_ip: String::from("10.0.0.2"),
        src_port: 53444,
        dst_ip: String::from("10.0.0.1"),
        dst_host: String::from(""),
        dst_port: 53,
        user_id: 1000,
        process_id: 4242,
        process_path: String::from("/usr/bin/dig"),
        process_cwd: String::from("/home/operator"),
        process_args: vec![],
        process_env: vec![],
        process_checksums: vec![],
        process_tree: vec![],
    }
}

fn stats() -> Statistics {
    Statistics {
        daemon_version: String::from("1.6.6"),
        rules: 1,
        uptime: 2,
        dns_responses: 3,
        connections: 4,
        ignored: 5,
        accepted: 6,
        dropped: 7,
        rule_hits: 8,
        rule_misses: 9,
    }
}

/// A second request while one is pending is rejected with `AlreadyPending`;
/// after a resolution or an expiry a new request opens again.
#[test]
fn broker_is_single_flight() {
    let mut broker = DispositionBroker::new();
    let (tx1, mut rx1) = tokio::sync::oneshot::channel::<DispositionReply>();
    let (tx2, mut rx2) = tokio::sync::oneshot::channel::<DispositionReply>();

    assert!(broker.open_request(descriptor(), tx1, 1_000, 30).is_ok());

    // Second request: refused, its reply sender handed back for the caller
    // to answer. Dropping it here closes the waiting channel.
    let rejected = broker
        .open_request(descriptor(), tx2, 1_001, 30)
        .expect_err("second request must be refused");
    drop(rejected);
    assert!(rx2.try_recv().is_err());
    let outcome = disposition_outcome(Some(Some(DispositionReply::AlreadyPending)));
    assert_eq!(outcome.unwrap_err(), DispositionError::AlreadyPending);

    // Resolve the first; the rule reaches its waiting channel.
    let rule = synthesize(&descriptor(), Action::Allow, Duration::Once);
    assert!(broker.resolve(rule));
    match rx1.try_recv().unwrap() {
        DispositionReply::Rule(got) => assert_eq!(got.name, "allow-10.0.0.1"),
        DispositionReply::AlreadyPending => panic!("unexpected rejection"),
    }

    // The slot is free: a new request opens.
    let (tx3, _rx3) = tokio::sync::oneshot::channel::<DispositionReply>();
    assert!(broker.open_request(descriptor(), tx3, 1_002, 30).is_ok());

    // Expiry also frees the slot.
    assert!(!broker.expire(1_031));
    assert!(broker.expire(1_032));
    assert!(broker.pending.is_none());
    let (tx4, _rx4) = tokio::sync::oneshot::channel::<DispositionReply>();
    assert!(broker.open_request(descriptor(), tx4, 2_000, 30).is_ok());
}

/// A late decision with nothing pending is silently dropped.
#[test]
fn late_decision_is_dropped() {
    let mut broker = DispositionBroker::new();
    let rule = synthesize(&descriptor(), Action::Deny, Duration::Once);
    assert!(!broker.resolve(rule));
    assert!(broker.pending.is_none());
}

/// A request with no resolution fails with `DispositionTimeout`, and not
/// before the deadline has fully elapsed.
#[test]
fn disposition_times_out_after_deadline() {
    let runtime = tokio::runtime::Builder::new_current_thread()
        .enable_time()
        .build()
        .expect("runtime");
    runtime.block_on(async {
        let mut broker = DispositionBroker::new();
        let (tx, rx) = tokio::sync::oneshot::channel::<DispositionReply>();
        assert!(broker.open_request(descriptor(), tx, 0, 30).is_ok());

        let deadline = std::time::Duration::from_millis(300);
        let started = std::time::Instant::now();
        let observed = match tokio::time::timeout(deadline, rx).await {
            Ok(Ok(reply)) => Some(Some(reply)),
            Ok(Err(_)) => Some(None),
            Err(_) => None,
        };
        let elapsed = started.elapsed();

        let outcome = disposition_outcome(observed);
        assert_eq!(outcome.unwrap_err(), DispositionError::DispositionTimeout);
        assert!(elapsed >= deadline, "timed out before the deadline");
        assert!(elapsed < deadline * 4, "timeout fired far too late");
    });
}

/// A reply channel whose broker side was dropped reports `BrokerClosed`.
#[test]
fn dropped_broker_side_reports_closed() {
    let (tx, mut rx) = tokio::sync::oneshot::channel::<DispositionReply>();
    drop(tx);
    assert!(rx.try_recv().is_err());
    let outcome = disposition_outcome(Some(None));
    assert_eq!(outcome.unwrap_err(), DispositionError::BrokerClosed);
}

/// After `attach(B)` following `attach(A)`, a send reaches only B's peer,
/// and nothing crashes on the abandoned handle.
#[test]
fn registry_newest_attachment_wins() {
    let (dummy_tx, _) = tokio::sync::mpsc::channel::<Notification>(1);
    let mut registry = NotificationRegistry::new(dummy_tx);

    // The placeholder's receiver is gone: best-effort send reports failure
    // and nothing panics.
    assert!(!registry.send(App::test_notification()));

    let (a_tx, mut a_rx) = tokio::sync::mpsc::channel::<Notification>(4);
    let (b_tx, mut b_rx) = tokio::sync::mpsc::channel::<Notification>(4);
    registry.attach(a_tx);
    registry.attach(b_tx);

    assert!(registry.send(App::test_notification()));
    let got = b_rx.try_recv().expect("newest peer missed the send");
    assert_eq!(got.id, 123);
    assert!(b_rx.try_recv().is_err(), "only one message was sent");
    assert!(a_rx.try_recv().is_err(), "abandoned peer must see nothing");
}

/// A saturated channel is a best-effort failure, not an error.
#[test]
fn registry_send_is_best_effort_under_backpressure() {
    let (tx, mut rx) = tokio::sync::mpsc::channel::<Notification>(1);
    let mut registry = NotificationRegistry::new(tx.clone());
    registry.attach(tx);
    assert!(registry.send(App::test_notification()));
    assert!(!registry.send(App::test_notification()));
    assert_eq!(rx.try_recv().expect("first send lost").id, 123);
}

#[test]
fn ping_translates_to_event_and_echoed_ack() {
    let request = PingRequest {
        id: 77,
        stats: Some(stats()),
    };
    let (event, reply) = handle_ping(request, Some(String::from("10.0.0.9:5555")));
    assert_eq!(reply.id, 77);
    assert_eq!(event.peer.as_deref(), Some("10.0.0.9:5555"));
    assert_eq!(event.stats.daemon_version, "1.6.6");
    assert_eq!(event.stats.rule_misses, 9);
}

#[test]
fn posted_alert_translates_to_queue_record() {
    let message = AlertMessage {
        id: 31,
        priority: 1,
        kind: 0,
        what: 2,
        data: Some(AlertData::Text(String::from("fw down"))),
    };
    let (alert, ack) = handle_post_alert(&message, 9_000);
    assert_eq!(ack.id, 31);
    assert_eq!(alert.timestamp, 9_000);
    assert_eq!(alert.priority, Priority::Medium);
    assert_eq!(alert.kind, Type::Error);
    assert_eq!(alert.what, What::Firewall);
    assert_eq!(alert.msg, "fw down");

    let none_data = AlertMessage {
        id: 32,
        priority: 9,
        kind: 9,
        what: 9,
        data: None,
    };
    let (alert, _) = handle_post_alert(&none_data, 9_001);
    assert_eq!(alert.priority, Priority::High);
    assert_eq!(alert.kind, Type::Info);
    assert_eq!(alert.what, What::Generic);
    assert_eq!(alert.msg, "no data");

    let odd_data = AlertMessage {
        id: 33,
        priority: 0,
        kind: 1,
        what: 6,
        data: Some(AlertData::Unsupported),
    };
    let (alert, _) = handle_post_alert(&odd_data, 9_002);
    assert_eq!(alert.priority, Priority::Low);
    assert_eq!(alert.kind, Type::Warning);
    assert_eq!(alert.what, What::KernelEvent);
    assert_eq!(alert.msg, "unsupported alert data");
}

#[test]
fn subscribe_echoes_config_with_rewritten_blob() {
    let request = ClientConfig {
        id: 5,
        name: String::from("daemon-a"),
        version: String::from("1.6.6"),
        is_firewall_running: true,
        config: String::from("{\"anything\":\"goes\"}"),
        log_level: 2,
    };
    let reply = subscribe_reply(&request, DefaultAction::Deny);
    assert_eq!(reply.id, 5);
    assert_eq!(reply.name, "daemon-a");
    assert_eq!(reply.version, "1.6.6");
    assert!(reply.is_firewall_running);
    assert_eq!(reply.log_level, 2);
    assert_eq!(reply.config, "{\"DefaultAction\":\"deny\"}");
}

#[test]
fn notification_replies_become_alerts_only_on_error() {
    let raised = reply_code_alert(1, String::from("task failed"), 400)
        .expect("error code must raise an alert");
    assert_eq!(raised.timestamp, 400);
    assert_eq!(raised.priority, Priority::Medium);
    assert_eq!(raised.kind, Type::Error);
    assert_eq!(raised.what, What::Generic);
    assert_eq!(raised.msg, "task failed");

    assert!(reply_code_alert(0, String::from("fine"), 400).is_none());
}

#[test]
fn stream_end_and_error_raise_high_priority_warnings() {
    let closed = stream_closed_alert(500);
    assert_eq!(closed.timestamp, 500);
    assert_eq!(closed.priority, Priority::High);
    assert_eq!(closed.kind, Type::Warning);
    assert_eq!(closed.msg, "gRPC stream closed by daemon");

    let errored = stream_error_alert(501, "status: Unavailable");
    assert_eq!(errored.priority, Priority::High);
    assert_eq!(errored.msg, "gRPC error from daemon: status: Unavailable");
}

#[test]
fn log_lines_carry_their_level_tags() {
    assert_eq!(log::info("starting"), "[INFO] starting");
    assert_eq!(log::warn("careful"), "[WARN] careful");
    assert_eq!(log::error("broken"), "[ERROR] broken");
    assert_eq!(log::debug("details"), "[DEBUG] details");
    assert_eq!(log::log_line("TRACE", "x"), "[TRACE] x");
}
