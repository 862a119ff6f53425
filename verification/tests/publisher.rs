use alsd::publisher::{
    Publisher, PublisherAction, PublisherEvent, PublisherState, PUBLISH_QOS, READ_BACKOFF_MS,
};

fn record_bytes(timestamp: u64, value: u64) -> Vec<u8> {
    let mut data = Vec::new();
    data.extend_from_slice(&timestamp.to_le_bytes());
    data.extend_from_slice(&value.to_le_bytes());
    data
}

#[test]
fn publisher_reads_when_running_and_connected() {
    let mut publisher = Publisher::new();
    let action = publisher.step(PublisherEvent::Status {
        running: true,
        connected: true,
    });
    assert_eq!(action, PublisherAction::Read);
    assert_eq!(publisher.state, PublisherState::Reading);
}

#[test]
fn publisher_stops_on_shutdown_signal() {
    let mut publisher = Publisher::new();
    let action = publisher.step(PublisherEvent::Status {
        running: false,
        connected: true,
    });
    assert_eq!(
        action,
        PublisherAction::Stop {
            request_shutdown: false
        }
    );
    assert_eq!(publisher.state, PublisherState::Stopped);
}

#[test]
fn publisher_reconnects_when_broker_is_down() {
    let mut publisher = Publisher::new();
    let action = publisher.step(PublisherEvent::Status {
        running: true,
        connected: false,
    });
    assert_eq!(action, PublisherAction::Reconnect);
    assert_eq!(publisher.state, PublisherState::Reconnecting);
}

#[test]
fn publisher_resumes_reading_after_reconnection() {
    let mut publisher = Publisher::new();
    publisher.step(PublisherEvent::Status {
        running: true,
        connected: false,
    });
    let action = publisher.step(PublisherEvent::ReconnectorDone { restored: true });
    assert_eq!(action, PublisherAction::Read);
}

#[test]
fn publisher_tears_down_if_reconnector_gave_up() {
    let mut publisher = Publisher::new();
    publisher.step(PublisherEvent::Status {
        running: true,
        connected: false,
    });
    let action = publisher.step(PublisherEvent::ReconnectorDone { restored: false });
    assert_eq!(
        action,
        PublisherAction::Stop {
            request_shutdown: true
        }
    );
}

#[test]
fn publisher_publishes_decimal_value_of_full_read() {
    let mut publisher = Publisher::new();
    publisher.step(PublisherEvent::Status {
        running: true,
        connected: true,
    });
    let action = publisher.step(PublisherEvent::ReadDone {
        data: Some(record_bytes(7, 1234567890)),
    });
    match action {
        PublisherAction::Publish { payload, qos } => {
            assert_eq!(payload, "1234567890");
            assert_eq!(qos, PUBLISH_QOS);
        }
        other => panic!("expected a publish, got {:?}", other),
    }
    assert_eq!(publisher.state, PublisherState::Publishing);
}

#[test]
fn publisher_never_publishes_a_failed_read() {
    let mut publisher = Publisher::new();
    publisher.step(PublisherEvent::Status {
        running: true,
        connected: true,
    });
    let action = publisher.step(PublisherEvent::ReadDone { data: None });
    assert_eq!(
        action,
        PublisherAction::Backoff {
            delay_ms: READ_BACKOFF_MS
        }
    );
    assert_eq!(publisher.state, PublisherState::Idle);
}

#[test]
fn publisher_backs_off_after_short_read() {
    let mut publisher = Publisher::new();
    publisher.step(PublisherEvent::Status {
        running: true,
        connected: true,
    });
    let action = publisher.step(PublisherEvent::ReadDone {
        data: Some(vec![0xAB; 8]),
    });
    assert_eq!(
        action,
        PublisherAction::Backoff {
            delay_ms: READ_BACKOFF_MS
        }
    );
}

#[test]
fn publisher_continues_after_successful_publish() {
    let mut publisher = Publisher::new();
    publisher.step(PublisherEvent::Status {
        running: true,
        connected: true,
    });
    publisher.step(PublisherEvent::ReadDone {
        data: Some(record_bytes(1, 2)),
    });
    let action = publisher.step(PublisherEvent::PublishDone { ok: true });
    assert_eq!(action, PublisherAction::CheckStatus);
    assert_eq!(publisher.state, PublisherState::Idle);
}

#[test]
fn publisher_aborts_on_publish_failure() {
    let mut publisher = Publisher::new();
    publisher.step(PublisherEvent::Status {
        running: true,
        connected: true,
    });
    publisher.step(PublisherEvent::ReadDone {
        data: Some(record_bytes(1, 2)),
    });
    let action = publisher.step(PublisherEvent::PublishDone { ok: false });
    assert_eq!(action, PublisherAction::Abort);
    assert_eq!(publisher.state, PublisherState::Stopped);
}

#[test]
fn publisher_accepts_only_the_awaited_event_kind() {
    let publisher = Publisher::new();
    assert!(publisher.accepts(&PublisherEvent::Status {
        running: true,
        connected: true,
    }));
    assert!(!publisher.accepts(&PublisherEvent::ReadDone { data: None }));
    assert!(!publisher.accepts(&PublisherEvent::ReconnectorDone { restored: true }));
    assert!(!publisher.accepts(&PublisherEvent::PublishDone { ok: true }));
}
