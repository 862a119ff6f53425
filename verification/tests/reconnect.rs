use alsd::reconnect::{reconnect_begin, reconnect_step, ReconnectAction, RECONNECT_DELAY_MS};

#[test]
fn reconnector_waits_before_the_first_attempt() {
    assert_eq!(
        reconnect_begin(),
        ReconnectAction::WaitThenTry {
            delay_ms: RECONNECT_DELAY_MS
        }
    );
}

#[test]
fn reconnector_retries_at_constant_interval_until_success() {
    // A long run of failed attempts: every reply is another wait of the same
    // fixed interval; no retry count is ever exhausted.
    let mut action = reconnect_begin();
    for _ in 0..1000 {
        assert_eq!(
            action,
            ReconnectAction::WaitThenTry {
                delay_ms: RECONNECT_DELAY_MS
            }
        );
        action = reconnect_step(false);
    }
    assert_eq!(
        action,
        ReconnectAction::WaitThenTry {
            delay_ms: RECONNECT_DELAY_MS
        }
    );
    assert_eq!(reconnect_step(true), ReconnectAction::Restored);
}
