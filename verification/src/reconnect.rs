//! The broker reconnector: invoked whenever the broker session is found
//! disconnected, it waits a fixed interval, attempts one reconnect, and
//! repeats until an attempt succeeds. It never gives up on its own.

use vstd::prelude::*;

verus! {

/// Fixed interval between broker reconnection attempts, in milliseconds.
pub const RECONNECT_DELAY_MS: u64 = 3000;

/// One instruction from the reconnector to its caller: wait the fixed
/// interval and make one reconnection attempt, or report the connection
/// restored and resume normal operation.
#[derive(Debug, Clone, Copy, PartialEq, Eq, Structural)]
pub enum ReconnectAction {
    WaitThenTry { delay_ms: u64 },
    Restored,
}

/// The reconnector's reply to the outcome of one attempt.
pub open spec fn spec_reconnect_action(attempt_ok: bool) -> ReconnectAction {
    if attempt_ok {
        ReconnectAction::Restored
    } else {
        ReconnectAction::WaitThenTry { delay_ms: RECONNECT_DELAY_MS }
    }
}

/// Entering the reconnector: the first attempt is preceded by the same
/// fixed wait as every later one.
pub fn reconnect_begin() -> (a: ReconnectAction)
    ensures
        a == (ReconnectAction::WaitThenTry { delay_ms: RECONNECT_DELAY_MS }),
{
    ReconnectAction::WaitThenTry { delay_ms: RECONNECT_DELAY_MS }
}

/// Consume the outcome of one reconnection attempt: success reports the
/// connection restored; failure schedules another attempt after the fixed
/// interval.
pub fn reconnect_step(attempt_ok: bool) -> (a: ReconnectAction)
    ensures
        a == spec_reconnect_action(attempt_ok),
{
    if attempt_ok {
        ReconnectAction::Restored
    } else {
        ReconnectAction::WaitThenTry { delay_ms: RECONNECT_DELAY_MS }
    }
}

/// The reconnector retries at a constant interval and never gives up:
/// however many attempts have failed, the reply to each failure is another
/// wait of the same fixed interval followed by another attempt. There is no
/// retry limit, and only a successful attempt ends the loop.
pub proof fn lemma_reconnect_unbounded(attempts: Seq<bool>)
    requires
        forall|i: int| 0 <= i < attempts.len() ==> !attempts[i],
    ensures
        forall|i: int|
            0 <= i < attempts.len() ==> spec_reconnect_action(attempts[i])
                == (ReconnectAction::WaitThenTry { delay_ms: RECONNECT_DELAY_MS }),
{
}

} // verus!
