//! The command-cycle driver: issues `Cancel`, `Arm`, `Measure` forever, with
//! a delay after each command, until the shutdown signal is observed.
//!
//! The driver is a step machine: its caller owns the device handle and the
//! shared shutdown signal, loads the signal before every step, and performs
//! the write and the sleep each step asks for. The cancel, arm, measure
//! cycle exists because the device requires an explicit re-arm after each
//! measurement window; the delay after `Measure` (the configured rate) must
//! exceed the device's worst-case time to produce a record.

use vstd::prelude::*;
use crate::command::Command;

verus! {

/// Delay observed after the cancel and the arm command, in milliseconds.
pub const SHORT_DELAY_MS: u64 = 500;

/// Which command the driver will issue next.
#[derive(Debug, Clone, Copy, PartialEq, Eq, Structural)]
pub enum DriverPhase {
    SendCancel,
    SendArm,
    SendMeasure,
}

/// One instruction from the driver to its caller: write the command byte to
/// the device and sleep for the delay, or stop the loop.
#[derive(Debug, Clone, Copy, PartialEq, Eq, Structural)]
pub enum DriverAction {
    Emit { command: Command, delay_ms: u64 },
    Stop,
}

/// The command each phase issues.
pub open spec fn spec_phase_command(p: DriverPhase) -> Command {
    match p {
        DriverPhase::SendCancel => Command::Cancel,
        DriverPhase::SendArm => Command::Arm,
        DriverPhase::SendMeasure => Command::Measure,
    }
}

/// The phase that follows `p` in the fixed cycle.
pub open spec fn spec_next_phase(p: DriverPhase) -> DriverPhase {
    match p {
        DriverPhase::SendCancel => DriverPhase::SendArm,
        DriverPhase::SendArm => DriverPhase::SendMeasure,
        DriverPhase::SendMeasure => DriverPhase::SendCancel,
    }
}

/// The delay observed after the command of phase `p`: the configured rate
/// after `Measure`, the short fixed delay otherwise.
pub open spec fn spec_phase_delay(p: DriverPhase, rate_ms: u64) -> u64 {
    match p {
        DriverPhase::SendMeasure => rate_ms,
        _ => SHORT_DELAY_MS,
    }
}

/// What one step does, given the phase and the observed shutdown signal
/// (`running` is true while the signal is clear).
pub open spec fn spec_driver_action(p: DriverPhase, rate_ms: u64, running: bool) -> DriverAction {
    if running {
        DriverAction::Emit {
            command: spec_phase_command(p),
            delay_ms: spec_phase_delay(p, rate_ms),
        }
    } else {
        DriverAction::Stop
    }
}

/// The command-cycle driver's state: the next phase and the configured rate.
pub struct Driver {
    pub phase: DriverPhase,
    pub rate_ms: u64,
}

impl Driver {
    /// A fresh driver: the first command of the cycle is `Cancel`.
    pub fn new(rate_ms: u64) -> (d: Driver)
        ensures
            d.phase == DriverPhase::SendCancel,
            d.rate_ms == rate_ms,
    {
        Driver { phase: DriverPhase::SendCancel, rate_ms }
    }

    /// One step of the command cycle. `running` is the shutdown signal as
    /// observed just before this step; the signal is observed before every
    /// command, so once it is raised the driver emits nothing further.
    pub fn next(&mut self, running: bool) -> (a: DriverAction)
        ensures
            a == spec_driver_action(old(self).phase, old(self).rate_ms, running),
            final(self).rate_ms == old(self).rate_ms,
            running ==> final(self).phase == spec_next_phase(old(self).phase),
            !running ==> final(self).phase == old(self).phase,
    {
        if running {
            let command = match self.phase {
                DriverPhase::SendCancel => Command::Cancel,
                DriverPhase::SendArm => Command::Arm,
                DriverPhase::SendMeasure => Command::Measure,
            };
            let delay_ms = match self.phase {
                DriverPhase::SendMeasure => self.rate_ms,
                _ => SHORT_DELAY_MS,
            };
            self.phase = match self.phase {
                DriverPhase::SendCancel => DriverPhase::SendArm,
                DriverPhase::SendArm => DriverPhase::SendMeasure,
                DriverPhase::SendMeasure => DriverPhase::SendCancel,
            };
            DriverAction::Emit { command, delay_ms }
        } else {
            DriverAction::Stop
        }
    }
}

/// The phase a driver is in `n` steps after phase `p`, when the shutdown
/// signal stays clear throughout.
pub open spec fn spec_phase_at(p: DriverPhase, n: nat) -> DriverPhase
    decreases n,
{
    if n == 0 {
        p
    } else {
        spec_next_phase(spec_phase_at(p, (n - 1) as nat))
    }
}

/// The command a fresh driver issues at step `i` when the shutdown signal
/// stays clear: cancel, arm, measure, repeated.
pub open spec fn spec_cycle_command(i: nat) -> Command {
    if i % 3 == 0 {
        Command::Cancel
    } else if i % 3 == 1 {
        Command::Arm
    } else {
        Command::Measure
    }
}

/// The commands emitted by a driver starting in phase `p` that observes the
/// shutdown-signal values in `flags`, one observation per step: emission
/// stops at the first observation that is false.
pub open spec fn spec_run(p: DriverPhase, flags: Seq<bool>) -> Seq<Command>
    decreases flags.len(),
{
    if flags.len() == 0 || !flags[0] {
        Seq::empty()
    } else {
        seq![spec_phase_command(p)] + spec_run(spec_next_phase(p), flags.drop_first())
    }
}

proof fn lemma_run_all_true(p: DriverPhase, flags: Seq<bool>)
    requires
        forall|j: int| 0 <= j < flags.len() ==> flags[j],
    ensures
        spec_run(p, flags).len() == flags.len(),
        forall|i: int|
            0 <= i < flags.len() ==> spec_run(p, flags)[i] == spec_phase_command(
                spec_phase_at(p, i as nat),
            ),
    decreases flags.len(),
{
    if flags.len() > 0 {
        lemma_run_all_true(spec_next_phase(p), flags.drop_first());
        assert forall|i: int| 0 <= i < flags.len() implies spec_run(p, flags)[i]
            == spec_phase_command(spec_phase_at(p, i as nat)) by {
            if i > 0 {
                assert(spec_run(p, flags)[i] == spec_run(
                    spec_next_phase(p),
                    flags.drop_first(),
                )[i - 1]);
                assert(spec_phase_at(spec_next_phase(p), (i - 1) as nat) == spec_phase_at(
                    p,
                    i as nat,
                )) by {
                    lemma_phase_at_shift(p, (i - 1) as nat);
                }
            }
        }
    }
}

proof fn lemma_phase_at_shift(p: DriverPhase, n: nat)
    ensures
        spec_phase_at(spec_next_phase(p), n) == spec_phase_at(p, n + 1),
    decreases n,
{
    if n == 0 {
        assert(spec_phase_at(p, 1) == spec_next_phase(spec_phase_at(p, 0)));
    } else {
        lemma_phase_at_shift(p, (n - 1) as nat);
        assert(spec_phase_at(p, n + 1) == spec_next_phase(spec_phase_at(p, n)));
    }
}

proof fn lemma_phase_cycle(n: nat)
    ensures
        spec_phase_command(spec_phase_at(DriverPhase::SendCancel, n)) == spec_cycle_command(n),
        spec_phase_at(DriverPhase::SendCancel, n) == (if n % 3 == 0 {
            DriverPhase::SendCancel
        } else if n % 3 == 1 {
            DriverPhase::SendArm
        } else {
            DriverPhase::SendMeasure
        }),
    decreases n,
{
    if n > 0 {
        lemma_phase_cycle((n - 1) as nat);
        assert(n % 3 == ((n - 1) % 3 + 1) % 3);
    }
}

/// The full command cycle: a driver started fresh that never observes the
/// shutdown signal emits one command per step, in the fixed order cancel,
/// arm, measure, cancel, arm, measure, and so on, never skipping or
/// reordering a step.
pub proof fn lemma_driver_cycle(flags: Seq<bool>)
    requires
        forall|j: int| 0 <= j < flags.len() ==> flags[j],
    ensures
        spec_run(DriverPhase::SendCancel, flags).len() == flags.len(),
        forall|i: int|
            0 <= i < flags.len() ==> spec_run(DriverPhase::SendCancel, flags)[i]
                == spec_cycle_command(i as nat),
{
    lemma_run_all_true(DriverPhase::SendCancel, flags);
    assert forall|i: int| 0 <= i < flags.len() implies spec_run(DriverPhase::SendCancel, flags)[i]
        == spec_cycle_command(i as nat) by {
        lemma_phase_cycle(i as nat);
    }
}

/// Raising the shutdown signal stops the driver: in a run whose observation
/// at step `k` is false, at most `k` commands are ever emitted — the command
/// in flight when the signal is raised finishes its delay, and nothing
/// further is issued.
pub proof fn lemma_driver_stops(p: DriverPhase, flags: Seq<bool>, k: int)
    requires
        0 <= k < flags.len(),
        !flags[k],
    ensures
        spec_run(p, flags).len() <= k,
    decreases k,
{
    if flags.len() > 0 && flags[0] {
        lemma_driver_stops(spec_next_phase(p), flags.drop_first(), k - 1);
    }
}

} // verus!

