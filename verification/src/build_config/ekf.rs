//! Restarting the estimator after a configuration change.
use crate::text;
use crate::text::push_decimal;
use vstd::prelude::*;

verus! {

/// Time between stopping the estimator and starting it again.
pub const EKF_STOP_GAP_MS: u64 = 100;

/// Time between attempts.
pub const EKF_RETRY_PAUSE_MS: u64 = 200;

/// Attempts after a configuration change.
pub const EKF_RESTART_ATTEMPTS: u8 = 3;

/// Why an attempt failed.
#[derive(Clone, Copy, Debug, PartialEq, Eq, Structural)]
pub enum EkfFault {
    /// There is no shell.
    NoShell,
    /// The shell's channel closed before the stop was queued.
    StopNotSent,
    /// The shell's channel closed before the start was queued.
    StartNotSent,
}

/// What a restart asks for next, or how it ended.
#[derive(Clone, Copy, Debug, PartialEq, Eq, Structural)]
pub enum EkfStep {
    /// Queue the stop command.
    Stop,
    /// Let the estimator stop.
    Gap,
    /// Queue the start command.
    Start,
    /// Wait before the next attempt.
    Pause,
    /// Both commands were queued.
    Done,
    /// Every attempt failed; the last for this reason.
    Failed(EkfFault),
}

/// What happened to a restart.
#[derive(Clone, Copy, Debug, PartialEq, Eq, Structural)]
pub enum EkfEvent {
    /// The command was queued.
    Queued,
    /// There is no shell.
    NoShell,
    /// The shell's channel is closed.
    Closed,
    /// The wait is over.
    WaitOver,
}

/// A restart of the estimator.
#[derive(Clone, Copy, Debug, PartialEq, Eq, Structural)]
pub struct EkfRestart {
    /// Number of the attempt under way, from 1.
    pub attempt: u8,
    /// Attempts allowed.
    pub max_attempts: u8,
    /// What comes next.
    pub step: EkfStep,
}

/// A restart that has not begun; with no attempt allowed there is nothing to do.
pub open spec fn ekf_begun(max_attempts: u8) -> EkfRestart {
    EkfRestart {
        attempt: 1,
        max_attempts,
        step: if max_attempts == 0 {
            EkfStep::Done
        } else {
            EkfStep::Stop
        },
    }
}

/// A restart whose attempt failed.
pub open spec fn ekf_attempt_failed(r: EkfRestart, fault: EkfFault) -> EkfRestart {
    EkfRestart {
        step: if r.attempt < r.max_attempts {
            EkfStep::Pause
        } else {
            EkfStep::Failed(fault)
        },
        ..r
    }
}

/// A restart after an event.
pub open spec fn ekf_advanced(r: EkfRestart, e: EkfEvent) -> EkfRestart {
    match (r.step, e) {
        (EkfStep::Stop, EkfEvent::Queued) => EkfRestart { step: EkfStep::Gap, ..r },
        (EkfStep::Stop, EkfEvent::NoShell) => ekf_attempt_failed(r, EkfFault::NoShell),
        (EkfStep::Stop, EkfEvent::Closed) => ekf_attempt_failed(r, EkfFault::StopNotSent),
        (EkfStep::Gap, EkfEvent::WaitOver) => EkfRestart { step: EkfStep::Start, ..r },
        (EkfStep::Start, EkfEvent::Queued) => EkfRestart { step: EkfStep::Done, ..r },
        (EkfStep::Start, EkfEvent::Closed) => ekf_attempt_failed(r, EkfFault::StartNotSent),
        (EkfStep::Pause, EkfEvent::WaitOver) => if r.attempt < r.max_attempts {
            EkfRestart { attempt: (r.attempt + 1) as u8, step: EkfStep::Stop, ..r }
        } else {
            r
        },
        _ => r,
    }
}

/// The text of a fault.
pub open spec fn ekf_fault_text(fault: EkfFault) -> Seq<char> {
    match fault {
        EkfFault::NoShell => "NSH channel not available"@,
        EkfFault::StopNotSent => "Failed to send ekf2 stop: channel closed"@,
        EkfFault::StartNotSent => "Failed to send ekf2 start: channel closed"@,
    }
}

/// The text of a restart that failed.
pub open spec fn ekf_failure_text(max_attempts: u8, fault: EkfFault) -> Seq<char> {
    "EKF2 restart failed after "@ + text::decimal(max_attempts as nat) + " attempts: "@
        + ekf_fault_text(fault)
}

impl EkfRestart {
    /// Start a restart of at most `max_attempts` attempts.
    pub fn start(max_attempts: u8) -> (r: EkfRestart)
        ensures
            r == ekf_begun(max_attempts),
    {
        EkfRestart {
            attempt: 1,
            max_attempts,
            step: if max_attempts == 0 {
                EkfStep::Done
            } else {
                EkfStep::Stop
            },
        }
    }

    fn fail(&mut self, fault: EkfFault)
        ensures
            *final(self) == ekf_attempt_failed(*old(self), fault),
    {
        self.step = if self.attempt < self.max_attempts {
            EkfStep::Pause
        } else {
            EkfStep::Failed(fault)
        };
    }

    /// Take note of an event.
    pub fn on_event(&mut self, e: EkfEvent)
        ensures
            *final(self) == ekf_advanced(*old(self), e),
    {
        match (self.step, e) {
            (EkfStep::Stop, EkfEvent::Queued) => {
                self.step = EkfStep::Gap;
            },
            (EkfStep::Stop, EkfEvent::NoShell) => self.fail(EkfFault::NoShell),
            (EkfStep::Stop, EkfEvent::Closed) => self.fail(EkfFault::StopNotSent),
            (EkfStep::Gap, EkfEvent::WaitOver) => {
                self.step = EkfStep::Start;
            },
            (EkfStep::Start, EkfEvent::Queued) => {
                self.step = EkfStep::Done;
            },
            (EkfStep::Start, EkfEvent::Closed) => self.fail(EkfFault::StartNotSent),
            (EkfStep::Pause, EkfEvent::WaitOver) => {
                if self.attempt < self.max_attempts {
                    self.attempt = self.attempt + 1;
                    self.step = EkfStep::Stop;
                }
            },
            _ => {},
        }
    }

    /// Why the restart failed, if it did.
    pub fn failure(&self) -> (r: Option<String>)
        ensures
            (match r {
                Some(m) => Some(m@),
                None => None,
            }) == match self.step {
                EkfStep::Failed(fault) => Some(ekf_failure_text(self.max_attempts, fault)),
                _ => None,
            },
    {
        match self.step {
            EkfStep::Failed(fault) => {
                let mut out: String = "EKF2 restart failed after ".to_owned();
                push_decimal(&mut out, self.max_attempts as u64);
                out.append(" attempts: ");
                match fault {
                    EkfFault::NoShell => out.append("NSH channel not available"),
                    EkfFault::StopNotSent => out.append("Failed to send ekf2 stop: channel closed"),
                    EkfFault::StartNotSent => out.append(
                        "Failed to send ekf2 start: channel closed",
                    ),
                }
                assert(out@ =~= ekf_failure_text(self.max_attempts, fault));
                Some(out)
            },
            _ => None,
        }
    }
}

/// A restart after a run of events.
pub open spec fn ekf_run(max_attempts: u8, events: Seq<EkfEvent>) -> EkfRestart
    decreases events.len(),
{
    if events.len() == 0 {
        ekf_begun(max_attempts)
    } else {
        ekf_advanced(ekf_run(max_attempts, events.drop_last()), events.last())
    }
}

/// A restart never goes beyond its attempts, and fails only after the last.
pub proof fn law_estimator_restarts_are_bounded(max_attempts: u8, events: Seq<EkfEvent>)
    ensures
        ({
            let r = ekf_run(max_attempts, events);
            &&& r.max_attempts == max_attempts
            &&& max_attempts == 0 ==> r.step is Done
            &&& max_attempts > 0 ==> 1 <= r.attempt <= max_attempts
            &&& r.step is Failed ==> r.attempt == max_attempts
        }),
    decreases events.len(),
{
    if events.len() > 0 {
        law_estimator_restarts_are_bounded(max_attempts, events.drop_last());
    }
}

/// An attempt stops the estimator, lets it stop, and starts it again, in that
/// order; both commands queued, it is done.
pub proof fn law_the_estimator_is_stopped_before_it_is_started(max_attempts: u8)
    requires
        max_attempts > 0,
    ensures
        ({
            let begun = ekf_begun(max_attempts);
            let stopping = ekf_advanced(begun, EkfEvent::Queued);
            let stopped = ekf_advanced(stopping, EkfEvent::WaitOver);
            let started = ekf_advanced(stopped, EkfEvent::Queued);
            &&& begun.step is Stop
            &&& stopping.step is Gap
            &&& stopped.step is Start
            &&& started.step is Done
            &&& started.attempt == 1
        }),
{
}

/// A restart is done only once the start was queued, after a stop: no other
/// event in no other step makes it so.
pub proof fn law_only_a_queued_start_completes_a_restart(r: EkfRestart, e: EkfEvent)
    requires
        !(r.step is Done),
    ensures
        ekf_advanced(r, e).step is Done <==> r.step is Start && e is Queued,
        ekf_advanced(r, e).step is Start ==> r.step is Start || (r.step is Gap && e is WaitOver),
{
}

/// An attempt that fails is followed by another after a pause, from the stop
/// on, and the last by the failure it had.
pub proof fn law_a_failed_attempt_is_repeated_from_the_stop(r: EkfRestart)
    requires
        r.attempt >= 1,
    ensures
        r.step is Stop && r.attempt < r.max_attempts ==> ekf_advanced(r, EkfEvent::NoShell).step
            is Pause && ekf_advanced(r, EkfEvent::Closed).step is Pause,
        r.step is Start && r.attempt < r.max_attempts ==> ekf_advanced(r, EkfEvent::Closed).step
            is Pause,
        r.step is Pause && r.attempt < r.max_attempts ==> ekf_advanced(
            r,
            EkfEvent::WaitOver,
        ).step is Stop && ekf_advanced(r, EkfEvent::WaitOver).attempt == r.attempt + 1,
        r.step is Stop && r.attempt >= r.max_attempts ==> ekf_advanced(r, EkfEvent::NoShell).step
            == EkfStep::Failed(EkfFault::NoShell) && ekf_advanced(r, EkfEvent::Closed).step
            == EkfStep::Failed(EkfFault::StopNotSent),
        r.step is Start && r.attempt >= r.max_attempts ==> ekf_advanced(r, EkfEvent::Closed).step
            == EkfStep::Failed(EkfFault::StartNotSent),
{
}

/// A restart that is over stays as it ended.
pub proof fn law_a_restart_that_is_over_stays_over(r: EkfRestart, e: EkfEvent)
    requires
        r.step is Done || r.step is Failed,
    ensures
        ekf_advanced(r, e) == r,
{
}

/// A restart that failed says how often it was tried and what went wrong.
pub proof fn law_what_a_failed_restart_says(max_attempts: u8, fault: EkfFault)
    ensures
        ekf_failure_text(max_attempts, fault) == "EKF2 restart failed after "@ + text::decimal(
            max_attempts as nat,
        ) + " attempts: "@ + ekf_fault_text(fault),
        fault is NoShell ==> ekf_fault_text(fault) == "NSH channel not available"@,
        fault is StopNotSent ==> ekf_fault_text(fault)
            == "Failed to send ekf2 stop: channel closed"@,
        fault is StartNotSent ==> ekf_fault_text(fault)
            == "Failed to send ekf2 start: channel closed"@,
{
}

} // verus!
