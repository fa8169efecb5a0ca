//! Provisioning: write, save, reboot, verify.
//!
//! Nothing is written before the browser has confirmed a restore point. A
//! verification failure is worth one more cycle, because the first heartbeat
//! after a reboot can still carry the old flags and a save that did not land is
//! repaired by pushing again. Nothing else is, and the number of cycles is
//! bounded: each commits parameters to flash.
use crate::exchange;
use crate::exchange::{
    link_closed_message, unconfirmed_message, ParamPush, ParamWrite, PushStep,
};
use crate::preflight::capture;
use crate::preflight::capture::{AckEvent, Capture, CaptureEvent, CaptureStep};
use crate::preflight::restart;
use crate::preflight::restart::{
    delivery_message, write_event, CycleEvent, DeliveryStep, RestartPhase,
};
use crate::preflight::tables;
use crate::preflight::tables::provisioning_writes;
use crate::protocol::provisioning::{PreflightApplyResult, PreflightApplyState};
use vstd::prelude::*;

verus! {

/// How many write-save-reboot-verify cycles to run before giving up.
pub const PROVISION_ATTEMPTS: u8 = 2;

/// How often the flags are read after a reboot before the settings count as
/// not in effect. The very first heartbeat can precede the board's own state.
pub const VERIFY_SETTLE_ATTEMPTS: u8 = 3;

/// Gap between those readings.
pub const VERIFY_SETTLE_INTERVAL_MS: u64 = 500;

/// Why one provisioning cycle failed, and whether repeating it could help.
#[derive(Clone, Debug)]
pub struct ApplyFailure {
    /// What went wrong.
    pub message: String,
    /// True only for a verification failure: an unconfirmed write, or a board
    /// that never came back, is not fixed by pushing the same values again.
    pub retryable: bool,
}

impl ApplyFailure {
    /// A failure that repeating the cycle cannot fix.
    pub fn fatal(message: String) -> (r: ApplyFailure)
        ensures
            r.message == message,
            !r.retryable,
    {
        ApplyFailure { message, retryable: false }
    }

    /// A failure that repeating the cycle can fix.
    pub fn retryable(message: String) -> (r: ApplyFailure)
        ensures
            r.message == message,
            r.retryable,
    {
        ApplyFailure { message, retryable: true }
    }
}

/// What went wrong in a cycle. Indices are into the list of writes.
#[derive(Clone, Copy, Debug, PartialEq, Eq, Structural)]
pub enum CycleFault {
    /// The writer was gone when this write was due.
    LinkClosed(usize),
    /// This write was never confirmed.
    Unconfirmed(usize),
    /// The writer was gone before the save was handed over.
    SaveLinkLost,
    /// The save was never accepted.
    SaveNotAccepted,
    /// There is no shell to reboot through.
    NoShell,
    /// The shell's channel is closed.
    ShellClosed,
    /// The board did not come back.
    NotBack,
    /// The board came back without the settings.
    NotInEffect,
}

/// Where a cycle stands.
#[derive(Clone, Copy, Debug, PartialEq, Eq, Structural)]
pub enum CyclePhase {
    /// Writing the parameters.
    Pushing,
    /// Saving, rebooting, waiting.
    Restarting(RestartPhase),
    /// Reading the flags, for the given time, from 0.
    Verifying { reading: u8 },
    /// Pausing after the given reading.
    VerifyPause { reading: u8 },
    /// The settings took effect.
    Verified,
    /// Something failed.
    Failed(CycleFault),
}

/// One write-save-reboot-verify cycle.
#[derive(Debug)]
pub struct ApplyCycle {
    push: ParamPush,
    phase: CyclePhase,
}

/// Where a cycle stands.
pub ghost struct CycleModel {
    pub push: exchange::PushModel,
    pub phase: CyclePhase,
}

impl View for ApplyCycle {
    type V = CycleModel;

    closed spec fn view(&self) -> CycleModel {
        CycleModel { push: self.push@, phase: self.phase }
    }
}

/// A cycle that has not begun.
pub open spec fn cycle_begun() -> CycleModel {
    CycleModel {
        push: exchange::push_begun(tables::provisioning()),
        phase: CyclePhase::Pushing,
    }
}

/// The phase that a step of the push leads to.
pub open spec fn phase_after_push(step: PushStep) -> CyclePhase {
    match step {
        PushStep::Done => CyclePhase::Restarting(restart::restart_begun()),
        PushStep::Unconfirmed(i) => CyclePhase::Failed(CycleFault::Unconfirmed(i)),
        PushStep::LinkClosed(i) => CyclePhase::Failed(CycleFault::LinkClosed(i)),
        _ => CyclePhase::Pushing,
    }
}

/// The phase that a state of the restart leads to.
pub open spec fn phase_after_restart(p: RestartPhase) -> CyclePhase {
    match p {
        RestartPhase::Back => CyclePhase::Verifying { reading: 0 },
        RestartPhase::SaveLinkLost => CyclePhase::Failed(CycleFault::SaveLinkLost),
        RestartPhase::SaveNotAccepted => CyclePhase::Failed(CycleFault::SaveNotAccepted),
        RestartPhase::NoShell => CyclePhase::Failed(CycleFault::NoShell),
        RestartPhase::ShellClosed => CyclePhase::Failed(CycleFault::ShellClosed),
        RestartPhase::NotBack => CyclePhase::Failed(CycleFault::NotBack),
        _ => CyclePhase::Restarting(p),
    }
}

/// A cycle after an event.
pub open spec fn cycle_advanced(c: CycleModel, e: CycleEvent) -> CycleModel {
    match c.phase {
        CyclePhase::Pushing => match restart::as_write(e) {
            None => c,
            Some(x) => {
                let push = exchange::push_advanced(c.push, x);
                CycleModel { push, phase: phase_after_push(exchange::push_step(push)) }
            },
        },
        CyclePhase::Restarting(p) => CycleModel {
            phase: phase_after_restart(restart::restart_advanced(p, e)),
            ..c
        },
        CyclePhase::Verifying { reading } => match e {
            CycleEvent::Flags { hitl_enabled, is_quadrotor } => CycleModel {
                phase: if hitl_enabled && is_quadrotor {
                    CyclePhase::Verified
                } else if reading + 1 < VERIFY_SETTLE_ATTEMPTS {
                    CyclePhase::VerifyPause { reading }
                } else {
                    CyclePhase::Failed(CycleFault::NotInEffect)
                },
                ..c
            },
            _ => c,
        },
        CyclePhase::VerifyPause { reading } => match e {
            CycleEvent::PauseOver => CycleModel {
                phase: CyclePhase::Verifying { reading: (reading + 1) as u8 },
                ..c
            },
            _ => c,
        },
        _ => c,
    }
}

/// What holds of every cycle.
pub open spec fn cycle_invariant(c: CycleModel) -> bool {
    &&& exchange::push_invariant(c.push)
    &&& c.push.writes == tables::provisioning()
    &&& match c.phase {
        CyclePhase::Verifying { reading } => reading < VERIFY_SETTLE_ATTEMPTS,
        CyclePhase::VerifyPause { reading } => reading + 1 < VERIFY_SETTLE_ATTEMPTS,
        CyclePhase::Failed(CycleFault::Unconfirmed(i)) => i < tables::PROVISIONED_PARAM_COUNT,
        CyclePhase::Failed(CycleFault::LinkClosed(i)) => i < tables::PROVISIONED_PARAM_COUNT,
        _ => true,
    }
}

/// The lifecycle stage that a phase belongs to.
pub open spec fn cycle_state(p: CyclePhase) -> PreflightApplyState {
    match p {
        CyclePhase::Pushing => PreflightApplyState::Applying,
        CyclePhase::Restarting(RestartPhase::Saving(_)) => PreflightApplyState::Applying,
        CyclePhase::Restarting(RestartPhase::Settling) => PreflightApplyState::Applying,
        CyclePhase::Restarting(RestartPhase::Rebooting { .. }) => PreflightApplyState::Rebooting,
        CyclePhase::Restarting(_) => PreflightApplyState::Reconnecting,
        CyclePhase::Verifying { .. } => PreflightApplyState::Verifying,
        CyclePhase::VerifyPause { .. } => PreflightApplyState::Verifying,
        CyclePhase::Verified => PreflightApplyState::Done,
        CyclePhase::Failed(_) => PreflightApplyState::Error,
    }
}

/// The text of a fault; `name` is the parameter it concerns, if any.
pub open spec fn fault_text(fault: CycleFault, name: Seq<char>) -> Seq<char> {
    let not_saved =
        " The parameters were written but not saved, and the flight controller was not rebooted."@;
    match fault {
        CycleFault::LinkClosed(_) => exchange::link_closed_text(name),
        CycleFault::Unconfirmed(_) => exchange::unconfirmed_text(name),
        CycleFault::SaveLinkLost => restart::delivery_text(DeliveryStep::LinkLost, "PARAM_SAVE"@)
            + not_saved,
        CycleFault::SaveNotAccepted => restart::delivery_text(
            DeliveryStep::NotAccepted,
            "PARAM_SAVE"@,
        ) + not_saved,
        CycleFault::NoShell => "Failed to send reboot command: NSH channel not available"@,
        CycleFault::ShellClosed =>
            "Failed to send reboot command: Failed to send reboot via NSH: channel closed"@,
        CycleFault::NotBack => "FC did not reconnect after reboot"@,
        CycleFault::NotInEffect => "Settings did not take effect after reboot"@,
    }
}

/// The parameter a fault concerns.
pub open spec fn fault_name(fault: CycleFault) -> Seq<char> {
    match fault {
        CycleFault::LinkClosed(i) => tables::provisioning()[i as int].name,
        CycleFault::Unconfirmed(i) => tables::provisioning()[i as int].name,
        _ => Seq::empty(),
    }
}

fn not_saved_message(step: DeliveryStep) -> (r: String)
    ensures
        r@ == restart::delivery_text(step, "PARAM_SAVE"@)
            + " The parameters were written but not saved, and the flight controller was not rebooted."@,
{
    let mut out: String = delivery_message(step, "PARAM_SAVE");
    out.append(
        " The parameters were written but not saved, and the flight controller was not rebooted.",
    );
    out
}

impl ApplyCycle {
    /// Start a cycle.
    pub fn start() -> (r: ApplyCycle)
        ensures
            r@ == cycle_begun(),
            cycle_invariant(r@),
    {
        ApplyCycle { push: ParamPush::start(provisioning_writes()), phase: CyclePhase::Pushing }
    }

    /// Where the cycle stands.
    pub fn phase(&self) -> (r: CyclePhase)
        ensures
            r == self@.phase,
    {
        self.phase
    }

    /// What the push asks for while the cycle is pushing.
    pub fn push_step(&self) -> (r: PushStep)
        ensures
            r == exchange::push_step(self@.push),
    {
        self.push.step()
    }

    /// The write at an index of the list.
    pub fn write_at(&self, index: usize) -> (r: &ParamWrite)
        requires
            cycle_invariant(self@),
            index < tables::PROVISIONED_PARAM_COUNT,
        ensures
            r@ == tables::provisioning()[index as int],
    {
        self.push.write_at(index)
    }

    /// The lifecycle stage to report.
    pub fn state(&self) -> (r: PreflightApplyState)
        ensures
            r == cycle_state(self@.phase),
    {
        match self.phase {
            CyclePhase::Pushing => PreflightApplyState::Applying,
            CyclePhase::Restarting(RestartPhase::Saving(_)) => PreflightApplyState::Applying,
            CyclePhase::Restarting(RestartPhase::Settling) => PreflightApplyState::Applying,
            CyclePhase::Restarting(RestartPhase::Rebooting { .. }) =>
                PreflightApplyState::Rebooting,
            CyclePhase::Restarting(_) => PreflightApplyState::Reconnecting,
            CyclePhase::Verifying { .. } => PreflightApplyState::Verifying,
            CyclePhase::VerifyPause { .. } => PreflightApplyState::Verifying,
            CyclePhase::Verified => PreflightApplyState::Done,
            CyclePhase::Failed(_) => PreflightApplyState::Error,
        }
    }

    /// Take note of an event.
    pub fn on_event(&mut self, e: CycleEvent)
        requires
            cycle_invariant(old(self)@),
        ensures
            final(self)@ == cycle_advanced(old(self)@, e),
            cycle_invariant(final(self)@),
    {
        match self.phase {
            CyclePhase::Pushing => {
                if let Some(x) = write_event(e) {
                    self.push.on_event(&x);
                    self.phase = match self.push.step() {
                        PushStep::Done => CyclePhase::Restarting(RestartPhase::start()),
                        PushStep::Unconfirmed(i) => CyclePhase::Failed(CycleFault::Unconfirmed(i)),
                        PushStep::LinkClosed(i) => CyclePhase::Failed(CycleFault::LinkClosed(i)),
                        _ => CyclePhase::Pushing,
                    };
                }
            },
            CyclePhase::Restarting(p) => {
                let next = p.after(&e);
                self.phase = match next {
                    RestartPhase::Back => CyclePhase::Verifying { reading: 0 },
                    RestartPhase::SaveLinkLost => CyclePhase::Failed(CycleFault::SaveLinkLost),
                    RestartPhase::SaveNotAccepted => CyclePhase::Failed(
                        CycleFault::SaveNotAccepted,
                    ),
                    RestartPhase::NoShell => CyclePhase::Failed(CycleFault::NoShell),
                    RestartPhase::ShellClosed => CyclePhase::Failed(CycleFault::ShellClosed),
                    RestartPhase::NotBack => CyclePhase::Failed(CycleFault::NotBack),
                    _ => CyclePhase::Restarting(next),
                };
            },
            CyclePhase::Verifying { reading } => {
                if let CycleEvent::Flags { hitl_enabled, is_quadrotor } = e {
                    self.phase = if hitl_enabled && is_quadrotor {
                        CyclePhase::Verified
                    } else if reading + 1 < VERIFY_SETTLE_ATTEMPTS {
                        CyclePhase::VerifyPause { reading }
                    } else {
                        CyclePhase::Failed(CycleFault::NotInEffect)
                    };
                }
            },
            CyclePhase::VerifyPause { reading } => {
                if let CycleEvent::PauseOver = e {
                    self.phase = CyclePhase::Verifying { reading: reading + 1 };
                }
            },
            _ => {},
        }
    }

    /// Why the cycle failed, if it did.
    pub fn failure(&self) -> (r: Option<ApplyFailure>)
        requires
            cycle_invariant(self@),
        ensures
            r is Some <==> self@.phase is Failed,
            r matches Some(f) ==> {
                &&& f.message@ == fault_text(
                    self@.phase->Failed_0,
                    fault_name(self@.phase->Failed_0),
                )
                &&& f.retryable == (self@.phase->Failed_0 is NotInEffect)
            },
    {
        let fault = match self.phase {
            CyclePhase::Failed(fault) => fault,
            _ => return None,
        };
        Some(
            match fault {
                CycleFault::LinkClosed(i) => ApplyFailure::fatal(
                    link_closed_message(self.push.write_at(i).name.as_str()),
                ),
                CycleFault::Unconfirmed(i) => ApplyFailure::fatal(
                    unconfirmed_message(self.push.write_at(i).name.as_str()),
                ),
                CycleFault::SaveLinkLost => ApplyFailure::fatal(
                    not_saved_message(DeliveryStep::LinkLost),
                ),
                CycleFault::SaveNotAccepted => ApplyFailure::fatal(
                    not_saved_message(DeliveryStep::NotAccepted),
                ),
                CycleFault::NoShell => ApplyFailure::fatal(
                    "Failed to send reboot command: NSH channel not available".to_owned(),
                ),
                CycleFault::ShellClosed => ApplyFailure::fatal(
                    "Failed to send reboot command: Failed to send reboot via NSH: channel closed".to_owned(),
                ),
                CycleFault::NotBack => ApplyFailure::fatal(
                    "FC did not reconnect after reboot".to_owned(),
                ),
                CycleFault::NotInEffect => ApplyFailure::retryable(
                    "Settings did not take effect after reboot".to_owned(),
                ),
            },
        )
    }
}

/// A cycle after a run of events.
pub open spec fn cycled(events: Seq<CycleEvent>) -> CycleModel
    decreases events.len(),
{
    if events.len() == 0 {
        cycle_begun()
    } else {
        cycle_advanced(cycled(events.drop_last()), events.last())
    }
}

/// The restart's part of a run of events: those after the last write was
/// confirmed.
pub open spec fn restart_events(events: Seq<CycleEvent>) -> Seq<CycleEvent>
    decreases events.len(),
{
    if events.len() == 0 {
        Seq::empty()
    } else {
        let before = events.drop_last();
        if cycled(before).phase is Restarting {
            restart_events(before).push(events.last())
        } else {
            restart_events(before)
        }
    }
}

/// A cycle comes to saving, rebooting and verifying only after every write was
/// confirmed, each by an echo of its own, and to the reboot only after the save
/// had settled.
pub proof fn law_a_cycle_confirms_every_write_before_it_reboots(events: Seq<CycleEvent>)
    ensures
        !(cycled(events).phase is Pushing) && !(cycled(events).phase is Failed)
            ==> restart::confirmed_in_order(
            tables::provisioning(),
            tables::provisioning().len() as int,
            events,
        ),
        cycled(events).phase matches CyclePhase::Restarting(p) && restart::reboot_due(p)
            ==> restart::saved_and_settled(restart_events(events)),
{
    lemma_cycled(events);
    if let CyclePhase::Restarting(p) = cycled(events).phase {
        if restart::reboot_due(p) {
            restart::law_no_reboot_before_the_save_has_settled(restart_events(events));
        }
    }
}

proof fn lemma_cycled(events: Seq<CycleEvent>)
    ensures
        ({
            let c = cycled(events);
            let writes = tables::provisioning();
            &&& cycle_invariant(c)
            &&& c.phase is Pushing ==> restart::confirmed_in_order(writes, c.push.index, events)
                && restart_events(events).len() == 0
            &&& !(c.phase is Pushing) && !(c.phase is Failed) ==> restart::confirmed_in_order(
                writes,
                writes.len() as int,
                events,
            )
            &&& c.phase matches CyclePhase::Restarting(p) ==> p == restart::restarted(
                restart_events(events),
            )
        }),
    decreases events.len(),
{
    if events.len() > 0 {
        let before = events.drop_last();
        lemma_cycled(before);
        let c = cycled(before);
        let writes = tables::provisioning();
        let r = restart_events(before);
        assert(r.push(events.last()).drop_last() =~= r);
        if c.phase is Pushing {
            restart::lemma_confirmed_stays(writes, c.push.index, events);
            if c.push.index < writes.len() && restart::echoes_write(
                writes[c.push.index],
                events.last(),
            ) {
                restart::lemma_confirmed_next(writes, c.push.index, events);
            }
        } else if !(c.phase is Failed) {
            restart::lemma_confirmed_stays(writes, writes.len() as int, events);
        }
    }
}

/// What happened to a provisioning.
#[derive(Clone, Debug)]
pub enum ProvisioningInput {
    /// Something happened to the capture under way.
    Capture(CaptureEvent),
    /// Something happened to the cycle under way.
    Cycle(CycleEvent),
}

/// Where a provisioning stands.
#[derive(Debug)]
pub enum ProvisioningStage {
    /// The restore point is being captured. Nothing has been written.
    Capturing(Capture),
    /// A cycle is under way.
    Cycling(ApplyCycle),
    /// It is over.
    Finished(PreflightApplyResult),
}

/// A provisioning: a capture, then one cycle or two.
#[derive(Debug)]
pub struct Provisioning {
    attempt: u8,
    stage: ProvisioningStage,
}

/// A progress report or an outcome.
pub ghost struct ApplyReport {
    pub state: PreflightApplyState,
    pub success: bool,
    pub error: Option<Seq<char>>,
}

/// What a result reports.
pub open spec fn report(r: PreflightApplyResult) -> ApplyReport {
    ApplyReport {
        state: r.state,
        success: r.success,
        error: match r.error {
            Some(e) => Some(e@),
            None => None,
        },
    }
}

/// The report of a failure.
pub open spec fn failed_report(message: Seq<char>) -> ApplyReport {
    ApplyReport { state: PreflightApplyState::Error, success: false, error: Some(message) }
}

/// The report of progress, or of success.
pub open spec fn progress_report(state: PreflightApplyState) -> ApplyReport {
    ApplyReport { state, success: true, error: None }
}

/// The result of a failure.
pub fn apply_error(message: String) -> (r: PreflightApplyResult)
    ensures
        report(r) == failed_report(message@),
{
    PreflightApplyResult {
        state: PreflightApplyState::Error,
        success: false,
        error: Some(message),
    }
}

/// The result that reports progress, or success.
pub fn apply_progress(state: PreflightApplyState) -> (r: PreflightApplyResult)
    ensures
        report(r) == progress_report(state),
{
    PreflightApplyResult { state, success: true, error: None }
}

/// Where a provisioning stands.
pub ghost enum StageModel {
    Capturing(capture::CaptureModel),
    Cycling(CycleModel),
    Finished(ApplyReport),
}

/// Where a provisioning stands, and in which cycle.
pub ghost struct ProvisioningModel {
    pub attempt: u8,
    pub stage: StageModel,
}

impl View for Provisioning {
    type V = ProvisioningModel;

    closed spec fn view(&self) -> ProvisioningModel {
        ProvisioningModel {
            attempt: self.attempt,
            stage: match self.stage {
                ProvisioningStage::Capturing(c) => StageModel::Capturing(c@),
                ProvisioningStage::Cycling(c) => StageModel::Cycling(c@),
                ProvisioningStage::Finished(r) => StageModel::Finished(report(r)),
            },
        }
    }
}

/// The board to capture from, or why there is none.
pub open spec fn target_text(target: Result<String, String>) -> Result<Seq<char>, Seq<char>> {
    match target {
        Ok(board) => Ok(board@),
        Err(e) => Err(e@),
    }
}

/// A provisioning that has not begun: over at once without a board to capture
/// from.
pub open spec fn provisioning_begun(target: Result<Seq<char>, Seq<char>>) -> ProvisioningModel {
    ProvisioningModel {
        attempt: 1,
        stage: match target {
            Ok(board) => StageModel::Capturing(capture::capture_begun(board)),
            Err(e) => StageModel::Finished(failed_report(e)),
        },
    }
}

/// A provisioning whose capture has come this far.
pub open spec fn after_capture(attempt: u8, c: capture::CaptureModel) -> ProvisioningModel {
    ProvisioningModel {
        attempt,
        stage: match c.step {
            capture::CaptureStepModel::Stored => StageModel::Cycling(cycle_begun()),
            capture::CaptureStepModel::Failed(e) => StageModel::Finished(failed_report(e)),
            _ => StageModel::Capturing(c),
        },
    }
}

/// A provisioning whose cycle has come this far.
pub open spec fn after_cycle(attempt: u8, c: CycleModel) -> ProvisioningModel {
    match c.phase {
        CyclePhase::Verified => ProvisioningModel {
            attempt,
            stage: StageModel::Finished(progress_report(PreflightApplyState::Done)),
        },
        CyclePhase::Failed(fault) => if fault is NotInEffect && attempt < PROVISION_ATTEMPTS {
            ProvisioningModel {
                attempt: (attempt + 1) as u8,
                stage: StageModel::Cycling(cycle_begun()),
            }
        } else {
            ProvisioningModel {
                attempt,
                stage: StageModel::Finished(failed_report(fault_text(fault, fault_name(fault)))),
            }
        },
        _ => ProvisioningModel { attempt, stage: StageModel::Cycling(c) },
    }
}

/// A provisioning after an input.
pub open spec fn provisioning_advanced(
    m: ProvisioningModel,
    input: ProvisioningInput,
) -> ProvisioningModel {
    match (m.stage, input) {
        (StageModel::Capturing(c), ProvisioningInput::Capture(e)) => after_capture(
            m.attempt,
            capture::capture_advanced(c, e),
        ),
        (StageModel::Cycling(c), ProvisioningInput::Cycle(e)) => after_cycle(
            m.attempt,
            cycle_advanced(c, e),
        ),
        _ => m,
    }
}

/// What holds of every provisioning.
pub open spec fn provisioning_invariant(m: ProvisioningModel) -> bool {
    &&& 1 <= m.attempt <= PROVISION_ATTEMPTS
    &&& m.stage matches StageModel::Capturing(c) ==> m.attempt == 1 && !(c.step is Stored) && !(
    c.step is Failed)
    &&& m.stage matches StageModel::Cycling(c) ==> cycle_invariant(c) && !(c.phase is Verified)
        && !(c.phase is Failed)
}

impl Provisioning {
    /// Start by capturing the restore point of a board; without a board there
    /// is nothing to start, for the reason given.
    pub fn start(target: Result<String, String>) -> (r: Provisioning)
        ensures
            r@ == provisioning_begun(target_text(target)),
            provisioning_invariant(r@),
    {
        Provisioning {
            attempt: 1,
            stage: match target {
                Ok(board) => ProvisioningStage::Capturing(Capture::start(board)),
                Err(e) => ProvisioningStage::Finished(apply_error(e)),
            },
        }
    }

    /// Take note of an input.
    pub fn on_input(&mut self, input: ProvisioningInput)
        requires
            provisioning_invariant(old(self)@),
        ensures
            final(self)@ == provisioning_advanced(old(self)@, input),
            provisioning_invariant(final(self)@),
    {
        match input {
            ProvisioningInput::Capture(e) => self.on_capture_event(e),
            ProvisioningInput::Cycle(e) => self.on_cycle_event(e),
        }
    }

    fn on_capture_event(&mut self, e: CaptureEvent)
        requires
            provisioning_invariant(old(self)@),
        ensures
            final(self)@ == provisioning_advanced(old(self)@, ProvisioningInput::Capture(e)),
            provisioning_invariant(final(self)@),
    {
        if let ProvisioningStage::Capturing(capture) = &mut self.stage {
            capture.on_event(e);
            let next: Option<ProvisioningStage> = match capture.step() {
                CaptureStep::Stored => Some(ProvisioningStage::Cycling(ApplyCycle::start())),
                CaptureStep::Failed(e) => Some(
                    ProvisioningStage::Finished(apply_error(e.clone())),
                ),
                _ => None,
            };
            if let Some(stage) = next {
                self.stage = stage;
            }
        }
    }

    fn on_cycle_event(&mut self, e: CycleEvent)
        requires
            provisioning_invariant(old(self)@),
        ensures
            final(self)@ == provisioning_advanced(old(self)@, ProvisioningInput::Cycle(e)),
            provisioning_invariant(final(self)@),
    {
        let mut stage = ProvisioningStage::Finished(apply_progress(PreflightApplyState::Done));
        std::mem::swap(&mut stage, &mut self.stage);
        match stage {
            ProvisioningStage::Cycling(mut cycle) => {
                cycle.on_event(e);
                match cycle.failure() {
                    Some(failure) => {
                        if failure.retryable && self.attempt < PROVISION_ATTEMPTS {
                            self.attempt = self.attempt + 1;
                            self.stage = ProvisioningStage::Cycling(ApplyCycle::start());
                        } else {
                            self.stage = ProvisioningStage::Finished(apply_error(failure.message));
                        }
                    },
                    None => {
                        if let CyclePhase::Verified = cycle.phase() {
                            self.stage = ProvisioningStage::Finished(
                                apply_progress(PreflightApplyState::Done),
                            );
                        } else {
                            self.stage = ProvisioningStage::Cycling(cycle);
                        }
                    },
                }
            },
            other => {
                self.stage = other;
            },
        }
    }

    /// The capture under way, if one is.
    pub fn capture(&self) -> (r: Option<&Capture>)
        ensures
            r is Some <==> self@.stage is Capturing,
            r matches Some(c) ==> self@.stage == StageModel::Capturing(c@),
    {
        match &self.stage {
            ProvisioningStage::Capturing(c) => Some(c),
            _ => None,
        }
    }

    /// The cycle under way, if one is.
    pub fn cycle(&self) -> (r: Option<&ApplyCycle>)
        ensures
            r is Some <==> self@.stage is Cycling,
            r matches Some(c) ==> self@.stage == StageModel::Cycling(c@),
    {
        match &self.stage {
            ProvisioningStage::Cycling(c) => Some(c),
            _ => None,
        }
    }

    /// The lifecycle stage to report.
    pub fn state(&self) -> (r: PreflightApplyState)
        ensures
            r == match self@.stage {
                StageModel::Capturing(_) => PreflightApplyState::Capturing,
                StageModel::Cycling(c) => cycle_state(c.phase),
                StageModel::Finished(report) => report.state,
            },
    {
        match &self.stage {
            ProvisioningStage::Capturing(_) => PreflightApplyState::Capturing,
            ProvisioningStage::Cycling(c) => c.state(),
            ProvisioningStage::Finished(result) => result.state,
        }
    }

    /// The outcome, once it is over.
    pub fn result(&self) -> (r: Option<&PreflightApplyResult>)
        ensures
            r is Some <==> self@.stage is Finished,
            r matches Some(result) ==> self@.stage == StageModel::Finished(report(*result)),
    {
        match &self.stage {
            ProvisioningStage::Finished(result) => Some(result),
            _ => None,
        }
    }
}

/// A provisioning after a run of inputs.
pub open spec fn provisioned(
    target: Result<Seq<char>, Seq<char>>,
    inputs: Seq<ProvisioningInput>,
) -> ProvisioningModel
    decreases inputs.len(),
{
    if inputs.len() == 0 {
        provisioning_begun(target)
    } else {
        provisioning_advanced(provisioned(target, inputs.drop_last()), inputs.last())
    }
}

/// Whether a provisioning wants to write a parameter, save or reboot.
pub open spec fn touches_the_board(m: ProvisioningModel) -> bool {
    m.stage is Cycling
}

/// Cycles started in a run of inputs.
pub open spec fn cycles_started(
    target: Result<Seq<char>, Seq<char>>,
    inputs: Seq<ProvisioningInput>,
) -> nat
    decreases inputs.len(),
{
    if inputs.len() == 0 {
        0
    } else {
        let before = provisioned(target, inputs.drop_last());
        let after = provisioned(target, inputs);
        let started = cycles_started(target, inputs.drop_last());
        if after.stage == StageModel::Cycling(cycle_begun()) && (before.stage is Capturing
            || after.attempt != before.attempt) {
            started + 1
        } else {
            started
        }
    }
}

proof fn lemma_provisioned(
    target: Result<Seq<char>, Seq<char>>,
    inputs: Seq<ProvisioningInput>,
)
    ensures
        ({
            let m = provisioned(target, inputs);
            &&& 1 <= m.attempt <= PROVISION_ATTEMPTS
            &&& m.stage is Capturing ==> m.attempt == 1 && cycles_started(target, inputs) == 0
            &&& m.stage is Cycling ==> cycles_started(target, inputs) == m.attempt
            &&& cycles_started(target, inputs) <= m.attempt
        }),
    decreases inputs.len(),
{
    if inputs.len() > 0 {
        lemma_provisioned(target, inputs.drop_last());
    }
}

/// Whether these inputs, in this order, made a restore point of a board: every
/// parameter was read, what was read was kept and handed to a browser, and the
/// browser answered for this board that it is stored.
pub open spec fn restore_point_made(
    board: Seq<char>,
    inputs: Seq<ProvisioningInput>,
    read: int,
    kept: int,
    handed: int,
    acked: int,
) -> bool {
    &&& 0 <= read < kept < handed < acked < inputs.len()
    &&& inputs[read] matches ProvisioningInput::Capture(CaptureEvent::Read { failed, .. })
        && failed@.len() == 0
    &&& inputs[kept] == ProvisioningInput::Capture(CaptureEvent::Kept)
    &&& inputs[handed] == ProvisioningInput::Capture(CaptureEvent::HandedOver { received: true })
    &&& inputs[acked] matches ProvisioningInput::Capture(CaptureEvent::Ack(AckEvent::Acked(ack)))
        && ack.stored && ack.board_identity@ == board
}

/// How far the inputs have brought a restore point, by the step of its capture.
spec fn restore_point_under_way(
    inputs: Seq<ProvisioningInput>,
    step: capture::CaptureStepModel,
    w: (int, int, int),
) -> bool {
    let read = 0 <= w.0 < inputs.len() && (inputs[w.0] matches ProvisioningInput::Capture(
        CaptureEvent::Read { failed, .. },
    ) && failed@.len() == 0);
    let kept = w.0 < w.1 < inputs.len() && inputs[w.1] == ProvisioningInput::Capture(
        CaptureEvent::Kept,
    );
    let handed = w.1 < w.2 < inputs.len() && inputs[w.2] == ProvisioningInput::Capture(
        CaptureEvent::HandedOver { received: true },
    );
    match step {
        capture::CaptureStepModel::Keep(_) => read,
        capture::CaptureStepModel::HandOver => read && kept,
        capture::CaptureStepModel::AwaitAck => read && kept && handed,
        _ => true,
    }
}

proof fn lemma_capturing(
    target: Result<Seq<char>, Seq<char>>,
    inputs: Seq<ProvisioningInput>,
) -> (w: (int, int, int))
    ensures
        provisioned(target, inputs).stage matches StageModel::Capturing(c) ==> target == Ok::<
            Seq<char>,
            Seq<char>,
        >(c.board) && !(c.step is Stored) && restore_point_under_way(inputs, c.step, w),
    decreases inputs.len(),
{
    if inputs.len() == 0 {
        (0, 0, 0)
    } else {
        let before = inputs.drop_last();
        let w = lemma_capturing(target, before);
        let last = inputs.len() - 1;
        assert(forall|i: int| 0 <= i < before.len() ==> inputs[i] == before[i]);
        match inputs.last() {
            ProvisioningInput::Capture(CaptureEvent::Read { .. }) => if let StageModel::Capturing(
                c,
            ) = provisioned(target, before).stage {
                if c.step is Read {
                    (last, 0, 0)
                } else {
                    w
                }
            } else {
                w
            },
            ProvisioningInput::Capture(CaptureEvent::Kept) => if let StageModel::Capturing(c) =
                provisioned(target, before).stage {
                if c.step is Keep {
                    (w.0, last, 0)
                } else {
                    w
                }
            } else {
                w
            },
            ProvisioningInput::Capture(CaptureEvent::HandedOver { .. }) =>
                if let StageModel::Capturing(c) = provisioned(target, before).stage {
                if c.step is HandOver {
                    (w.0, w.1, last)
                } else {
                    w
                }
            } else {
                w
            },
            _ => w,
        }
    }
}

/// Nothing is written to the board, saved or rebooted before every parameter
/// was read, what was read was kept and handed to a browser, and the browser
/// confirmed that the restore point of this very board is stored.
pub proof fn law_nothing_is_written_before_the_restore_point_is_stored(
    target: Result<Seq<char>, Seq<char>>,
    inputs: Seq<ProvisioningInput>,
)
    requires
        touches_the_board(provisioned(target, inputs)),
    ensures
        target is Ok,
        exists|read: int, kept: int, handed: int, acked: int| #[trigger]
            restore_point_made(target->Ok_0, inputs, read, kept, handed, acked),
    decreases inputs.len(),
{
    let before = inputs.drop_last();
    assert(forall|i: int| 0 <= i < before.len() ==> inputs[i] == before[i]);
    if touches_the_board(provisioned(target, before)) {
        law_nothing_is_written_before_the_restore_point_is_stored(target, before);
        let (r, k, h, a) = choose|r: int, k: int, h: int, a: int| #[trigger]
            restore_point_made(target->Ok_0, before, r, k, h, a);
        assert(restore_point_made(target->Ok_0, inputs, r, k, h, a));
    } else {
        let w = lemma_capturing(target, before);
        let last = inputs.len() - 1;
        assert(restore_point_made(target->Ok_0, inputs, w.0, w.1, w.2, last));
    }
}

/// Flash is written a bounded number of times: at most two cycles run, whatever
/// happens.
pub proof fn law_the_number_of_cycles_is_bounded(
    target: Result<Seq<char>, Seq<char>>,
    inputs: Seq<ProvisioningInput>,
)
    ensures
        cycles_started(target, inputs) <= PROVISION_ATTEMPTS,
{
    lemma_provisioned(target, inputs);
}

/// Success is reported only after the board itself reported simulation mode
/// and a quadrotor airframe.
pub proof fn law_success_means_the_board_reported_the_settings(
    target: Result<Seq<char>, Seq<char>>,
    inputs: Seq<ProvisioningInput>,
)
    requires
        provisioned(target, inputs).stage matches StageModel::Finished(r) && r.success,
    ensures
        exists|i: int|
            0 <= i < inputs.len() && #[trigger] inputs[i] == ProvisioningInput::Cycle(
                CycleEvent::Flags { hitl_enabled: true, is_quadrotor: true },
            ),
    decreases inputs.len(),
{
    let before = inputs.drop_last();
    if provisioned(target, before).stage is Finished {
        law_success_means_the_board_reported_the_settings(target, before);
        let i = choose|i: int|
            0 <= i < before.len() && #[trigger] before[i] == ProvisioningInput::Cycle(
                CycleEvent::Flags { hitl_enabled: true, is_quadrotor: true },
            );
        assert(inputs[i] == before[i]);
    } else {
        lemma_cycling_is_open(target, before);
        assert(inputs[inputs.len() - 1] == inputs.last());
    }
}

proof fn lemma_cycling_is_open(
    target: Result<Seq<char>, Seq<char>>,
    inputs: Seq<ProvisioningInput>,
)
    ensures
        provisioned(target, inputs).stage matches StageModel::Cycling(c) ==> !(c.phase is Verified),
    decreases inputs.len(),
{
    if inputs.len() > 0 {
        lemma_cycling_is_open(target, inputs.drop_last());
    }
}

/// A cycle whose last write was confirmed goes on to save; a write that was
/// never confirmed, or found the writer gone, fails it, and is named.
pub proof fn law_a_cycle_saves_once_every_write_was_confirmed(
    c: CycleModel,
    report: crate::param_io::ParamValue,
    distance: crate::ieee::Real32,
)
    requires
        cycle_invariant(c),
        c.phase is Pushing,
        c.push.index == tables::provisioning().len() - 1,
        c.push.exchange.step is Await,
        exchange::confirms(c.push.writes[c.push.index], report, distance),
    ensures
        cycle_advanced(c, CycleEvent::Echo { report, distance }).phase
            == CyclePhase::Restarting(restart::restart_begun()),
{
}

/// A write that used up its attempts fails the cycle, and names the parameter.
pub proof fn law_an_unconfirmed_write_fails_the_cycle(c: CycleModel, i: usize)
    requires
        cycle_invariant(c),
        c.phase is Pushing,
        c.push.index == i,
        i < tables::provisioning().len(),
        c.push.exchange.step is Await,
        c.push.exchange.attempt >= c.push.exchange.budget,
    ensures
        cycle_advanced(c, CycleEvent::TimedOut).phase == CyclePhase::Failed(
            CycleFault::Unconfirmed(i),
        ),
        fault_name(CycleFault::Unconfirmed(i)) == tables::provisioning()[i as int].name,
        fault_name(CycleFault::LinkClosed(i)) == tables::provisioning()[i as int].name,
{
}

/// A board that is back is asked for its flags up to three times, with a pause
/// between: both set, the settings took effect; never both, they did not.
pub proof fn law_how_the_settings_are_verified(
    c: CycleModel,
    reading: u8,
    hitl_enabled: bool,
    is_quadrotor: bool,
)
    requires
        c.phase == (CyclePhase::Verifying { reading }),
        reading < 3,
    ensures
        ({
            let next = cycle_advanced(c, CycleEvent::Flags { hitl_enabled, is_quadrotor }).phase;
            let again = cycle_advanced(
                CycleModel { phase: next, ..c },
                CycleEvent::PauseOver,
            ).phase;
            &&& next is Verified <==> hitl_enabled && is_quadrotor
            &&& !(hitl_enabled && is_quadrotor) && reading < 2 ==> next == (
            CyclePhase::VerifyPause { reading }) && again == (CyclePhase::Verifying {
                reading: (reading + 1) as u8,
            })
            &&& !(hitl_enabled && is_quadrotor) && reading == 2 ==> next == CyclePhase::Failed(
                CycleFault::NotInEffect,
            )
        }),
        phase_after_restart(RestartPhase::Back) == (CyclePhase::Verifying { reading: 0 }),
{
}

/// Each way that a restart fails is a fault of its own, and while it goes on the
/// cycle goes on with it.
pub proof fn law_a_failed_restart_fails_the_cycle(p: RestartPhase)
    ensures
        phase_after_restart(p) == CyclePhase::Failed(CycleFault::SaveLinkLost) <==> p
            is SaveLinkLost,
        phase_after_restart(p) == CyclePhase::Failed(CycleFault::SaveNotAccepted) <==> p
            is SaveNotAccepted,
        phase_after_restart(p) == CyclePhase::Failed(CycleFault::NoShell) <==> p is NoShell,
        phase_after_restart(p) == CyclePhase::Failed(CycleFault::ShellClosed) <==> p
            is ShellClosed,
        phase_after_restart(p) == CyclePhase::Failed(CycleFault::NotBack) <==> p is NotBack,
        phase_after_restart(p) is Verifying <==> p is Back,
        p is Saving || p is Settling || p is Rebooting || p is Reconnecting
            ==> phase_after_restart(p) == CyclePhase::Restarting(p),
{
}

/// Settings that did not take effect are worth one more cycle, from the first
/// write on; every other failure, and a second such, ends the provisioning with
/// its reason. Settings that took effect end it with success.
pub proof fn law_what_a_cycle_leads_to(attempt: u8, c: CycleModel, fault: CycleFault)
    requires
        1 <= attempt <= 2,
    ensures
        c.phase is Verified ==> (after_cycle(attempt, c).stage matches StageModel::Finished(r)
            && r.success && r.state is Done && r.error is None),
        c.phase == CyclePhase::Failed(CycleFault::NotInEffect) && attempt == 1 ==> after_cycle(
            attempt,
            c,
        ) == (ProvisioningModel { attempt: 2, stage: StageModel::Cycling(cycle_begun()) }),
        c.phase == CyclePhase::Failed(fault) && (attempt == 2 || !(fault is NotInEffect)) ==> (
        after_cycle(attempt, c).stage matches StageModel::Finished(r) && !r.success && r.state
            is Error && r.error == Some(fault_text(fault, fault_name(fault)))),
        !(c.phase is Verified) && !(c.phase is Failed) ==> after_cycle(attempt, c) == (
        ProvisioningModel { attempt, stage: StageModel::Cycling(c) }),
        cycle_begun().phase is Pushing,
        cycle_begun().push.index == 0,
        cycle_begun().push.writes == tables::provisioning(),
{
}

/// A restore point that is stored leads to the first cycle; one that cannot be
/// made ends the provisioning with the reason, before anything is written.
pub proof fn law_what_a_capture_leads_to(
    attempt: u8,
    c: capture::CaptureModel,
    message: Seq<char>,
    board: Seq<char>,
)
    ensures
        c.step is Stored ==> after_capture(attempt, c).stage == StageModel::Cycling(cycle_begun()),
        c.step == capture::CaptureStepModel::Failed(message) ==> (after_capture(attempt, c).stage
            matches StageModel::Finished(r) && !r.success && r.state is Error && r.error == Some(
            message,
        )),
        !(c.step is Stored) && !(c.step is Failed) ==> after_capture(attempt, c).stage
            == StageModel::Capturing(c),
        provisioning_begun(Ok(board)).stage == StageModel::Capturing(
            capture::capture_begun(board),
        ),
        provisioning_begun(Err(message)).stage matches StageModel::Finished(r) && !r.success
            && r.error == Some(message),
        provisioning_begun(Ok(board)).attempt == 1,
{
}

/// What is reported while a cycle is under way is what it is doing.
pub proof fn law_what_is_reported_of_a_cycle(
    d: restart::Delivery,
    baseline: u64,
    r: restart::Reconnect,
    reading: u8,
    fault: CycleFault,
)
    ensures
        cycle_state(CyclePhase::Pushing) is Applying,
        cycle_state(CyclePhase::Restarting(RestartPhase::Saving(d))) is Applying,
        cycle_state(CyclePhase::Restarting(RestartPhase::Settling)) is Applying,
        cycle_state(CyclePhase::Restarting(RestartPhase::Rebooting { baseline })) is Rebooting,
        cycle_state(CyclePhase::Restarting(RestartPhase::Reconnecting(r))) is Reconnecting,
        cycle_state(CyclePhase::Verifying { reading }) is Verifying,
        cycle_state(CyclePhase::VerifyPause { reading }) is Verifying,
        cycle_state(CyclePhase::Verified) is Done,
        cycle_state(CyclePhase::Failed(fault)) is Error,
{
}

/// A provisioning that is over stays as it ended.
pub proof fn law_a_provisioning_that_is_over_stays_over(
    m: ProvisioningModel,
    input: ProvisioningInput,
)
    requires
        m.stage is Finished,
    ensures
        provisioning_advanced(m, input) == m,
{
}

/// A cycle that failed says at what: a write is named, a save says that nothing
/// was saved, a reboot says why it did not happen.
pub proof fn law_what_a_failed_cycle_says(fault: CycleFault, name: Seq<char>)
    ensures
        ({
            let said = fault_text(fault, name);
            let not_saved =
                " The parameters were written but not saved, and the flight controller was not rebooted."@;
            &&& fault is LinkClosed ==> said == "MAVLink tx disconnected while sending "@ + name
            &&& fault is Unconfirmed ==> said == "Failed to verify "@ + name + " after "@
                + crate::text::decimal(3) + " retries"@
            &&& fault is SaveLinkLost ==> said
                == "Lost the link to the flight controller while restoring "@ + "PARAM_SAVE"@
                + not_saved
            &&& fault is SaveNotAccepted ==> said
                == "The flight controller is not accepting writes ("@ + "PARAM_SAVE"@
                + "). Restore is incomplete."@ + not_saved
            &&& fault is NoShell ==> said
                == "Failed to send reboot command: NSH channel not available"@
            &&& fault is ShellClosed ==> said
                == "Failed to send reboot command: Failed to send reboot via NSH: channel closed"@
            &&& fault is NotBack ==> said == "FC did not reconnect after reboot"@
            &&& fault is NotInEffect ==> said == "Settings did not take effect after reboot"@
        }),
{
}

} // verus!
