//! Restoring a snapshot: write every value back, save, reboot, and read back
//! what took.
use crate::exchange;
use crate::exchange::{ParamWrite, PARAM_ACK_EPSILON, PARAM_RETRY_COUNT};
use crate::ieee;
use crate::ieee::Real32;
use crate::param_io;
use crate::param_io::ParamValue;
use crate::param_read;
use crate::preflight::capture;
use crate::preflight::restart;
use crate::preflight::restart::{
    delivery_message, CycleEvent, Delivery, DeliveryStep, RestartPhase,
};
use crate::protocol::provisioning;
use crate::protocol::provisioning::{
    RestoreMismatch, RestoreResult, RestoreState, SnapshotParam,
};
use crate::text;
use crate::text::{push_decimal, push_joined, same_text};
use vstd::prelude::*;

verus! {

/// The write that puts a captured parameter back, with the type the snapshot
/// recorded. Guessing the type from the value would leave parameters quietly
/// unrestored.
pub open spec fn restore_write(p: provisioning::SnapshotModel) -> exchange::WriteModel {
    exchange::WriteModel {
        name: p.name,
        value: if p.param_type == "int32"@ {
            exchange::WriteValue::Int(p.value.truncated() as i32)
        } else {
            exchange::WriteValue::Number(p.value)
        },
    }
}

/// The writes that put a snapshot back.
pub open spec fn restore_writes(params: Seq<SnapshotParam>) -> Seq<exchange::WriteModel> {
    params.map_values(|p: SnapshotParam| restore_write(p@))
}

/// What a restore writes is what was captured: an integer parameter that the
/// snapshot could hold exactly comes back as the same integer, and a
/// floating-point parameter as the same bits.
pub proof fn law_a_restore_writes_back_what_was_captured(p: SnapshotParam, v: ParamValue)
    requires
        capture::records(p, v),
        v.param_type.integer() ==> ieee::representable(
            (if param_io::signed_bits(v.value.bits) < 0 {
                -param_io::signed_bits(v.value.bits)
            } else {
                param_io::signed_bits(v.value.bits)
            }) as nat,
        ),
    ensures
        restore_write(p@).name == v.name@,
        restore_write(p@).value == if v.param_type.integer() {
            exchange::WriteValue::Int(param_io::signed_bits(v.value.bits) as i32)
        } else {
            exchange::WriteValue::Number(v.value)
        },
{
    reveal_strlit("int32");
    reveal_strlit("real32");
    if v.param_type.integer() {
        ieee::law_representable_integers_are_exact(param_io::signed_bits(v.value.bits), p.value);
    } else {
        assert("real32"@.len() != "int32"@.len());
    }
}

/// The writes that put a snapshot back.
pub fn writes_of(params: &Vec<SnapshotParam>) -> (r: Vec<ParamWrite>)
    ensures
        exchange::write_models(r@) == restore_writes(params@),
{
    let mut writes: Vec<ParamWrite> = Vec::new();
    let mut i: usize = 0;
    while i < params.len()
        invariant
            i <= params@.len(),
            writes@.len() == i,
            forall|j: int| 0 <= j < i ==> (#[trigger] writes@[j])@ == restore_write(params@[j]@),
        decreases params@.len() - i,
    {
        let p: &SnapshotParam = &params[i];
        if same_text(p.param_type.as_str(), "int32") {
            writes.push(ParamWrite::integer(p.name.as_str(), p.value.to_i32()));
        } else {
            writes.push(ParamWrite::number(p.name.as_str(), p.value));
        }
        i = i + 1;
    }
    assert(exchange::write_models(writes@) =~= restore_writes(params@));
    writes
}

/// Where a write stands: being handed over, or waiting for its echo.
#[derive(Clone, Copy, Debug, PartialEq, Eq, Structural)]
pub enum WriteStep {
    /// Handing the write over. Backpressure has a budget of its own: a board
    /// that is streamed sensors keeps the queue full.
    Deliver(Delivery),
    /// Waiting for the echo.
    Await,
}

/// What went wrong in a restore. Indices are into the list of writes.
#[derive(Clone, Copy, Debug, PartialEq, Eq, Structural)]
pub enum RestoreFault {
    /// The writer was gone when this write was due.
    LinkLost(usize),
    /// This write was never accepted.
    NotAccepted(usize),
    /// This write was never confirmed.
    Unconfirmed(usize),
    /// The writer was gone before the save was handed over.
    SaveLinkLost,
    /// The save was never accepted.
    SaveNotAccepted,
    /// There is no shell to reboot through.
    NoShell,
    /// The shell's channel is closed.
    ShellClosed,
    /// The board did not come back.
    NotBack,
}

/// Where a restore stands.
#[derive(Clone, Copy, Debug, PartialEq, Eq, Structural)]
pub enum RestorePhase {
    /// Writing the parameter at `index`, for the given attempt, from 1.
    Writing { index: usize, attempt: u8, step: WriteStep },
    /// Saving, rebooting, waiting.
    Restarting(RestartPhase),
    /// Reading every parameter back.
    ReadingBack,
    /// Something failed.
    Failed(RestoreFault),
}

/// A restore under way.
#[derive(Debug)]
pub struct RestoreCycle {
    writes: Vec<ParamWrite>,
    phase: RestorePhase,
}

/// Where a restore stands.
pub ghost struct RestoreModel {
    pub writes: Seq<exchange::WriteModel>,
    pub phase: RestorePhase,
}

impl View for RestoreCycle {
    type V = RestoreModel;

    closed spec fn view(&self) -> RestoreModel {
        RestoreModel { writes: exchange::write_models(self.writes@), phase: self.phase }
    }
}

/// The phase in which the write at `index` is due; past the last, the restart.
pub open spec fn write_due(count: nat, index: int) -> RestorePhase {
    if index < count {
        RestorePhase::Writing {
            index: index as usize,
            attempt: 1,
            step: WriteStep::Deliver(restart::delivery_begun()),
        }
    } else {
        RestorePhase::Restarting(restart::restart_begun())
    }
}

/// The phase of a write whose delivery stands at `d`.
pub open spec fn write_delivered(index: usize, attempt: u8, d: Delivery) -> RestorePhase {
    match d.step {
        DeliveryStep::Delivered => RestorePhase::Writing { index, attempt, step: WriteStep::Await },
        DeliveryStep::NotAccepted => RestorePhase::Failed(RestoreFault::NotAccepted(index)),
        DeliveryStep::LinkLost => RestorePhase::Failed(RestoreFault::LinkLost(index)),
        _ => RestorePhase::Writing { index, attempt, step: WriteStep::Deliver(d) },
    }
}

/// The phase of a write whose echo did not come: another attempt, if one is
/// left.
pub open spec fn write_missed(index: usize, attempt: u8) -> RestorePhase {
    if attempt < PARAM_RETRY_COUNT {
        RestorePhase::Writing {
            index,
            attempt: (attempt + 1) as u8,
            step: WriteStep::Deliver(restart::delivery_begun()),
        }
    } else {
        RestorePhase::Failed(RestoreFault::Unconfirmed(index))
    }
}

/// The phase that a state of the restart leads to.
pub open spec fn restore_after_restart(p: RestartPhase) -> RestorePhase {
    match p {
        RestartPhase::Back => RestorePhase::ReadingBack,
        RestartPhase::SaveLinkLost => RestorePhase::Failed(RestoreFault::SaveLinkLost),
        RestartPhase::SaveNotAccepted => RestorePhase::Failed(RestoreFault::SaveNotAccepted),
        RestartPhase::NoShell => RestorePhase::Failed(RestoreFault::NoShell),
        RestartPhase::ShellClosed => RestorePhase::Failed(RestoreFault::ShellClosed),
        RestartPhase::NotBack => RestorePhase::Failed(RestoreFault::NotBack),
        _ => RestorePhase::Restarting(p),
    }
}

/// The phase of a restore after an event. A write is confirmed by its own echo;
/// missing reports, or a report channel that closed, are no echo.
pub open spec fn restore_phase_after(
    writes: Seq<exchange::WriteModel>,
    p: RestorePhase,
    e: CycleEvent,
) -> RestorePhase {
    match p {
        RestorePhase::Writing { index, attempt, step: WriteStep::Deliver(d) } => write_delivered(
            index,
            attempt,
            restart::delivery_advanced(d, e),
        ),
        RestorePhase::Writing { index, attempt, step: WriteStep::Await } => match e {
            CycleEvent::Echo { report, distance } => if exchange::confirms(
                writes[index as int],
                report,
                distance,
            ) {
                write_due(writes.len(), index + 1)
            } else {
                p
            },
            CycleEvent::ReportsLagged => write_missed(index, attempt),
            CycleEvent::ReportsClosed => write_missed(index, attempt),
            CycleEvent::TimedOut => write_missed(index, attempt),
            _ => p,
        },
        RestorePhase::Restarting(r) => restore_after_restart(restart::restart_advanced(r, e)),
        _ => p,
    }
}

/// What holds of every restore: it stands within its list.
pub open spec fn restore_invariant(m: RestoreModel) -> bool {
    &&& m.writes.len() <= usize::MAX
    &&& match m.phase {
        RestorePhase::Writing { index, attempt, .. } => index < m.writes.len() && 1 <= attempt
            <= PARAM_RETRY_COUNT,
        RestorePhase::Failed(RestoreFault::LinkLost(i)) => i < m.writes.len(),
        RestorePhase::Failed(RestoreFault::NotAccepted(i)) => i < m.writes.len(),
        RestorePhase::Failed(RestoreFault::Unconfirmed(i)) => i < m.writes.len(),
        _ => true,
    }
}

/// The lifecycle stage that a phase belongs to.
pub open spec fn restore_state(p: RestorePhase) -> RestoreState {
    match p {
        RestorePhase::Writing { .. } => RestoreState::Writing,
        RestorePhase::Restarting(RestartPhase::Saving(_)) => RestoreState::Writing,
        RestorePhase::Restarting(RestartPhase::Settling) => RestoreState::Writing,
        RestorePhase::Restarting(RestartPhase::Rebooting { .. }) => RestoreState::Rebooting,
        RestorePhase::Restarting(_) => RestoreState::Reconnecting,
        RestorePhase::ReadingBack => RestoreState::Verifying,
        RestorePhase::Failed(_) => RestoreState::Error,
    }
}

/// The text of a fault; `name` is the parameter it concerns, if any.
pub open spec fn restore_fault_text(fault: RestoreFault, name: Seq<char>) -> Seq<char> {
    let not_saved =
        " The values were written but not saved, and the flight controller was not rebooted."@;
    match fault {
        RestoreFault::LinkLost(_) => restart::delivery_text(DeliveryStep::LinkLost, name),
        RestoreFault::NotAccepted(_) => restart::delivery_text(DeliveryStep::NotAccepted, name),
        RestoreFault::Unconfirmed(_) => "The flight controller did not confirm "@ + name
            + ". Restore is incomplete."@,
        RestoreFault::SaveLinkLost => restart::delivery_text(
            DeliveryStep::LinkLost,
            "PARAM_SAVE"@,
        ) + not_saved,
        RestoreFault::SaveNotAccepted => restart::delivery_text(
            DeliveryStep::NotAccepted,
            "PARAM_SAVE"@,
        ) + not_saved,
        RestoreFault::NoShell => "Failed to send reboot command: NSH channel not available"@,
        RestoreFault::ShellClosed =>
            "Failed to send reboot command: Failed to send reboot via NSH: channel closed"@,
        RestoreFault::NotBack =>
            "The flight controller did not come back after the restore reboot. The parameters were written, but could not be confirmed."@,
    }
}

/// The parameter a fault concerns.
pub open spec fn restore_fault_name(
    writes: Seq<exchange::WriteModel>,
    fault: RestoreFault,
) -> Seq<char> {
    match fault {
        RestoreFault::LinkLost(i) => writes[i as int].name,
        RestoreFault::NotAccepted(i) => writes[i as int].name,
        RestoreFault::Unconfirmed(i) => writes[i as int].name,
        _ => Seq::empty(),
    }
}

/// A progress report or an outcome of a restore.
pub ghost struct RestoreReport {
    pub state: RestoreState,
    pub success: bool,
    pub error: Option<Seq<char>>,
    pub mismatches: Seq<MismatchModel>,
}

/// A parameter that did not read back.
pub ghost struct MismatchModel {
    pub name: Seq<char>,
    pub expected: Real32,
    pub actual: Real32,
}

impl View for RestoreMismatch {
    type V = MismatchModel;

    open spec fn view(&self) -> MismatchModel {
        MismatchModel { name: self.name@, expected: self.expected, actual: self.actual }
    }
}

/// What a result reports.
pub open spec fn restore_report(r: RestoreResult) -> RestoreReport {
    RestoreReport {
        state: r.state,
        success: r.success,
        error: match r.error {
            Some(e) => Some(e@),
            None => None,
        },
        mismatches: r.mismatches@.map_values(|m: RestoreMismatch| m@),
    }
}

/// The report of a failure.
pub open spec fn restore_failed(message: Seq<char>) -> RestoreReport {
    RestoreReport {
        state: RestoreState::Error,
        success: false,
        error: Some(message),
        mismatches: Seq::empty(),
    }
}

/// The report of progress, or of success.
pub open spec fn restore_progress(state: RestoreState) -> RestoreReport {
    RestoreReport { state, success: true, error: None, mismatches: Seq::empty() }
}

/// The result of a failure.
pub fn restore_error(message: String) -> (r: RestoreResult)
    ensures
        restore_report(r) == restore_failed(message@),
{
    let r = RestoreResult {
        state: RestoreState::Error,
        success: false,
        error: Some(message),
        mismatches: Vec::new(),
    };
    assert(restore_report(r).mismatches =~= Seq::empty());
    r
}

/// The result that reports progress, or success.
pub fn restore_reached(state: RestoreState) -> (r: RestoreResult)
    ensures
        restore_report(r) == restore_progress(state),
{
    let r = RestoreResult { state, success: true, error: None, mismatches: Vec::new() };
    assert(restore_report(r).mismatches =~= Seq::empty());
    r
}

impl RestoreCycle {
    /// Start writing a snapshot back.
    pub fn start(params: &Vec<SnapshotParam>) -> (r: RestoreCycle)
        ensures
            r@ == (RestoreModel {
                writes: restore_writes(params@),
                phase: write_due(params@.len(), 0),
            }),
            restore_invariant(r@),
    {
        let writes = writes_of(params);
        assert(exchange::write_models(writes@).len() == writes@.len());
        assert(writes.len() == params@.len());
        let phase = Self::due(writes.len(), 0);
        RestoreCycle { writes, phase }
    }

    fn due(count: usize, index: usize) -> (r: RestorePhase)
        ensures
            r == write_due(count as nat, index as int),
    {
        if index < count {
            RestorePhase::Writing {
                index,
                attempt: 1,
                step: WriteStep::Deliver(Delivery::start()),
            }
        } else {
            RestorePhase::Restarting(RestartPhase::start())
        }
    }

    fn missed(index: usize, attempt: u8) -> (r: RestorePhase)
        ensures
            r == write_missed(index, attempt),
    {
        if attempt < PARAM_RETRY_COUNT {
            RestorePhase::Writing {
                index,
                attempt: attempt + 1,
                step: WriteStep::Deliver(Delivery::start()),
            }
        } else {
            RestorePhase::Failed(RestoreFault::Unconfirmed(index))
        }
    }

    /// Where the restore stands.
    pub fn phase(&self) -> (r: RestorePhase)
        ensures
            r == self@.phase,
    {
        self.phase
    }

    /// The write at an index of the list.
    pub fn write_at(&self, index: usize) -> (r: &ParamWrite)
        requires
            index < self@.writes.len(),
        ensures
            r@ == self@.writes[index as int],
    {
        &self.writes[index]
    }

    /// The lifecycle stage to report.
    pub fn state(&self) -> (r: RestoreState)
        ensures
            r == restore_state(self@.phase),
    {
        match self.phase {
            RestorePhase::Writing { .. } => RestoreState::Writing,
            RestorePhase::Restarting(RestartPhase::Saving(_)) => RestoreState::Writing,
            RestorePhase::Restarting(RestartPhase::Settling) => RestoreState::Writing,
            RestorePhase::Restarting(RestartPhase::Rebooting { .. }) => RestoreState::Rebooting,
            RestorePhase::Restarting(_) => RestoreState::Reconnecting,
            RestorePhase::ReadingBack => RestoreState::Verifying,
            RestorePhase::Failed(_) => RestoreState::Error,
        }
    }

    /// Take note of an event.
    pub fn on_event(&mut self, e: CycleEvent)
        requires
            restore_invariant(old(self)@),
        ensures
            final(self)@.writes == old(self)@.writes,
            final(self)@.phase == restore_phase_after(
                old(self)@.writes,
                old(self)@.phase,
                e,
            ),
            restore_invariant(final(self)@),
    {
        match self.phase {
            RestorePhase::Writing { index, attempt, step: WriteStep::Deliver(d) } => {
                let mut next: Delivery = d;
                next.on_event(&e);
                self.phase = match next.step {
                    DeliveryStep::Delivered => RestorePhase::Writing {
                        index,
                        attempt,
                        step: WriteStep::Await,
                    },
                    DeliveryStep::NotAccepted => RestorePhase::Failed(
                        RestoreFault::NotAccepted(index),
                    ),
                    DeliveryStep::LinkLost => RestorePhase::Failed(RestoreFault::LinkLost(index)),
                    _ => RestorePhase::Writing { index, attempt, step: WriteStep::Deliver(next) },
                };
            },
            RestorePhase::Writing { index, attempt, step: WriteStep::Await } => {
                match e {
                    CycleEvent::Echo { report, distance } => {
                        if self.writes[index].confirmed_by(&report, distance) {
                            self.phase = Self::due(self.writes.len(), index + 1);
                        }
                    },
                    CycleEvent::ReportsLagged => {
                        self.phase = Self::missed(index, attempt);
                    },
                    CycleEvent::ReportsClosed => {
                        self.phase = Self::missed(index, attempt);
                    },
                    CycleEvent::TimedOut => {
                        self.phase = Self::missed(index, attempt);
                    },
                    _ => {},
                }
            },
            RestorePhase::Restarting(p) => {
                let next = p.after(&e);
                self.phase = match next {
                    RestartPhase::Back => RestorePhase::ReadingBack,
                    RestartPhase::SaveLinkLost => RestorePhase::Failed(RestoreFault::SaveLinkLost),
                    RestartPhase::SaveNotAccepted => RestorePhase::Failed(
                        RestoreFault::SaveNotAccepted,
                    ),
                    RestartPhase::NoShell => RestorePhase::Failed(RestoreFault::NoShell),
                    RestartPhase::ShellClosed => RestorePhase::Failed(RestoreFault::ShellClosed),
                    RestartPhase::NotBack => RestorePhase::Failed(RestoreFault::NotBack),
                    _ => RestorePhase::Restarting(next),
                };
            },
            _ => {},
        }
    }

    /// The result of a restore that failed.
    pub fn failure(&self) -> (r: Option<RestoreResult>)
        requires
            restore_invariant(self@),
        ensures
            r is Some <==> self@.phase is Failed,
            r matches Some(result) ==> restore_report(result) == restore_failed(
                restore_fault_text(
                    self@.phase->Failed_0,
                    restore_fault_name(self@.writes, self@.phase->Failed_0),
                ),
            ),
    {
        let fault = match self.phase {
            RestorePhase::Failed(fault) => fault,
            _ => return None,
        };
        let message: String = match fault {
            RestoreFault::LinkLost(i) => delivery_message(
                DeliveryStep::LinkLost,
                self.write_at(i).name.as_str(),
            ),
            RestoreFault::NotAccepted(i) => delivery_message(
                DeliveryStep::NotAccepted,
                self.write_at(i).name.as_str(),
            ),
            RestoreFault::Unconfirmed(i) => {
                let mut out: String = "The flight controller did not confirm ".to_owned();
                out.append(self.write_at(i).name.as_str());
                out.append(". Restore is incomplete.");
                out
            },
            RestoreFault::SaveLinkLost => not_saved_message(DeliveryStep::LinkLost),
            RestoreFault::SaveNotAccepted => not_saved_message(DeliveryStep::NotAccepted),
            RestoreFault::NoShell =>
                "Failed to send reboot command: NSH channel not available".to_owned(),
            RestoreFault::ShellClosed =>
                "Failed to send reboot command: Failed to send reboot via NSH: channel closed".to_owned(),
            RestoreFault::NotBack =>
                "The flight controller did not come back after the restore reboot. The parameters were written, but could not be confirmed.".to_owned(),
        };
        Some(restore_error(message))
    }
}

fn not_saved_message(step: DeliveryStep) -> (r: String)
    ensures
        r@ == restart::delivery_text(step, "PARAM_SAVE"@)
            + " The values were written but not saved, and the flight controller was not rebooted."@,
{
    let mut out: String = delivery_message(step, "PARAM_SAVE");
    out.append(
        " The values were written but not saved, and the flight controller was not rebooted.",
    );
    out
}

/// Where the value of a parameter stands among those read: the first of its
/// name.
pub open spec fn read_back_at(values: Seq<ParamValue>, name: Seq<char>) -> Option<int>
    decreases values.len(),
{
    if values.len() == 0 {
        None
    } else {
        match read_back_at(values.drop_last(), name) {
            Some(i) => Some(i),
            None => if values.last().name@ == name {
                Some(values.len() - 1)
            } else {
                None
            },
        }
    }
}

/// Where the value of a parameter stands among those read.
pub fn find_read_back(values: &Vec<ParamValue>, name: &str) -> (r: Option<usize>)
    ensures
        (match r {
            Some(i) => Some(i as int),
            None => None,
        }) == read_back_at(values@, name@),
        r matches Some(i) ==> i < values@.len(),
{
    let mut i: usize = 0;
    while i < values.len()
        invariant
            i <= values@.len(),
            read_back_at(values@.take(i as int), name@) is None,
        decreases values@.len() - i,
    {
        assert(values@.take(i + 1).drop_last() =~= values@.take(i as int));
        if same_text(values[i].name.as_str(), name) {
            proof {
                lemma_read_back_stays(values@, i + 1, name@);
            }
            return Some(i);
        }
        i = i + 1;
    }
    assert(values@.take(i as int) =~= values@);
    None
}

proof fn lemma_read_back_stays(values: Seq<ParamValue>, n: int, name: Seq<char>)
    requires
        0 <= n <= values.len(),
        read_back_at(values.take(n), name) is Some,
    ensures
        read_back_at(values, name) == read_back_at(values.take(n), name),
    decreases values.len() - n,
{
    if n < values.len() {
        assert(values.take(n + 1).drop_last() =~= values.take(n));
        lemma_read_back_stays(values, n + 1, name);
    } else {
        assert(values.take(n) =~= values);
    }
}

/// Whether a parameter did not read back: it was read, and does not lie within
/// the tolerance of the value written. `distance` is how far it lies from it; a
/// value that is no number lies at no distance, and did not read back either.
pub open spec fn differs(p: SnapshotParam, values: Seq<ParamValue>, distance: Real32) -> bool {
    read_back_at(values, p.name@) is Some && !distance.le(Real32 { bits: PARAM_ACK_EPSILON })
}

/// The parameters that did not read back, by their place in the snapshot.
pub open spec fn differing(
    params: Seq<SnapshotParam>,
    values: Seq<ParamValue>,
    distances: Seq<Real32>,
) -> Seq<int>
    decreases params.len(),
{
    if params.len() == 0 {
        Seq::empty()
    } else {
        let before = differing(params.drop_last(), values, distances);
        if differs(params.last(), values, distances[params.len() - 1]) {
            before.push(params.len() - 1)
        } else {
            before
        }
    }
}

/// Whether an entry reports that a parameter did not read back: what was
/// written, and what was read.
pub open spec fn reports(m: RestoreMismatch, p: SnapshotParam, values: Seq<ParamValue>) -> bool {
    &&& m.name@ == p.name@
    &&& m.expected == p.value
    &&& read_back_at(values, p.name@) matches Some(i) && param_io::is_decoded(values[i], m.actual)
}

/// Whether a list reports exactly the parameters at the given places, in order.
pub open spec fn reports_all(
    found: Seq<RestoreMismatch>,
    places: Seq<int>,
    params: Seq<SnapshotParam>,
    values: Seq<ParamValue>,
) -> bool {
    &&& found.len() == places.len()
    &&& forall|k: int|
        #![trigger found[k]]
        #![trigger places[k]]
        0 <= k < found.len() ==> reports(found[k], params[places[k]], values)
}

/// The message when parameters could not be read back.
pub open spec fn not_read_back_text(failed: Seq<Seq<char>>) -> Seq<char> {
    "Could not read back "@ + text::decimal(failed.len()) + " parameters after the restore ("@
        + text::joined(failed) + ")."@
}

/// The message when values differ.
pub open spec fn differing_text(count: nat) -> Seq<char> {
    text::decimal(count)
        + " parameter(s) did not read back as expected. The flight controller is not fully restored."@
}

/// The parameters that did not read back, given how far each is from the value
/// written.
pub fn mismatches_of(
    params: &Vec<SnapshotParam>,
    values: &Vec<ParamValue>,
    distances: &Vec<Real32>,
) -> (r: Vec<RestoreMismatch>)
    requires
        distances@.len() == params@.len(),
    ensures
        reports_all(r@, differing(params@, values@, distances@), params@, values@),
{
    let mut found: Vec<RestoreMismatch> = Vec::new();
    let mut i: usize = 0;
    while i < params.len()
        invariant
            i <= params@.len(),
            distances@.len() == params@.len(),
            reports_all(
                found@,
                differing(params@.take(i as int), values@, distances@),
                params@,
                values@,
            ),
        decreases params@.len() - i,
    {
        let p: &SnapshotParam = &params[i];
        let ghost d = differing(params@.take(i as int), values@, distances@);
        let ghost e = differing(params@.take(i + 1), values@, distances@);
        let ghost before = found@;
        assert(params@.take(i + 1).drop_last() =~= params@.take(i as int));
        assert(e == if differs(*p, values@, distances@[i as int]) {
            d.push(i as int)
        } else {
            d
        });
        if let Some(j) = find_read_back(values, p.name.as_str()) {
            if !distances[i].at_most(Real32::from_bits(PARAM_ACK_EPSILON)) {
                found.push(
                    RestoreMismatch {
                        name: p.name.clone(),
                        expected: p.value,
                        actual: values[j].decoded_value(),
                    },
                );
            }
        }
        assert(reports_all(before, d, params@, values@));
        assert(reports_all(found@, e, params@, values@));
        i = i + 1;
    }
    assert(params@.take(i as int) =~= params@);
    found
}

/// The outcome of a restore whose parameters were read back: restored only if
/// every one was read, and none differs. `distances` holds how far each value
/// read is from the one written.
pub fn restore_verdict(
    params: &Vec<SnapshotParam>,
    values: &Vec<ParamValue>,
    failed: &Vec<String>,
    distances: &Vec<Real32>,
) -> (r: RestoreResult)
    requires
        distances@.len() == params@.len(),
    ensures
        failed@.len() > 0 ==> restore_report(r) == restore_failed(
            not_read_back_text(param_read::texts(failed@)),
        ),
        failed@.len() == 0 && differing(params@, values@, distances@).len() == 0
            ==> restore_report(r) == restore_progress(RestoreState::Done),
        failed@.len() == 0 && differing(params@, values@, distances@).len() > 0 ==> {
            &&& r.state is Error
            &&& !r.success
            &&& r.error matches Some(e) && e@ == differing_text(
                differing(params@, values@, distances@).len(),
            )
            &&& reports_all(
                r.mismatches@,
                differing(params@, values@, distances@),
                params@,
                values@,
            )
        },
{
    if failed.len() > 0 {
        let mut out: String = "Could not read back ".to_owned();
        push_decimal(&mut out, failed.len() as u64);
        out.append(" parameters after the restore (");
        push_joined(&mut out, failed);
        out.append(").");
        assert(out@ =~= not_read_back_text(param_read::texts(failed@)));
        return restore_error(out);
    }
    let mismatches = mismatches_of(params, values, distances);
    if mismatches.len() == 0 {
        return restore_reached(RestoreState::Done);
    }
    let mut out: String = String::new();
    push_decimal(&mut out, mismatches.len() as u64);
    out.append(
        " parameter(s) did not read back as expected. The flight controller is not fully restored.",
    );
    assert(out@ =~= differing_text(mismatches@.len()));
    RestoreResult { state: RestoreState::Error, success: false, error: Some(out), mismatches }
}

/// A board is reported restored only if every value that was read back lies
/// within the tolerance of the one written.
pub proof fn law_restored_means_every_value_read_back(
    params: Seq<SnapshotParam>,
    values: Seq<ParamValue>,
    distances: Seq<Real32>,
    i: int,
)
    requires
        distances.len() == params.len(),
        differing(params, values, distances).len() == 0,
        0 <= i < params.len(),
        read_back_at(values, params[i].name@) is Some,
    ensures
        distances[i].le(Real32 { bits: PARAM_ACK_EPSILON }),
{
    lemma_none_differs(params, values, distances, i);
}

proof fn lemma_none_differs(
    params: Seq<SnapshotParam>,
    values: Seq<ParamValue>,
    distances: Seq<Real32>,
    i: int,
)
    requires
        differing(params, values, distances).len() == 0,
        0 <= i < params.len(),
    ensures
        !differs(params[i], values, distances[i]),
    decreases params.len(),
{
    if i < params.len() - 1 {
        lemma_none_differs(params.drop_last(), values, distances, i);
        assert(params.drop_last()[i] == params[i]);
    }
}

/// A restore after a run of events.
pub open spec fn restored(
    writes: Seq<exchange::WriteModel>,
    events: Seq<CycleEvent>,
) -> RestorePhase
    decreases events.len(),
{
    if events.len() == 0 {
        write_due(writes.len(), 0)
    } else {
        restore_phase_after(writes, restored(writes, events.drop_last()), events.last())
    }
}

/// The restart's part of a run of events: those after the last write was
/// confirmed.
pub open spec fn restart_events(
    writes: Seq<exchange::WriteModel>,
    events: Seq<CycleEvent>,
) -> Seq<CycleEvent>
    decreases events.len(),
{
    if events.len() == 0 {
        Seq::empty()
    } else {
        let before = events.drop_last();
        if restored(writes, before) is Restarting {
            restart_events(writes, before).push(events.last())
        } else {
            restart_events(writes, before)
        }
    }
}

/// A restore comes to saving, rebooting and reading back only after every
/// write was confirmed, each by an echo of its own, and to the reboot only
/// after the save had settled.
pub proof fn law_a_restore_confirms_every_write_before_it_reboots(
    writes: Seq<exchange::WriteModel>,
    events: Seq<CycleEvent>,
)
    requires
        writes.len() <= usize::MAX,
    ensures
        restored(writes, events) is Restarting || restored(writes, events) is ReadingBack
            ==> restart::confirmed_in_order(writes, writes.len() as int, events),
        restored(writes, events) matches RestorePhase::Restarting(p) && restart::reboot_due(p)
            ==> restart::saved_and_settled(restart_events(writes, events)),
{
    lemma_restored(writes, events);
    if let RestorePhase::Restarting(p) = restored(writes, events) {
        if restart::reboot_due(p) {
            restart::law_no_reboot_before_the_save_has_settled(restart_events(writes, events));
        }
    }
}

proof fn lemma_restored(writes: Seq<exchange::WriteModel>, events: Seq<CycleEvent>)
    requires
        writes.len() <= usize::MAX,
    ensures
        match restored(writes, events) {
            RestorePhase::Writing { index, .. } => index < writes.len()
                && restart::confirmed_in_order(writes, index as int, events) && restart_events(
                writes,
                events,
            ).len() == 0,
            RestorePhase::Restarting(p) => restart::confirmed_in_order(
                writes,
                writes.len() as int,
                events,
            ) && p == restart::restarted(restart_events(writes, events)),
            RestorePhase::ReadingBack => restart::confirmed_in_order(
                writes,
                writes.len() as int,
                events,
            ),
            RestorePhase::Failed(_) => true,
        },
    decreases events.len(),
{
    if events.len() > 0 {
        let before = events.drop_last();
        lemma_restored(writes, before);
        let r = restart_events(writes, before);
        assert(r.push(events.last()).drop_last() =~= r);
        match restored(writes, before) {
            RestorePhase::Writing { index, step, .. } => {
                restart::lemma_confirmed_stays(writes, index as int, events);
                if step is Await && restart::echoes_write(writes[index as int], events.last()) {
                    restart::lemma_confirmed_next(writes, index as int, events);
                }
            },
            RestorePhase::Restarting(_) => {
                restart::lemma_confirmed_stays(writes, writes.len() as int, events);
            },
            RestorePhase::ReadingBack => {
                restart::lemma_confirmed_stays(writes, writes.len() as int, events);
            },
            RestorePhase::Failed(_) => {},
        }
    }
}

/// A captured parameter goes back under its own name: one recorded as an integer
/// as that integer, every other as the number itself.
pub proof fn law_how_a_captured_parameter_goes_back(p: provisioning::SnapshotModel)
    ensures
        restore_write(p).name == p.name,
        p.param_type == "int32"@ ==> restore_write(p).value == exchange::WriteValue::Int(
            p.value.truncated() as i32,
        ),
        p.param_type != "int32"@ ==> restore_write(p).value == exchange::WriteValue::Number(
            p.value,
        ),
{
}

/// Every parameter of a snapshot is written back, in its order.
pub proof fn law_every_captured_parameter_goes_back(params: Seq<SnapshotParam>, i: int)
    requires
        0 <= i < params.len(),
    ensures
        restore_writes(params).len() == params.len(),
        restore_writes(params)[i].name == params[i].name@,
        restore_writes(params)[i] == restore_write(params[i]@),
{
}

/// A restore begins with the first write and goes on to the next with each echo;
/// after the last it saves and restarts.
pub proof fn law_an_echo_moves_a_restore_on(
    writes: Seq<exchange::WriteModel>,
    index: usize,
    attempt: u8,
    report: ParamValue,
    distance: Real32,
)
    requires
        index < writes.len() <= usize::MAX,
        exchange::confirms(writes[index as int], report, distance),
    ensures
        ({
            let next = restore_phase_after(
                writes,
                RestorePhase::Writing { index, attempt, step: WriteStep::Await },
                CycleEvent::Echo { report, distance },
            );
            &&& index + 1 < writes.len() ==> next == (RestorePhase::Writing {
                index: (index + 1) as usize,
                attempt: 1,
                step: WriteStep::Deliver(restart::delivery_begun()),
            })
            &&& index + 1 == writes.len() ==> next == RestorePhase::Restarting(
                restart::restart_begun(),
            )
            &&& write_due(writes.len(), 0) == (RestorePhase::Writing {
                index: 0,
                attempt: 1,
                step: WriteStep::Deliver(restart::delivery_begun()),
            })
            &&& write_due(0, 0) == RestorePhase::Restarting(restart::restart_begun())
        }),
{
}

/// A write that was handed over waits for its echo, three times at most; a
/// report of something else is not one, and missing reports count as none.
pub proof fn law_a_restored_write_has_three_attempts(
    writes: Seq<exchange::WriteModel>,
    index: usize,
    attempt: u8,
    report: ParamValue,
    distance: Real32,
)
    requires
        index < writes.len(),
        1 <= attempt <= 3,
    ensures
        ({
            let p = RestorePhase::Writing { index, attempt, step: WriteStep::Await };
            let missed = restore_phase_after(writes, p, CycleEvent::TimedOut);
            &&& attempt < 3 ==> missed == (RestorePhase::Writing {
                index,
                attempt: (attempt + 1) as u8,
                step: WriteStep::Deliver(restart::delivery_begun()),
            })
            &&& attempt == 3 ==> missed == RestorePhase::Failed(RestoreFault::Unconfirmed(index))
            &&& restore_phase_after(writes, p, CycleEvent::ReportsLagged) == missed
            &&& restore_phase_after(writes, p, CycleEvent::ReportsClosed) == missed
            &&& !exchange::confirms(writes[index as int], report, distance)
                ==> restore_phase_after(writes, p, CycleEvent::Echo { report, distance }) == p
        }),
{
}

/// A write is handed over until there is room; then its echo is awaited. One
/// that is not accepted, or finds the writer gone, fails the restore.
pub proof fn law_how_a_restored_write_is_handed_over(
    writes: Seq<exchange::WriteModel>,
    index: usize,
    attempt: u8,
    d: Delivery,
)
    requires
        d.step is Send,
    ensures
        ({
            let p = RestorePhase::Writing { index, attempt, step: WriteStep::Deliver(d) };
            &&& restore_phase_after(
                writes,
                p,
                CycleEvent::Sent(exchange::SendOutcome::Queued),
            ) == (RestorePhase::Writing { index, attempt, step: WriteStep::Await })
            &&& restore_phase_after(
                writes,
                p,
                CycleEvent::Sent(exchange::SendOutcome::Disconnected),
            ) == RestorePhase::Failed(RestoreFault::LinkLost(index))
        }),
        write_delivered(
            index,
            attempt,
            Delivery { attempt: d.attempt, step: DeliveryStep::NotAccepted },
        ) == RestorePhase::Failed(RestoreFault::NotAccepted(index)),
{
}

/// A board that is back is read; each way that the restart fails is a fault of
/// its own.
pub proof fn law_a_failed_restart_fails_the_restore(p: RestartPhase)
    ensures
        restore_after_restart(p) is ReadingBack <==> p is Back,
        restore_after_restart(p) == RestorePhase::Failed(RestoreFault::SaveLinkLost) <==> p
            is SaveLinkLost,
        restore_after_restart(p) == RestorePhase::Failed(RestoreFault::SaveNotAccepted) <==> p
            is SaveNotAccepted,
        restore_after_restart(p) == RestorePhase::Failed(RestoreFault::NoShell) <==> p is NoShell,
        restore_after_restart(p) == RestorePhase::Failed(RestoreFault::ShellClosed) <==> p
            is ShellClosed,
        restore_after_restart(p) == RestorePhase::Failed(RestoreFault::NotBack) <==> p is NotBack,
        p is Saving || p is Settling || p is Rebooting || p is Reconnecting
            ==> restore_after_restart(p) == RestorePhase::Restarting(p),
{
}

/// A fault of a write names the parameter it concerns.
pub proof fn law_a_fault_names_its_parameter(writes: Seq<exchange::WriteModel>, i: usize)
    ensures
        restore_fault_name(writes, RestoreFault::LinkLost(i)) == writes[i as int].name,
        restore_fault_name(writes, RestoreFault::NotAccepted(i)) == writes[i as int].name,
        restore_fault_name(writes, RestoreFault::Unconfirmed(i)) == writes[i as int].name,
        text::occurs(
            restore_fault_text(RestoreFault::Unconfirmed(i), writes[i as int].name),
            writes[i as int].name,
        ),
        text::occurs(
            restore_fault_text(RestoreFault::NotAccepted(i), writes[i as int].name),
            writes[i as int].name,
        ),
        text::occurs(
            restore_fault_text(RestoreFault::LinkLost(i), writes[i as int].name),
            writes[i as int].name,
        ),
{
    let name = writes[i as int].name;
    text::law_a_part_occurs_in_the_whole(
        "The flight controller did not confirm "@,
        name,
        ". Restore is incomplete."@,
    );
    text::law_a_part_occurs_in_the_whole(
        "The flight controller is not accepting writes ("@,
        name,
        "). Restore is incomplete."@,
    );
    text::law_a_part_occurs_in_the_whole(
        "Lost the link to the flight controller while restoring "@,
        name,
        Seq::empty(),
    );
    assert("Lost the link to the flight controller while restoring "@ + name + Seq::<char>::empty()
        =~= "Lost the link to the flight controller while restoring "@ + name);
}

/// The value of a parameter is looked up under its name, the first of several;
/// one that was not read is not found.
pub proof fn law_a_value_read_back_is_found_by_its_name(
    values: Seq<ParamValue>,
    name: Seq<char>,
    i: int,
)
    ensures
        read_back_at(values, name) matches Some(k) ==> 0 <= k < values.len() && values[k].name@
            == name && (0 <= i < k ==> values[i].name@ != name),
        read_back_at(values, name) is None ==> (0 <= i < values.len() ==> values[i].name@ != name),
    decreases values.len(),
{
    if values.len() > 0 {
        let rest = values.drop_last();
        law_a_value_read_back_is_found_by_its_name(rest, name, i);
        assert(forall|k: int| 0 <= k < rest.len() ==> rest[k] == values[k]);
    }
}

/// A parameter is reported exactly when it was read and does not lie within
/// 0.0001 of the value written, and each is reported once.
pub proof fn law_which_parameters_are_reported(
    params: Seq<SnapshotParam>,
    values: Seq<ParamValue>,
    distances: Seq<Real32>,
    i: int,
)
    requires
        0 <= i < params.len(),
    ensures
        differing(params, values, distances).contains(i) <==> read_back_at(
            values,
            params[i].name@,
        ) is Some && !distances[i].le(Real32 { bits: 0x38d1_b717 }),
        forall|k: int|
            #![trigger differing(params, values, distances)[k]]
            0 <= k < differing(params, values, distances).len() ==> 0 <= differing(
                params,
                values,
                distances,
            )[k] < params.len(),
        differing(params, values, distances).len() <= params.len(),
    decreases params.len(),
{
    let rest = params.drop_last();
    let before = differing(rest, values, distances);
    let all = differing(params, values, distances);
    lemma_differing_in_range(rest, values, distances);
    lemma_differing_in_range(params, values, distances);
    if i < rest.len() {
        law_which_parameters_are_reported(rest, values, distances, i);
        assert(rest[i] == params[i]);
        if before.contains(i) {
            let k = choose|k: int| 0 <= k < before.len() && before[k] == i;
            assert(all[k] == i);
        }
        if all.contains(i) {
            let k = choose|k: int| 0 <= k < all.len() && all[k] == i;
            assert(before[k] == i);
        }
    } else {
        if differs(params.last(), values, distances[i]) {
            assert(all[all.len() - 1] == i);
        } else if all.contains(i) {
            let k = choose|k: int| 0 <= k < all.len() && all[k] == i;
            assert(before[k] == i);
        }
    }
}

proof fn lemma_differing_in_range(
    params: Seq<SnapshotParam>,
    values: Seq<ParamValue>,
    distances: Seq<Real32>,
)
    ensures
        forall|k: int|
            #![trigger differing(params, values, distances)[k]]
            0 <= k < differing(params, values, distances).len() ==> 0 <= differing(
                params,
                values,
                distances,
            )[k] < params.len(),
        differing(params, values, distances).len() <= params.len(),
    decreases params.len(),
{
    if params.len() > 0 {
        lemma_differing_in_range(params.drop_last(), values, distances);
    }
}

/// A report of a parameter that did not read back gives its name, what was
/// written, and what was read under that name.
pub proof fn law_what_is_reported_of_a_difference(
    m: RestoreMismatch,
    p: SnapshotParam,
    values: Seq<ParamValue>,
)
    requires
        reports(m, p, values),
    ensures
        m.name@ == p.name@,
        m.expected == p.value,
        exists|i: int|
            0 <= i < values.len() && (#[trigger] values[i]).name@ == p.name@
                && param_io::is_decoded(values[i], m.actual),
{
    law_a_value_read_back_is_found_by_its_name(values, p.name@, 0);
}

/// What is reported while a restore is under way is what it is doing.
pub proof fn law_what_is_reported_of_a_restore(
    index: usize,
    attempt: u8,
    step: WriteStep,
    d: Delivery,
    baseline: u64,
    r: restart::Reconnect,
    fault: RestoreFault,
)
    ensures
        restore_state(RestorePhase::Writing { index, attempt, step }) is Writing,
        restore_state(RestorePhase::Restarting(RestartPhase::Saving(d))) is Writing,
        restore_state(RestorePhase::Restarting(RestartPhase::Settling)) is Writing,
        restore_state(RestorePhase::Restarting(RestartPhase::Rebooting { baseline })) is Rebooting,
        restore_state(RestorePhase::Restarting(RestartPhase::Reconnecting(r))) is Reconnecting,
        restore_state(RestorePhase::ReadingBack) is Verifying,
        restore_state(RestorePhase::Failed(fault)) is Error,
        !restore_failed(Seq::empty()).success,
        restore_failed(Seq::empty()).state is Error,
        restore_progress(RestoreState::Done).success,
        restore_progress(RestoreState::Done).error is None,
{
}

/// A restore that failed says at what: a write is named, a save says that
/// nothing was saved, a reboot says why it did not happen.
pub proof fn law_what_a_failed_restore_says(fault: RestoreFault, name: Seq<char>)
    ensures
        ({
            let said = restore_fault_text(fault, name);
            let not_saved =
                " The values were written but not saved, and the flight controller was not rebooted."@;
            &&& fault is LinkLost ==> said
                == "Lost the link to the flight controller while restoring "@ + name
            &&& fault is NotAccepted ==> said
                == "The flight controller is not accepting writes ("@ + name
                + "). Restore is incomplete."@
            &&& fault is Unconfirmed ==> said == "The flight controller did not confirm "@ + name
                + ". Restore is incomplete."@
            &&& fault is SaveLinkLost ==> said
                == "Lost the link to the flight controller while restoring "@ + "PARAM_SAVE"@
                + not_saved
            &&& fault is SaveNotAccepted ==> said
                == "The flight controller is not accepting writes ("@ + "PARAM_SAVE"@
                + "). Restore is incomplete."@ + not_saved
            &&& fault is NoShell ==> said
                == "Failed to send reboot command: NSH channel not available"@
            &&& fault is ShellClosed ==> said
                == "Failed to send reboot command: Failed to send reboot via NSH: channel closed"@
            &&& fault is NotBack ==> said
                == "The flight controller did not come back after the restore reboot. The parameters were written, but could not be confirmed."@
        }),
{
}

/// What could not be read back is counted and named, and what differs is
/// counted.
pub proof fn law_what_did_not_come_back_is_said(failed: Seq<Seq<char>>, count: nat)
    ensures
        not_read_back_text(failed) == "Could not read back "@ + text::decimal(failed.len())
            + " parameters after the restore ("@ + text::joined(failed) + ")."@,
        differing_text(count) == text::decimal(count)
            + " parameter(s) did not read back as expected. The flight controller is not fully restored."@,
{
}

} // verus!
