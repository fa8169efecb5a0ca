//! Saving, rebooting, and waiting for the board to come back.
//!
//! A parameter write only reaches the board's memory. Rebooting before the save
//! was handed over discards everything just written, and rebooting while the
//! flash is being committed can leave the board stuck in its bootloader. So the
//! reboot always waits for the save, and for the commit after it.
use crate::exchange;
use crate::exchange::{SendOutcome, WriteEvent};
use crate::ieee::Real32;
use crate::param_io::ParamValue;
use vstd::prelude::*;

verus! {

/// Attempts before giving up on a saturated send queue. Generous, because the
/// queue drains continuously: the cap bounds a wedged writer.
pub const RESTORE_SEND_ATTEMPTS: u8 = 40;

/// Pause between such attempts.
pub const RESTORE_SEND_BACKOFF_MS: u64 = 25;

/// Delay between the save and the reboot that follows it. The flash commit is
/// asynchronous, and its time grows with the number of changed parameters.
pub const PARAM_SAVE_SETTLE_DELAY_MS: u64 = 2000;

/// Total time for the board to come back after a reboot. It covers the whole
/// reconnect ladder, with one extra bootloader cycle and a margin.
pub const PREFLIGHT_RECONNECT_TIMEOUT_MS: u64 = 60_000;

/// Time between looks at the heartbeat counter.
pub const PREFLIGHT_RECONNECT_POLL_INTERVAL_MS: u64 = 250;

/// Silence required after the reboot command before a heartbeat is trusted. A
/// straggler sent before the board acted on the command lands within about one
/// heartbeat period; the bootloader alone takes longer than this.
pub const PREFLIGHT_QUIET_PERIOD_MS: u64 = 2000;

/// What happened to a cycle of writing, saving and rebooting.
#[derive(Clone, Debug)]
pub enum CycleEvent {
    /// A message was handed to the send queue.
    Sent(SendOutcome),
    /// A requested pause is over.
    PauseOver,
    /// The board reported a parameter: any one, and for a number how far it
    /// lies from the number written.
    Echo { report: ParamValue, distance: Real32 },
    /// Some reports were missed, and with them perhaps the echo.
    ReportsLagged,
    /// There will be no more reports.
    ReportsClosed,
    /// The write under way was not echoed in time.
    TimedOut,
    /// The flash commit had its time; the heartbeat counter stands at `count`.
    Settled { count: u64 },
    /// The reboot command went out at `now_ms`.
    RebootSent { now_ms: u64 },
    /// There is no shell to reboot through.
    NoShell,
    /// The shell's channel is closed.
    ShellClosed,
    /// The heartbeat counter stands at `count` at `now_ms`.
    Polled { count: u64, now_ms: u64 },
    /// The flags of the last heartbeat.
    Flags { hitl_enabled: bool, is_quadrotor: bool },
}

/// What an event means for a write.
pub open spec fn as_write(e: CycleEvent) -> Option<WriteEvent> {
    match e {
        CycleEvent::Sent(outcome) => Some(WriteEvent::Sent(outcome)),
        CycleEvent::PauseOver => Some(WriteEvent::PauseOver),
        CycleEvent::Echo { report, distance } => Some(WriteEvent::Echo { report, distance }),
        CycleEvent::ReportsLagged => Some(WriteEvent::Lagged),
        CycleEvent::ReportsClosed => Some(WriteEvent::Closed),
        CycleEvent::TimedOut => Some(WriteEvent::TimedOut),
        _ => None,
    }
}

/// What an event means for a write.
pub fn write_event(e: CycleEvent) -> (r: Option<WriteEvent>)
    ensures
        r == as_write(e),
{
    match e {
        CycleEvent::Sent(outcome) => Some(WriteEvent::Sent(outcome)),
        CycleEvent::PauseOver => Some(WriteEvent::PauseOver),
        CycleEvent::Echo { report, distance } => Some(WriteEvent::Echo { report, distance }),
        CycleEvent::ReportsLagged => Some(WriteEvent::Lagged),
        CycleEvent::ReportsClosed => Some(WriteEvent::Closed),
        CycleEvent::TimedOut => Some(WriteEvent::TimedOut),
        _ => None,
    }
}

/// Whether an event is the echo that confirms a write.
pub open spec fn echoes_write(w: exchange::WriteModel, e: CycleEvent) -> bool {
    e matches CycleEvent::Echo { report, distance } && exchange::confirms(w, report, distance)
}

/// Whether the first `n` writes were each confirmed by an echo of their own, in
/// the order of the list.
pub open spec fn confirmed_in_order(
    writes: Seq<exchange::WriteModel>,
    n: int,
    events: Seq<CycleEvent>,
) -> bool
    decreases n,
{
    n <= 0 || exists|k: int|
        0 <= k < events.len() && #[trigger] echoes_write(writes[n - 1], events[k])
            && confirmed_in_order(writes, n - 1, events.take(k))
}

/// What was confirmed stays confirmed.
pub proof fn lemma_confirmed_stays(
    writes: Seq<exchange::WriteModel>,
    n: int,
    events: Seq<CycleEvent>,
)
    requires
        events.len() > 0,
        confirmed_in_order(writes, n, events.drop_last()),
    ensures
        confirmed_in_order(writes, n, events),
{
    let before = events.drop_last();
    if n > 0 {
        let k = choose|k: int|
            0 <= k < before.len() && #[trigger] echoes_write(writes[n - 1], before[k])
                && confirmed_in_order(writes, n - 1, before.take(k));
        assert(events.take(k) =~= before.take(k));
        assert(echoes_write(writes[n - 1], events[k]));
    }
}

/// An echo confirms the next write.
pub proof fn lemma_confirmed_next(
    writes: Seq<exchange::WriteModel>,
    n: int,
    events: Seq<CycleEvent>,
)
    requires
        events.len() > 0,
        0 <= n,
        confirmed_in_order(writes, n, events.drop_last()),
        echoes_write(writes[n], events.last()),
    ensures
        confirmed_in_order(writes, n + 1, events),
{
    let k = events.len() - 1;
    assert(events.take(k) =~= events.drop_last());
    assert(echoes_write(writes[n + 1 - 1], events[k]));
}

/// What a delivery asks for next, or how it ended.
#[derive(Clone, Copy, Debug, PartialEq, Eq, Structural)]
pub enum DeliveryStep {
    /// Hand the message to the send queue.
    Send,
    /// Sleep, then report that the pause is over.
    Pause,
    /// It is on its way.
    Delivered,
    /// The queue never drained.
    NotAccepted,
    /// The writer is gone.
    LinkLost,
}

/// One message, offered to the send queue until there is room. A full queue is
/// backpressure, not a lost link, and has a budget of its own.
#[derive(Clone, Copy, Debug, PartialEq, Eq, Structural)]
pub struct Delivery {
    /// Number of the attempt under way, from 1.
    pub attempt: u8,
    /// What comes next.
    pub step: DeliveryStep,
}

/// A delivery that has not begun.
pub open spec fn delivery_begun() -> Delivery {
    Delivery { attempt: 1, step: DeliveryStep::Send }
}

/// A delivery after an event.
pub open spec fn delivery_advanced(d: Delivery, e: CycleEvent) -> Delivery {
    match (d.step, e) {
        (DeliveryStep::Send, CycleEvent::Sent(SendOutcome::Queued)) => Delivery {
            step: DeliveryStep::Delivered,
            ..d
        },
        (DeliveryStep::Send, CycleEvent::Sent(SendOutcome::Full)) => Delivery {
            step: DeliveryStep::Pause,
            ..d
        },
        (DeliveryStep::Send, CycleEvent::Sent(SendOutcome::Disconnected)) => Delivery {
            step: DeliveryStep::LinkLost,
            ..d
        },
        (DeliveryStep::Pause, CycleEvent::PauseOver) => if d.attempt < RESTORE_SEND_ATTEMPTS {
            Delivery { attempt: (d.attempt + 1) as u8, step: DeliveryStep::Send }
        } else {
            Delivery { step: DeliveryStep::NotAccepted, ..d }
        },
        _ => d,
    }
}

impl Delivery {
    /// A delivery that has not begun.
    pub fn start() -> (r: Delivery)
        ensures
            r == delivery_begun(),
    {
        Delivery { attempt: 1, step: DeliveryStep::Send }
    }

    /// Take note of an event.
    pub fn on_event(&mut self, e: &CycleEvent)
        ensures
            *final(self) == delivery_advanced(*old(self), *e),
    {
        match (self.step, e) {
            (DeliveryStep::Send, CycleEvent::Sent(SendOutcome::Queued)) => {
                self.step = DeliveryStep::Delivered;
            },
            (DeliveryStep::Send, CycleEvent::Sent(SendOutcome::Full)) => {
                self.step = DeliveryStep::Pause;
            },
            (DeliveryStep::Send, CycleEvent::Sent(SendOutcome::Disconnected)) => {
                self.step = DeliveryStep::LinkLost;
            },
            (DeliveryStep::Pause, CycleEvent::PauseOver) => {
                if self.attempt < RESTORE_SEND_ATTEMPTS {
                    self.attempt = self.attempt + 1;
                    self.step = DeliveryStep::Send;
                } else {
                    self.step = DeliveryStep::NotAccepted;
                }
            },
            _ => {},
        }
    }
}

/// The message for a delivery that failed; empty for one that did not.
pub open spec fn delivery_text(step: DeliveryStep, name: Seq<char>) -> Seq<char> {
    match step {
        DeliveryStep::LinkLost => "Lost the link to the flight controller while restoring "@ + name,
        DeliveryStep::NotAccepted => "The flight controller is not accepting writes ("@ + name
            + "). Restore is incomplete."@,
        _ => Seq::empty(),
    }
}

/// The message for a delivery that failed; empty for one that did not.
pub fn delivery_message(step: DeliveryStep, name: &str) -> (r: String)
    ensures
        r@ == delivery_text(step, name@),
{
    let mut out: String = String::new();
    match step {
        DeliveryStep::LinkLost => {
            out.append("Lost the link to the flight controller while restoring ");
            out.append(name);
        },
        DeliveryStep::NotAccepted => {
            out.append("The flight controller is not accepting writes (");
            out.append(name);
            out.append("). Restore is incomplete.");
        },
        _ => {},
    }
    assert(out@ =~= delivery_text(step, name@));
    out
}

/// A wait for the board to come back after a reboot.
#[derive(Clone, Copy, Debug, PartialEq, Eq, Structural)]
pub struct Reconnect {
    /// Heartbeats accounted for.
    pub last_seen: u64,
    /// Since when nothing has been heard.
    pub quiet_since_ms: u64,
    /// Whether the board has been silent for long enough.
    pub confirmed_quiet: bool,
    /// When the wait began.
    pub started_ms: u64,
    /// How long the wait may take.
    pub timeout_ms: u64,
    /// How long the silence must last.
    pub quiet_period_ms: u64,
}

/// What a look at the heartbeat counter told.
#[derive(Clone, Copy, Debug, PartialEq, Eq, Structural)]
pub enum ReconnectVerdict {
    /// Look again.
    Wait,
    /// The board is back.
    Back,
    /// It did not come back in time.
    GaveUp,
}

/// A wait that has not begun: `baseline` is the counter before the reboot.
pub open spec fn reconnect_begun(
    baseline: u64,
    now_ms: u64,
    timeout_ms: u64,
    quiet_period_ms: u64,
) -> Reconnect {
    Reconnect {
        last_seen: baseline,
        quiet_since_ms: now_ms,
        confirmed_quiet: false,
        started_ms: now_ms,
        timeout_ms,
        quiet_period_ms,
    }
}

/// A wait after a look at the counter. A heartbeat before the silence is a
/// straggler: it raises the watermark and restarts the countdown.
pub open spec fn reconnect_polled(r: Reconnect, count: u64, now_ms: u64) -> Reconnect {
    if count > r.last_seen {
        if r.confirmed_quiet {
            r
        } else {
            Reconnect { last_seen: count, quiet_since_ms: now_ms, ..r }
        }
    } else if now_ms >= r.quiet_since_ms + r.quiet_period_ms {
        Reconnect { confirmed_quiet: true, ..r }
    } else {
        r
    }
}

/// What a look at the counter tells. A heartbeat that can be trusted counts
/// even at the deadline.
pub open spec fn reconnect_verdict(r: Reconnect, count: u64, now_ms: u64) -> ReconnectVerdict {
    if count > r.last_seen && r.confirmed_quiet {
        ReconnectVerdict::Back
    } else if now_ms >= r.started_ms + r.timeout_ms {
        ReconnectVerdict::GaveUp
    } else {
        ReconnectVerdict::Wait
    }
}

/// Whether `span` has passed between two times.
fn has_passed(since_ms: u64, span_ms: u64, now_ms: u64) -> (r: bool)
    ensures
        r == (now_ms >= since_ms + span_ms),
{
    now_ms >= since_ms && now_ms - since_ms >= span_ms
}

impl Reconnect {
    /// Start waiting.
    pub fn start(baseline: u64, now_ms: u64, timeout_ms: u64, quiet_period_ms: u64) -> (r:
        Reconnect)
        ensures
            r == reconnect_begun(baseline, now_ms, timeout_ms, quiet_period_ms),
    {
        Reconnect {
            last_seen: baseline,
            quiet_since_ms: now_ms,
            confirmed_quiet: false,
            started_ms: now_ms,
            timeout_ms,
            quiet_period_ms,
        }
    }

    /// Look at the heartbeat counter.
    pub fn poll(&mut self, count: u64, now_ms: u64) -> (r: ReconnectVerdict)
        ensures
            *final(self) == reconnect_polled(*old(self), count, now_ms),
            r == reconnect_verdict(*old(self), count, now_ms),
    {
        if count > self.last_seen {
            if self.confirmed_quiet {
                return ReconnectVerdict::Back;
            }
            self.last_seen = count;
            self.quiet_since_ms = now_ms;
        } else if has_passed(self.quiet_since_ms, self.quiet_period_ms, now_ms) {
            self.confirmed_quiet = true;
        }
        if has_passed(self.started_ms, self.timeout_ms, now_ms) {
            ReconnectVerdict::GaveUp
        } else {
            ReconnectVerdict::Wait
        }
    }
}

/// A wait after a run of looks, each a counter and a time.
pub open spec fn reconnect_run(r: Reconnect, polls: Seq<(u64, u64)>) -> Reconnect
    decreases polls.len(),
{
    if polls.len() == 0 {
        r
    } else {
        reconnect_polled(reconnect_run(r, polls.drop_last()), polls.last().0, polls.last().1)
    }
}

/// The counter at a look; look -1 is the baseline.
pub open spec fn count_at(r: Reconnect, polls: Seq<(u64, u64)>, i: int) -> u64 {
    if i < 0 {
        r.last_seen
    } else {
        polls[i].0
    }
}

/// The time of a look; look -1 is the start of the wait.
pub open spec fn time_at(r: Reconnect, polls: Seq<(u64, u64)>, i: int) -> u64 {
    if i < 0 {
        r.quiet_since_ms
    } else {
        polls[i].1
    }
}

/// Whether looks `i` to `j` span a silence: nothing new after look `i`, for the
/// whole quiet period.
pub open spec fn silence(r: Reconnect, polls: Seq<(u64, u64)>, i: int, j: int) -> bool {
    &&& -1 <= i < j < polls.len()
    &&& forall|k: int| #![trigger polls[k]] i < k <= j ==> polls[k].0 <= count_at(r, polls, i)
    &&& time_at(r, polls, j) >= time_at(r, polls, i) + r.quiet_period_ms
}

/// A board is reported back only when a heartbeat arrived after a whole quiet
/// period of silence. A straggler from before the reboot is never trusted.
pub proof fn law_only_a_heartbeat_after_silence_is_trusted(
    baseline: u64,
    start_ms: u64,
    timeout_ms: u64,
    quiet_period_ms: u64,
    polls: Seq<(u64, u64)>,
    count: u64,
    now_ms: u64,
)
    ensures
        ({
            let r = reconnect_begun(baseline, start_ms, timeout_ms, quiet_period_ms);
            reconnect_verdict(reconnect_run(r, polls), count, now_ms) is Back ==> exists|
                i: int,
                j: int,
            | #[trigger]
                silence(r, polls, i, j) && count > count_at(r, polls, i)
        }),
{
    let r = reconnect_begun(baseline, start_ms, timeout_ms, quiet_period_ms);
    let (i, j) = lemma_reconnect_run(r, polls);
    if reconnect_verdict(reconnect_run(r, polls), count, now_ms) is Back {
        assert(silence(r, polls, i, j));
    }
}

/// The look that set the watermark, and the one that confirmed the silence.
proof fn lemma_reconnect_run(r: Reconnect, polls: Seq<(u64, u64)>) -> (w: (int, int))
    requires
        !r.confirmed_quiet,
    ensures
        ({
            let s = reconnect_run(r, polls);
            &&& -1 <= w.0 < polls.len() || w.0 == -1
            &&& s.quiet_period_ms == r.quiet_period_ms
            &&& s.last_seen == count_at(r, polls, w.0)
            &&& s.quiet_since_ms == time_at(r, polls, w.0)
            &&& s.confirmed_quiet ==> silence(r, polls, w.0, w.1)
            &&& !s.confirmed_quiet ==> forall|k: int| #![trigger polls[k]]
                w.0 < k < polls.len() ==> polls[k].0 <= count_at(r, polls, w.0)
        }),
    decreases polls.len(),
{
    if polls.len() == 0 {
        (-1, -1)
    } else {
        let before = polls.drop_last();
        let s = reconnect_run(r, before);
        let (i, j) = lemma_reconnect_run(r, before);
        let last = polls.len() - 1;
        assert(forall|k: int| #![trigger polls[k]] 0 <= k < before.len() ==> before[k] == polls[k]);
        if s.confirmed_quiet {
            assert forall|k: int| #![trigger polls[k]] i < k <= j implies polls[k].0 <= count_at(
                r,
                polls,
                i,
            ) by {
                assert(before[k] == polls[k]);
            }
            (i, j)
        } else if polls.last().0 > s.last_seen {
            (last, j)
        } else {
            assert forall|k: int| #![trigger polls[k]] i < k <= last implies polls[k].0
                <= count_at(r, polls, i) by {
                if k < last {
                    assert(before[k] == polls[k]);
                }
            }
            (i, last)
        }
    }
}

/// Where a restart of the board stands.
#[derive(Clone, Copy, Debug, PartialEq, Eq, Structural)]
pub enum RestartPhase {
    /// The save is being handed over.
    Saving(Delivery),
    /// The flash commit is given its time.
    Settling,
    /// The reboot command is due.
    Rebooting { baseline: u64 },
    /// The board is expected back.
    Reconnecting(Reconnect),
    /// The board is back.
    Back,
    /// The writer was gone before the save was handed over.
    SaveLinkLost,
    /// The save was never accepted.
    SaveNotAccepted,
    /// There is no shell to reboot through.
    NoShell,
    /// The shell's channel is closed.
    ShellClosed,
    /// The board did not come back.
    NotBack,
}

/// A restart that has not begun.
pub open spec fn restart_begun() -> RestartPhase {
    RestartPhase::Saving(delivery_begun())
}

/// A restart after an event.
pub open spec fn restart_advanced(p: RestartPhase, e: CycleEvent) -> RestartPhase {
    match (p, e) {
        (RestartPhase::Saving(d), _) => {
            let next = delivery_advanced(d, e);
            match next.step {
                DeliveryStep::Delivered => RestartPhase::Settling,
                DeliveryStep::NotAccepted => RestartPhase::SaveNotAccepted,
                DeliveryStep::LinkLost => RestartPhase::SaveLinkLost,
                _ => RestartPhase::Saving(next),
            }
        },
        (RestartPhase::Settling, CycleEvent::Settled { count }) => RestartPhase::Rebooting {
            baseline: count,
        },
        (RestartPhase::Rebooting { baseline }, CycleEvent::RebootSent { now_ms }) =>
            RestartPhase::Reconnecting(
            reconnect_begun(
                baseline,
                now_ms,
                PREFLIGHT_RECONNECT_TIMEOUT_MS,
                PREFLIGHT_QUIET_PERIOD_MS,
            ),
        ),
        (RestartPhase::Rebooting { .. }, CycleEvent::NoShell) => RestartPhase::NoShell,
        (RestartPhase::Rebooting { .. }, CycleEvent::ShellClosed) => RestartPhase::ShellClosed,
        (RestartPhase::Reconnecting(r), CycleEvent::Polled { count, now_ms }) =>
            match reconnect_verdict(r, count, now_ms) {
            ReconnectVerdict::Wait => RestartPhase::Reconnecting(
                reconnect_polled(r, count, now_ms),
            ),
            ReconnectVerdict::Back => RestartPhase::Back,
            ReconnectVerdict::GaveUp => RestartPhase::NotBack,
        },
        _ => p,
    }
}

impl RestartPhase {
    /// A restart that has not begun.
    pub fn start() -> (r: RestartPhase)
        ensures
            r == restart_begun(),
    {
        RestartPhase::Saving(Delivery::start())
    }

    /// The restart after an event.
    pub fn after(self, e: &CycleEvent) -> (r: RestartPhase)
        ensures
            r == restart_advanced(self, *e),
    {
        match (self, e) {
            (RestartPhase::Saving(d), _) => {
                let mut next: Delivery = d;
                next.on_event(e);
                match next.step {
                    DeliveryStep::Delivered => RestartPhase::Settling,
                    DeliveryStep::NotAccepted => RestartPhase::SaveNotAccepted,
                    DeliveryStep::LinkLost => RestartPhase::SaveLinkLost,
                    _ => RestartPhase::Saving(next),
                }
            },
            (RestartPhase::Settling, CycleEvent::Settled { count }) => RestartPhase::Rebooting {
                baseline: *count,
            },
            (RestartPhase::Rebooting { baseline }, CycleEvent::RebootSent { now_ms }) =>
                RestartPhase::Reconnecting(
                Reconnect::start(
                    baseline,
                    *now_ms,
                    PREFLIGHT_RECONNECT_TIMEOUT_MS,
                    PREFLIGHT_QUIET_PERIOD_MS,
                ),
            ),
            (RestartPhase::Rebooting { .. }, CycleEvent::NoShell) => RestartPhase::NoShell,
            (RestartPhase::Rebooting { .. }, CycleEvent::ShellClosed) => RestartPhase::ShellClosed,
            (RestartPhase::Reconnecting(r), CycleEvent::Polled { count, now_ms }) => {
                let mut next: Reconnect = r;
                match next.poll(*count, *now_ms) {
                    ReconnectVerdict::Wait => RestartPhase::Reconnecting(next),
                    ReconnectVerdict::Back => RestartPhase::Back,
                    ReconnectVerdict::GaveUp => RestartPhase::NotBack,
                }
            },
            _ => self,
        }
    }
}

/// A restart after a run of events.
pub open spec fn restarted(events: Seq<CycleEvent>) -> RestartPhase
    decreases events.len(),
{
    if events.len() == 0 {
        restart_begun()
    } else {
        restart_advanced(restarted(events.drop_last()), events.last())
    }
}

/// Whether a restart has come as far as the reboot.
pub open spec fn reboot_due(p: RestartPhase) -> bool {
    match p {
        RestartPhase::Saving(_) => false,
        RestartPhase::Settling => false,
        RestartPhase::SaveLinkLost => false,
        RestartPhase::SaveNotAccepted => false,
        _ => true,
    }
}

/// Whether the save was handed over and the flash commit given its time.
pub open spec fn saved_and_settled(events: Seq<CycleEvent>) -> bool {
    exists|i: int, j: int|
        #![trigger events[i], events[j]]
        0 <= i < j < events.len() && events[i] == CycleEvent::Sent(SendOutcome::Queued)
            && events[j] is Settled
}

/// The board is never rebooted before the save was handed over and the flash
/// commit was given its time.
pub proof fn law_no_reboot_before_the_save_has_settled(events: Seq<CycleEvent>)
    requires
        reboot_due(restarted(events)),
    ensures
        saved_and_settled(events),
    decreases events.len(),
{
    let before = events.drop_last();
    if reboot_due(restarted(before)) {
        law_no_reboot_before_the_save_has_settled(before);
        let (i, j) = choose|i: int, j: int|
            #![trigger before[i], before[j]]
            0 <= i < j < before.len() && before[i] == CycleEvent::Sent(SendOutcome::Queued)
                && before[j] is Settled;
        assert(events[i] == before[i] && events[j] == before[j]);
    } else {
        assert(restarted(before) is Settling);
        let i = lemma_settling(before);
        assert(events[i] == before[i]);
        assert(events[events.len() - 1] is Settled);
    }
}

proof fn lemma_settling(events: Seq<CycleEvent>) -> (i: int)
    requires
        restarted(events) is Settling,
    ensures
        0 <= i < events.len(),
        events[i] == CycleEvent::Sent(SendOutcome::Queued),
    decreases events.len(),
{
    let before = events.drop_last();
    if restarted(before) is Settling {
        lemma_settling(before)
    } else {
        assert(restarted(before) is Saving);
        events.len() - 1
    }
}

/// A message is offered to the queue until there is room, at most forty times;
/// a queue with room takes it at once, and a writer that is gone ends it.
pub proof fn law_a_full_queue_is_waited_for(d: Delivery)
    requires
        1 <= d.attempt,
    ensures
        delivery_begun().step is Send,
        delivery_begun().attempt == 1,
        d.step is Send ==> delivery_advanced(d, CycleEvent::Sent(SendOutcome::Queued)).step
            is Delivered,
        d.step is Send ==> delivery_advanced(d, CycleEvent::Sent(SendOutcome::Full)).step is Pause,
        d.step is Send ==> delivery_advanced(
            d,
            CycleEvent::Sent(SendOutcome::Disconnected),
        ).step is LinkLost,
        d.step is Pause && d.attempt < 40 ==> delivery_advanced(d, CycleEvent::PauseOver).step
            is Send && delivery_advanced(d, CycleEvent::PauseOver).attempt == d.attempt + 1,
        d.step is Pause && d.attempt >= 40 ==> delivery_advanced(d, CycleEvent::PauseOver).step
            is NotAccepted,
{
}

/// A message counts as delivered only once the queue took it.
pub proof fn law_only_a_queued_message_is_delivered(d: Delivery, e: CycleEvent)
    requires
        !(d.step is Delivered),
    ensures
        delivery_advanced(d, e).step is Delivered <==> d.step is Send && e == CycleEvent::Sent(
            SendOutcome::Queued,
        ),
        delivery_advanced(d, e).step is LinkLost && !(d.step is LinkLost) ==> d.step is Send && e
            == CycleEvent::Sent(SendOutcome::Disconnected),
        delivery_advanced(d, e).step is NotAccepted && !(d.step is NotAccepted) ==> d.step is Pause
            && d.attempt >= 40,
{
}

/// A restart saves, lets the commit settle, reboots, and waits for the board up
/// to a minute, with two seconds of silence required; the counter before the
/// reboot is what a heartbeat has to exceed.
pub proof fn law_the_course_of_a_restart(count: u64, now_ms: u64)
    ensures
        ({
            let saving = restart_begun();
            let saved = restart_advanced(saving, CycleEvent::Sent(SendOutcome::Queued));
            let settled = restart_advanced(saved, CycleEvent::Settled { count });
            let rebooted = restart_advanced(settled, CycleEvent::RebootSent { now_ms });
            &&& saving is Saving
            &&& saved is Settling
            &&& settled == (RestartPhase::Rebooting { baseline: count })
            &&& rebooted matches RestartPhase::Reconnecting(r) && {
                &&& r.last_seen == count
                &&& r.started_ms == now_ms
                &&& r.quiet_since_ms == now_ms
                &&& !r.confirmed_quiet
                &&& r.timeout_ms == 60_000
                &&& r.quiet_period_ms == 2000
            }
            &&& restart_advanced(settled, CycleEvent::NoShell) is NoShell
            &&& restart_advanced(settled, CycleEvent::ShellClosed) is ShellClosed
            &&& restart_advanced(
                saving,
                CycleEvent::Sent(SendOutcome::Disconnected),
            ) is SaveLinkLost
        }),
{
}

/// A board that was silent for the quiet period and is then heard of is back,
/// even at the deadline; one that is not heard of in time is given up, and until
/// then it is waited for.
pub proof fn law_a_board_that_is_heard_of_after_silence_is_back(
    r: Reconnect,
    count: u64,
    now_ms: u64,
)
    ensures
        ({
            let next = restart_advanced(
                RestartPhase::Reconnecting(r),
                CycleEvent::Polled { count, now_ms },
            );
            let heard = count > r.last_seen;
            &&& next is Back <==> heard && r.confirmed_quiet
            &&& next is NotBack <==> !(heard && r.confirmed_quiet) && now_ms >= r.started_ms
                + r.timeout_ms
            &&& next is Reconnecting <==> !(heard && r.confirmed_quiet) && now_ms < r.started_ms
                + r.timeout_ms
            &&& next matches RestartPhase::Reconnecting(s) ==> {
                &&& heard ==> s.last_seen == count && s.quiet_since_ms == now_ms
                    && !s.confirmed_quiet
                &&& !heard && now_ms >= r.quiet_since_ms + r.quiet_period_ms ==> s.confirmed_quiet
                &&& !heard ==> s.last_seen == r.last_seen && s.quiet_since_ms == r.quiet_since_ms
                &&& !heard && now_ms < r.quiet_since_ms + r.quiet_period_ms ==> s == r
                &&& s.started_ms == r.started_ms
                &&& s.timeout_ms == r.timeout_ms
                &&& s.quiet_period_ms == r.quiet_period_ms
            }
        }),
{
}

/// A restart that is over stays as it ended.
pub proof fn law_a_restart_of_the_board_that_is_over_stays_over(p: RestartPhase, e: CycleEvent)
    requires
        p is Back || p is SaveLinkLost || p is SaveNotAccepted || p is NoShell || p is ShellClosed
            || p is NotBack,
    ensures
        restart_advanced(p, e) == p,
{
}

/// What concerns a write is handed to it as it is, and nothing else is.
pub proof fn law_what_is_handed_to_a_write(
    report: ParamValue,
    distance: Real32,
    outcome: SendOutcome,
    count: u64,
    now_ms: u64,
)
    ensures
        as_write(CycleEvent::Sent(outcome)) == Some(WriteEvent::Sent(outcome)),
        as_write(CycleEvent::PauseOver) == Some(WriteEvent::PauseOver),
        as_write(CycleEvent::Echo { report, distance }) == Some(
            WriteEvent::Echo { report, distance },
        ),
        as_write(CycleEvent::ReportsLagged) == Some(WriteEvent::Lagged),
        as_write(CycleEvent::ReportsClosed) == Some(WriteEvent::Closed),
        as_write(CycleEvent::TimedOut) == Some(WriteEvent::TimedOut),
        as_write(CycleEvent::Settled { count }) is None,
        as_write(CycleEvent::Polled { count, now_ms }) is None,
{
}

/// A delivery that failed is reported with what it was to deliver; one that did
/// not fail is not reported.
pub proof fn law_what_a_failed_delivery_says(step: DeliveryStep, name: Seq<char>)
    ensures
        step is LinkLost ==> delivery_text(step, name)
            == "Lost the link to the flight controller while restoring "@ + name,
        step is NotAccepted ==> delivery_text(step, name)
            == "The flight controller is not accepting writes ("@ + name
            + "). Restore is incomplete."@,
        !(step is LinkLost || step is NotAccepted) ==> delivery_text(step, name).len() == 0,
{
}

} // verus!
