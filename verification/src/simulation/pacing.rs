//! When a tick is due, and the figures of the loop.
use crate::daemon::LoopCounts;
use crate::ieee::Real32;
use vstd::prelude::*;

verus! {

/// How often a snapshot is published.
pub const STATS_PUBLISH_INTERVAL_US: u64 = 500_000;

/// How often the figures of the loop are rolled up.
pub const STATS_WINDOW_INTERVAL_US: u64 = 5_000_000;

/// A second in nanoseconds.
pub const SECOND_NS: u64 = 1_000_000_000;

/// Length of a tick.
pub fn tick_duration_ns(tick_rate_hz: u32) -> (r: u64)
    requires
        tick_rate_hz > 0,
    ensures
        r == tick_ns(tick_rate_hz),
{
    SECOND_NS / tick_rate_hz as u64
}

/// Absolute deadlines, one period apart. A tick that overruns is not made up
/// for: the next deadline is counted from now.
#[derive(Clone, Copy, Debug, PartialEq, Eq, Structural)]
pub struct Deadline {
    /// The next deadline.
    pub next_ns: u64,
    /// Length of a tick.
    pub period_ns: u64,
}

/// The deadline after this one, when a tick ended at `now_ns`: one period on,
/// or now if that has passed.
pub open spec fn next_deadline_ns(d: Deadline, now_ns: u64) -> int {
    if d.next_ns + d.period_ns > now_ns {
        d.next_ns + d.period_ns
    } else {
        now_ns as int
    }
}

impl Deadline {
    /// Start counting.
    pub fn new(now_ns: u64, period_ns: u64) -> (r: Deadline)
        ensures
            r == (Deadline { next_ns: now_ns, period_ns }),
    {
        Deadline { next_ns: now_ns, period_ns }
    }

    /// A tick ended: how long to sleep, if at all.
    pub fn tick(&mut self, now_ns: u64) -> (r: Option<u64>)
        requires
            old(self).next_ns + old(self).period_ns <= u64::MAX,
        ensures
            *final(self) == (Deadline {
                next_ns: next_deadline_ns(*old(self), now_ns) as u64,
                ..*old(self)
            }),
            r == if next_deadline_ns(*old(self), now_ns) > now_ns {
                Some((next_deadline_ns(*old(self), now_ns) - now_ns) as u64)
            } else {
                None
            },
    {
        let next: u64 = self.next_ns + self.period_ns;
        if next > now_ns {
            self.next_ns = next;
            Some(next - now_ns)
        } else {
            self.next_ns = now_ns;
            None
        }
    }
}

/// Latencies over a window of time.
#[derive(Clone, Copy, Debug, PartialEq, Eq, Structural)]
pub struct LatencyWindow {
    /// When the window began.
    pub start_us: u64,
    /// Ticks so far.
    pub ticks: u64,
    /// Latencies of all of them.
    pub total_latency_us: u64,
    /// The largest.
    pub max_latency_us: u64,
}

/// The figures of a window that is over.
#[derive(Clone, Copy, Debug, PartialEq, Eq, Structural)]
pub struct WindowFigures {
    /// Ticks.
    pub ticks: u64,
    /// Latencies of all of them.
    pub total_latency_us: u64,
    /// The largest.
    pub max_latency_us: u64,
    /// Length of the window.
    pub elapsed_us: u64,
}

/// A window after a tick.
pub open spec fn window_with(w: LatencyWindow, latency_us: u64) -> LatencyWindow {
    LatencyWindow {
        ticks: (w.ticks + 1) as u64,
        total_latency_us: (w.total_latency_us + latency_us) as u64,
        max_latency_us: if latency_us > w.max_latency_us {
            latency_us
        } else {
            w.max_latency_us
        },
        ..w
    }
}

impl LatencyWindow {
    /// A new window.
    pub fn new(now_us: u64) -> (r: LatencyWindow)
        ensures
            r == (LatencyWindow {
                start_us: now_us,
                ticks: 0,
                total_latency_us: 0,
                max_latency_us: 0,
            }),
    {
        LatencyWindow { start_us: now_us, ticks: 0, total_latency_us: 0, max_latency_us: 0 }
    }

    /// A tick took so long. The figures, when the window is over; a new one has
    /// then begun.
    pub fn tick(&mut self, latency_us: u64, now_us: u64) -> (r: Option<WindowFigures>)
        requires
            old(self).ticks < u64::MAX,
            old(self).total_latency_us + latency_us <= u64::MAX,
        ensures
            now_us - old(self).start_us < STATS_WINDOW_INTERVAL_US ==> {
                &&& r is None
                &&& *final(self) == window_with(*old(self), latency_us)
            },
            now_us - old(self).start_us >= STATS_WINDOW_INTERVAL_US ==> {
                let w = window_with(*old(self), latency_us);
                &&& r == Some(
                    WindowFigures {
                        ticks: w.ticks,
                        total_latency_us: w.total_latency_us,
                        max_latency_us: w.max_latency_us,
                        elapsed_us: (now_us - old(self).start_us) as u64,
                    },
                )
                &&& *final(self) == (LatencyWindow {
                    start_us: now_us,
                    ticks: 0,
                    total_latency_us: 0,
                    max_latency_us: 0,
                })
            },
    {
        self.ticks = self.ticks + 1;
        self.total_latency_us = self.total_latency_us + latency_us;
        if latency_us > self.max_latency_us {
            self.max_latency_us = latency_us;
        }
        if now_us >= self.start_us && now_us - self.start_us >= STATS_WINDOW_INTERVAL_US {
            let figures = WindowFigures {
                ticks: self.ticks,
                total_latency_us: self.total_latency_us,
                max_latency_us: self.max_latency_us,
                elapsed_us: now_us - self.start_us,
            };
            *self = LatencyWindow::new(now_us);
            return Some(figures);
        }
        None
    }
}

/// Record the figures of a window: its rate and its average, worked out from
/// them, and the low 32 bits of the largest latency.
pub fn record_window(
    counts: &mut LoopCounts,
    tick_rate_hz: Real32,
    avg_latency_us: u32,
    figures: &WindowFigures,
)
    ensures
        *final(counts) == with_figures(*old(counts), tick_rate_hz, avg_latency_us, *figures),
{
    counts.tick_rate_hz = tick_rate_hz;
    counts.avg_latency_us = avg_latency_us;
    counts.max_latency_us = (figures.max_latency_us % 0x1_0000_0000) as u32;
}

/// Whether a snapshot is due.
pub fn publish_due(last_us: u64, now_us: u64) -> (r: bool)
    ensures
        r == snapshot_due(last_us, now_us),
{
    now_us >= last_us && now_us - last_us >= STATS_PUBLISH_INTERVAL_US
}

/// However long a tick overran, the next deadline is not in the past, and it is
/// at most one period away: there is no burst of ticks to catch up.
pub proof fn law_overruns_are_not_made_up_for(d: Deadline, now_ns: u64)
    ensures
        next_deadline_ns(d, now_ns) >= now_ns,
        d.next_ns <= now_ns ==> next_deadline_ns(d, now_ns) <= now_ns + d.period_ns,
{
}

/// A tick that ends in time leaves the rhythm as it was: the next deadline is
/// one period after the last. One that overran starts the rhythm anew.
pub proof fn law_deadlines_keep_the_rhythm(d: Deadline, now_ns: u64)
    ensures
        d.next_ns + d.period_ns > now_ns ==> next_deadline_ns(d, now_ns) == d.next_ns
            + d.period_ns,
        d.next_ns + d.period_ns <= now_ns ==> next_deadline_ns(d, now_ns) == now_ns,
{
}

/// A window counts its ticks, adds up their latencies and keeps the largest.
pub proof fn law_a_window_adds_up(w: LatencyWindow, latency_us: u64)
    requires
        w.ticks < u64::MAX,
        w.total_latency_us + latency_us <= u64::MAX,
    ensures
        window_with(w, latency_us).start_us == w.start_us,
        window_with(w, latency_us).ticks == w.ticks + 1,
        window_with(w, latency_us).total_latency_us == w.total_latency_us + latency_us,
        window_with(w, latency_us).max_latency_us >= latency_us,
        window_with(w, latency_us).max_latency_us >= w.max_latency_us,
        window_with(w, latency_us).max_latency_us == latency_us || window_with(
            w,
            latency_us,
        ).max_latency_us == w.max_latency_us,
{
}

/// Length of a tick.
pub open spec fn tick_ns(tick_rate_hz: u32) -> int {
    SECOND_NS as int / tick_rate_hz as int
}

/// Whether a snapshot is due.
pub open spec fn snapshot_due(last_us: u64, now_us: u64) -> bool {
    now_us - last_us >= STATS_PUBLISH_INTERVAL_US
}

/// Figures of the loop once those of a window are recorded.
pub open spec fn with_figures(
    counts: LoopCounts,
    tick_rate_hz: Real32,
    avg_latency_us: u32,
    figures: WindowFigures,
) -> LoopCounts {
    LoopCounts {
        tick_rate_hz,
        avg_latency_us,
        max_latency_us: (figures.max_latency_us % 0x1_0000_0000) as u32,
        ..counts
    }
}

/// As many ticks as there are in a second fit into one, and no longer ticks
/// would.
pub proof fn law_the_ticks_of_a_second_fit_into_it(tick_rate_hz: u32)
    requires
        tick_rate_hz > 0,
    ensures
        tick_rate_hz * tick_ns(tick_rate_hz) <= 1_000_000_000,
        1_000_000_000 < tick_rate_hz * (tick_ns(tick_rate_hz) + 1),
{
    let n = tick_rate_hz as int;
    vstd::arithmetic::div_mod::lemma_fundamental_div_mod(1_000_000_000, n);
    let q = 1_000_000_000int / n;
    assert(n * (q + 1) == n * q + n) by (nonlinear_arith);
}

/// A snapshot is due every half second.
pub proof fn law_a_snapshot_every_half_second(last_us: u64, now_us: u64)
    ensures
        snapshot_due(last_us, now_us) <==> now_us >= last_us + 500_000,
{
}

/// Recording a window sets its three figures and leaves every count alone.
pub proof fn law_recording_a_window_keeps_the_counts(
    counts: LoopCounts,
    tick_rate_hz: Real32,
    avg_latency_us: u32,
    figures: WindowFigures,
)
    ensures
        ({
            let after = with_figures(counts, tick_rate_hz, avg_latency_us, figures);
            &&& after.tick_rate_hz == tick_rate_hz
            &&& after.avg_latency_us == avg_latency_us
            &&& figures.max_latency_us <= u32::MAX ==> after.max_latency_us
                == figures.max_latency_us
            &&& after.hil_sensor_count == counts.hil_sensor_count
            &&& after.hil_gps_count == counts.hil_gps_count
            &&& after.actuator_count == counts.actuator_count
            &&& after.sensor_drops == counts.sensor_drops
        }),
{
}

} // verus!
