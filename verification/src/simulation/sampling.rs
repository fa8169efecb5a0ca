//! Which sensors are sampled in a tick, and what becomes of their messages.
use crate::daemon::LoopCounts;
use crate::exchange::SendOutcome;
use vstd::prelude::*;

verus! {

/// The magnetometer is sampled every so many ticks.
pub const MAG_UPDATE_DIVIDER: u64 = 8;

/// The barometer is sampled every so many ticks.
pub const BARO_UPDATE_DIVIDER: u64 = 8;

/// Accelerometer and gyro fields of a sensor message.
pub const IMU_FLAGS: u32 = 0x3f;

/// Magnetometer fields of a sensor message.
pub const MAG_FLAGS: u32 = 0x1c0;

/// Barometer fields of a sensor message.
pub const BARO_FLAGS: u32 = 0x1e00;

/// Least time between warnings about dropped messages.
pub const DROP_WARN_INTERVAL_MS: u64 = 5000;

/// A queue that stays full for so long means that the flight controller is
/// gone.
pub const DROP_ERROR_THRESHOLD_MS: u64 = 2000;

/// What is sampled in a tick.
#[derive(Clone, Copy, Debug, PartialEq, Eq, Structural)]
pub struct SamplePlan {
    /// Whether the magnetometer is.
    pub mag: bool,
    /// Whether the barometer is.
    pub baro: bool,
    /// Fields of the sensor message that carry new data.
    pub fields_updated: u32,
}

/// What is sampled in a tick. The inertial sensors always are; all are in the
/// first tick.
pub open spec fn sample_plan(tick: u64) -> SamplePlan {
    let mag = tick % MAG_UPDATE_DIVIDER == 0;
    let baro = tick % BARO_UPDATE_DIVIDER == 0;
    SamplePlan {
        mag,
        baro,
        fields_updated: (IMU_FLAGS + (if mag {
            MAG_FLAGS as int
        } else {
            0
        }) + (if baro {
            BARO_FLAGS as int
        } else {
            0
        })) as u32,
    }
}

/// What is sampled in a tick.
pub fn plan_samples(tick: u64) -> (r: SamplePlan)
    ensures
        r == sample_plan(tick),
{
    let mag: bool = tick % MAG_UPDATE_DIVIDER == 0;
    let baro: bool = tick % BARO_UPDATE_DIVIDER == 0;
    let first: bool = tick == 0;
    let mut fields_updated: u32 = IMU_FLAGS;
    if mag || first {
        fields_updated = fields_updated + MAG_FLAGS;
    }
    if baro || first {
        fields_updated = fields_updated + BARO_FLAGS;
    }
    SamplePlan { mag, baro, fields_updated }
}

/// What to say about a message that did or did not go out.
#[derive(Clone, Copy, Debug, PartialEq, Eq, Structural)]
pub enum DropReport {
    /// Nothing.
    Quiet,
    /// So many were dropped since the last warning.
    Warn(u64),
    /// The queue has been full for too long.
    Error,
}

/// Messages dropped because the queue was full.
#[derive(Clone, Copy, Debug, PartialEq, Eq, Structural)]
pub struct DropWatch {
    /// Last warning.
    pub last_warning_ms: u64,
    /// Drops since then.
    pub since_warning: u64,
    /// Since when the queue has been full without a break.
    pub full_since_ms: Option<u64>,
}

/// Since when the queue has been full, counting this message.
pub open spec fn full_from(w: DropWatch, now_ms: u64) -> u64 {
    match w.full_since_ms {
        Some(t) => t,
        None => now_ms,
    }
}

/// What to say about a sensor message.
pub open spec fn drop_report(w: DropWatch, outcome: SendOutcome, now_ms: u64) -> DropReport {
    if outcome != SendOutcome::Full {
        DropReport::Quiet
    } else if now_ms - full_from(w, now_ms) >= DROP_ERROR_THRESHOLD_MS {
        DropReport::Error
    } else if now_ms - w.last_warning_ms >= DROP_WARN_INTERVAL_MS {
        DropReport::Warn((w.since_warning + 1) as u64)
    } else {
        DropReport::Quiet
    }
}

/// The drops after a sensor message. An error starts the count of full time
/// anew, so that there is at most one per threshold.
pub open spec fn drops_after(w: DropWatch, outcome: SendOutcome, now_ms: u64) -> DropWatch {
    match outcome {
        SendOutcome::Queued => DropWatch { full_since_ms: None, ..w },
        SendOutcome::Disconnected => w,
        SendOutcome::Full => match drop_report(w, outcome, now_ms) {
            DropReport::Error => DropWatch {
                since_warning: (w.since_warning + 1) as u64,
                full_since_ms: Some(now_ms),
                ..w
            },
            DropReport::Warn(_) => DropWatch {
                last_warning_ms: now_ms,
                since_warning: 0,
                full_since_ms: Some(full_from(w, now_ms)),
            },
            DropReport::Quiet => DropWatch {
                since_warning: (w.since_warning + 1) as u64,
                full_since_ms: Some(full_from(w, now_ms)),
                ..w
            },
        },
    }
}

/// The counts after a sensor message.
pub open spec fn sensor_counted(c: LoopCounts, outcome: SendOutcome) -> LoopCounts {
    match outcome {
        SendOutcome::Queued => LoopCounts {
            hil_sensor_count: (c.hil_sensor_count + 1) as u64,
            ..c
        },
        SendOutcome::Full => LoopCounts { sensor_drops: (c.sensor_drops + 1) as u64, ..c },
        SendOutcome::Disconnected => c,
    }
}

/// The counts after a GPS message.
pub open spec fn gps_counted(c: LoopCounts, outcome: SendOutcome) -> LoopCounts {
    match outcome {
        SendOutcome::Queued => LoopCounts { hil_gps_count: (c.hil_gps_count + 1) as u64, ..c },
        SendOutcome::Full => LoopCounts { sensor_drops: (c.sensor_drops + 1) as u64, ..c },
        SendOutcome::Disconnected => c,
    }
}

/// The drops after a GPS message. It neither ends nor begins the time that the
/// queue has been full.
pub open spec fn drops_after_gps(w: DropWatch, outcome: SendOutcome) -> DropWatch {
    if outcome is Full {
        DropWatch { since_warning: (w.since_warning + 1) as u64, ..w }
    } else {
        w
    }
}

fn at_least(since_ms: u64, span_ms: u64, now_ms: u64) -> (r: bool)
    ensures
        r == (now_ms - since_ms >= span_ms),
{
    now_ms >= since_ms && now_ms - since_ms >= span_ms
}

impl DropWatch {
    /// Start watching.
    pub fn new(now_ms: u64) -> (r: DropWatch)
        ensures
            r == (DropWatch { last_warning_ms: now_ms, since_warning: 0, full_since_ms: None }),
    {
        DropWatch { last_warning_ms: now_ms, since_warning: 0, full_since_ms: None }
    }

    /// A sensor message was handed to the queue.
    pub fn on_sensor(&mut self, counts: &mut LoopCounts, outcome: SendOutcome, now_ms: u64) -> (r:
        DropReport)
        requires
            old(counts).hil_sensor_count < u64::MAX,
            old(counts).sensor_drops < u64::MAX,
            old(self).since_warning < u64::MAX,
        ensures
            r == drop_report(*old(self), outcome, now_ms),
            *final(self) == drops_after(*old(self), outcome, now_ms),
            *final(counts) == sensor_counted(*old(counts), outcome),
    {
        match outcome {
            SendOutcome::Queued => {
                counts.hil_sensor_count = counts.hil_sensor_count + 1;
                self.full_since_ms = None;
                DropReport::Quiet
            },
            SendOutcome::Disconnected => DropReport::Quiet,
            SendOutcome::Full => {
                counts.sensor_drops = counts.sensor_drops + 1;
                self.since_warning = self.since_warning + 1;
                let since: u64 = match self.full_since_ms {
                    Some(t) => t,
                    None => now_ms,
                };
                if at_least(since, DROP_ERROR_THRESHOLD_MS, now_ms) {
                    self.full_since_ms = Some(now_ms);
                    return DropReport::Error;
                }
                self.full_since_ms = Some(since);
                if at_least(self.last_warning_ms, DROP_WARN_INTERVAL_MS, now_ms) {
                    let drops: u64 = self.since_warning;
                    self.last_warning_ms = now_ms;
                    self.since_warning = 0;
                    return DropReport::Warn(drops);
                }
                DropReport::Quiet
            },
        }
    }

    /// A GPS message was handed to the queue.
    pub fn on_gps(&mut self, counts: &mut LoopCounts, outcome: SendOutcome)
        requires
            old(counts).hil_gps_count < u64::MAX,
            old(counts).sensor_drops < u64::MAX,
            old(self).since_warning < u64::MAX,
        ensures
            *final(counts) == gps_counted(*old(counts), outcome),
            *final(self) == drops_after_gps(*old(self), outcome),
    {
        match outcome {
            SendOutcome::Queued => {
                counts.hil_gps_count = counts.hil_gps_count + 1;
            },
            SendOutcome::Full => {
                counts.sensor_drops = counts.sensor_drops + 1;
                self.since_warning = self.since_warning + 1;
            },
            SendOutcome::Disconnected => {},
        }
    }
}

/// Every message that went out is counted where it belongs, and every one that
/// found the queue full among the drops; nothing else is counted.
pub proof fn law_messages_are_counted_where_they_belong(c: LoopCounts, outcome: SendOutcome)
    requires
        c.hil_sensor_count < u64::MAX,
        c.hil_gps_count < u64::MAX,
        c.sensor_drops < u64::MAX,
    ensures
        ({
            let s = sensor_counted(c, outcome);
            let g = gps_counted(c, outcome);
            let sent: int = if outcome is Queued {
                1
            } else {
                0
            };
            let dropped: int = if outcome is Full {
                1
            } else {
                0
            };
            &&& s.hil_sensor_count == c.hil_sensor_count + sent
            &&& s.hil_gps_count == c.hil_gps_count
            &&& s.sensor_drops == c.sensor_drops + dropped
            &&& s.actuator_count == c.actuator_count
            &&& g.hil_gps_count == c.hil_gps_count + sent
            &&& g.hil_sensor_count == c.hil_sensor_count
            &&& g.sensor_drops == c.sensor_drops + dropped
            &&& g.actuator_count == c.actuator_count
        }),
{
}

/// A queue that has been full without a break for two seconds is an error;
/// short of that, drops are warned of at most once in five seconds, with how
/// many there were since. A message that went out is never complained of.
pub proof fn law_when_drops_are_complained_of(w: DropWatch, outcome: SendOutcome, now_ms: u64)
    requires
        w.since_warning < u64::MAX,
    ensures
        ({
            let since = match w.full_since_ms {
                Some(t) => t,
                None => now_ms,
            };
            let r = drop_report(w, outcome, now_ms);
            let after = drops_after(w, outcome, now_ms);
            &&& r is Error <==> outcome is Full && now_ms >= since + 2000
            &&& r is Warn <==> outcome is Full && now_ms < since + 2000 && now_ms
                >= w.last_warning_ms + 5000
            &&& r matches DropReport::Warn(n) ==> n == w.since_warning + 1
            &&& r is Warn ==> after.since_warning == 0 && after.last_warning_ms == now_ms
            &&& !(r is Warn) ==> after.last_warning_ms == w.last_warning_ms
            &&& outcome is Full && !(r is Warn) ==> after.since_warning == w.since_warning + 1
            &&& !(outcome is Full) ==> after.since_warning == w.since_warning
            &&& outcome is Queued ==> after.full_since_ms is None
            &&& outcome is Disconnected ==> after == w
            &&& outcome is Full && !(r is Error) ==> after.full_since_ms == Some(since)
            &&& r is Error ==> after.full_since_ms == Some(now_ms)
        }),
{
}

/// The inertial sensors are new in every tick, the magnetometer and the
/// barometer in every eighth, from the first on.
pub proof fn law_which_fields_are_new(tick: u64)
    ensures
        sample_plan(tick).mag <==> tick % 8 == 0,
        sample_plan(tick).baro <==> tick % 8 == 0,
        tick % 8 == 0 ==> sample_plan(tick).fields_updated == 0x1fff,
        tick % 8 != 0 ==> sample_plan(tick).fields_updated == 0x3f,
{
}

/// A GPS message that found the queue full counts as a drop, and neither begins
/// nor ends the time that the queue has been full.
pub proof fn law_a_dropped_fix_counts(w: DropWatch, outcome: SendOutcome)
    requires
        w.since_warning < u64::MAX,
    ensures
        outcome is Full ==> drops_after_gps(w, outcome).since_warning == w.since_warning + 1,
        !(outcome is Full) ==> drops_after_gps(w, outcome) == w,
        drops_after_gps(w, outcome).full_since_ms == w.full_since_ms,
        drops_after_gps(w, outcome).last_warning_ms == w.last_warning_ms,
{
}

} // verus!
