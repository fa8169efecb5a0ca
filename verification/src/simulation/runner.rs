//! One tick of the simulation loop after another.
//!
//! The physics itself is integrated elsewhere; the loop decides what happens
//! around it.
use crate::daemon;
use crate::daemon::LoopCounts;
use crate::exchange::SendOutcome;
use crate::flight::ActuatorOutputs;
use crate::ieee;
use crate::ieee::{clamp, Real32, Real64};
use crate::mavlink_io::messages::{
    build_hil_sensor, make_hil_gps, HilGpsData, HilSensorData, Outbound,
};
use crate::simulation::actuators;
use crate::simulation::actuators::{any_motor_active, ActuatorWatch};
use crate::simulation::contact;
use crate::simulation::contact::{
    integrates, touch_down, warns_of_missing_terrain, BodyMotion, ContactReport, GroundContact,
    Slide,
};
use crate::simulation::pacing;
use crate::simulation::pacing::{publish_due, tick_duration_ns, Deadline, LatencyWindow, WindowFigures};
use crate::simulation::sampling;
use crate::simulation::sampling::{plan_samples, DropReport, DropWatch};
use crate::simulation::state;
use crate::simulation::state::SimulationState;
use vstd::prelude::*;

verus! {

/// The loop's bookkeeping.
#[derive(Clone, Copy, Debug)]
pub struct SimulationLoop {
    /// What is shared with other threads.
    pub sim: SimulationState,
    /// Contact with the ground.
    pub contact: GroundContact,
    /// Counts since the last configuration.
    pub counts: LoopCounts,
    /// Ticks since the start.
    pub total_ticks: u64,
    /// Whether a build was ever configured.
    pub build_configured: bool,
    /// Whether a magnetometer reading is at hand.
    pub mag_cached: bool,
    /// Whether a barometer reading is at hand.
    pub baro_cached: bool,
    /// Actuator commands.
    pub watch: ActuatorWatch,
    /// Dropped messages.
    pub drops: DropWatch,
    /// Deadlines.
    pub deadline: Deadline,
    /// Latencies.
    pub window: LatencyWindow,
    /// Last snapshot.
    pub last_publish_us: u64,
    /// Last warning about missing terrain.
    pub last_terrain_warning_ms: u64,
}

/// One, as a bit pattern.
pub const WHOLE: u64 = 0x3ff0_0000_0000_0000;

/// How the motors are powered in a tick.
#[derive(Clone, Copy, Debug, PartialEq, Eq, Structural)]
pub enum MotorPower {
    /// They turn as commanded, slowed by the sag of the battery they draw from.
    Drawing,
    /// They turn as commanded, and draw nothing.
    Idle,
    /// The battery is empty: they stand still.
    Cut,
}

/// Where a tick left the vehicle.
#[derive(Clone, Copy, Debug, PartialEq, Eq, Structural)]
pub struct StepEnd {
    /// What the ground did.
    pub contact: ContactReport,
    /// How the vehicle moves now.
    pub motion: BodyMotion,
}

/// What the physics does in a tick.
#[derive(Clone, Copy, Debug)]
pub struct StepPlan {
    /// Whether missing terrain is worth a warning.
    pub warn: bool,
    /// Whether the equations of motion are integrated.
    pub integrate: bool,
    /// How the motors are powered, if they are.
    pub power: MotorPower,
    /// What the motors are commanded.
    pub commands: [Real32; 4],
}

/// How the motors are powered.
pub open spec fn motor_power(motors_active: bool, depleted: bool) -> MotorPower {
    if depleted {
        MotorPower::Cut
    } else if motors_active {
        MotorPower::Drawing
    } else {
        MotorPower::Idle
    }
}

/// The share of their nominal speed that motors reach: `quotient` is the
/// terminal voltage over the nominal one.
pub open spec fn sag_ratio(nominal: Real64, quotient: Real64) -> Real64 {
    if (Real64 { bits: 0 }).lt(nominal) {
        ieee::clamped(quotient, 0, WHOLE)
    } else {
        Real64 { bits: WHOLE }
    }
}

/// The share of their nominal speed that motors reach, which is never more than
/// the whole: `quotient` is the terminal voltage over the nominal one.
pub fn speed_ratio(nominal: Real64, quotient: Real64) -> (r: Real64)
    ensures
        r == sag_ratio(nominal, quotient),
        !(Real64 { bits: WHOLE }).lt(r),
        !r.lt(Real64 { bits: 0 }),
{
    if Real64::from_bits(0).less_than(nominal) {
        clamp(quotient, 0, WHOLE)
    } else {
        Real64::from_bits(WHOLE)
    }
}

/// What is sampled in a tick.
#[derive(Clone, Copy, Debug, PartialEq, Eq, Structural)]
pub struct TickSamples {
    /// Whether the magnetometer is; otherwise the reading at hand is sent.
    pub sample_mag: bool,
    /// Whether the barometer is; otherwise the reading at hand is sent.
    pub sample_baro: bool,
    /// Whether the magnetometer reading is kept.
    pub keep_mag: bool,
    /// Whether the barometer reading is kept.
    pub keep_baro: bool,
    /// Fields of the sensor message that carry new data.
    pub fields_updated: u32,
}

/// What follows a tick.
#[derive(Clone, Copy, Debug, PartialEq, Eq, Structural)]
pub struct TickEnd {
    /// The figures of a window that is over.
    pub figures: Option<WindowFigures>,
    /// Whether a snapshot is due.
    pub publish: bool,
}

/// Whether this is what the physics does in a tick.
pub open spec fn step_planned(
    before: SimulationLoop,
    after: SimulationLoop,
    ground: Option<Real64>,
    down: Real64,
    depleted: bool,
    now_ms: u64,
    r: StepPlan,
) -> bool {
    let active = actuators::motors_active(before.sim@.motor_commands);
    &&& r.warn == (ground is None && now_ms - before.last_terrain_warning_ms
        >= contact::TERRAIN_MISS_WARN_INTERVAL_MS)
    &&& r.integrate == (active || !contact::on_ground(ground, down))
    &&& r.power == motor_power(active, depleted)
    &&& r.commands@ == before.sim@.motor_commands
    &&& after == (SimulationLoop {
        last_terrain_warning_ms: if r.warn {
            now_ms
        } else {
            before.last_terrain_warning_ms
        },
        ..before
    })
}

/// What is sampled in a tick of the loop.
pub open spec fn tick_samples(l: SimulationLoop) -> TickSamples {
    let plan = sampling::sample_plan(l.total_ticks);
    TickSamples {
        sample_mag: plan.mag || !l.mag_cached,
        sample_baro: plan.baro || !l.baro_cached,
        keep_mag: plan.mag,
        keep_baro: plan.baro,
        fields_updated: plan.fields_updated,
    }
}

/// The loop once the samples of its tick were taken.
pub open spec fn after_samples(l: SimulationLoop) -> SimulationLoop {
    let plan = sampling::sample_plan(l.total_ticks);
    SimulationLoop {
        mag_cached: l.mag_cached || plan.mag,
        baro_cached: l.baro_cached || plan.baro,
        ..l
    }
}

/// Whether this is what follows a tick that took so long.
pub open spec fn tick_ended(
    before: SimulationLoop,
    after: SimulationLoop,
    latency_us: u64,
    now_us: u64,
    r: TickEnd,
) -> bool {
    let w = pacing::window_with(before.window, latency_us);
    let over = now_us - before.window.start_us >= pacing::STATS_WINDOW_INTERVAL_US;
    let publish = now_us - before.last_publish_us >= pacing::STATS_PUBLISH_INTERVAL_US;
    &&& r == (TickEnd {
        figures: if over {
            Some(
                WindowFigures {
                    ticks: w.ticks,
                    total_latency_us: w.total_latency_us,
                    max_latency_us: w.max_latency_us,
                    elapsed_us: (now_us - before.window.start_us) as u64,
                },
            )
        } else {
            None
        },
        publish,
    })
    &&& after == (SimulationLoop {
        total_ticks: (before.total_ticks + 1) as u64,
        window: if over {
            LatencyWindow { start_us: now_us, ticks: 0, total_latency_us: 0, max_latency_us: 0 }
        } else {
            w
        },
        last_publish_us: if publish {
            now_us
        } else {
            before.last_publish_us
        },
        ..before
    })
}

impl SimulationLoop {
    /// The loop before its first tick.
    pub fn new(tick_rate_hz: u32, now_ms: u64, now_us: u64, now_ns: u64) -> (r: SimulationLoop)
        requires
            tick_rate_hz > 0,
        ensures
            r.sim@ == state::sim_begun(),
            r.contact == (GroundContact { active: true, impact_ticks_remaining: 0 }),
            r.counts == daemon::no_counts(),
            r.total_ticks == 0,
            !r.build_configured,
            !r.mag_cached,
            !r.baro_cached,
            r.watch == (ActuatorWatch { last_command_ms: now_ms, last_warning_ms: now_ms }),
            r.drops == (DropWatch {
                last_warning_ms: now_ms,
                since_warning: 0,
                full_since_ms: None,
            }),
            r.deadline == (Deadline {
                next_ns: now_ns,
                period_ns: (pacing::SECOND_NS as int / tick_rate_hz as int) as u64,
            }),
            r.window == (LatencyWindow {
                start_us: now_us,
                ticks: 0,
                total_latency_us: 0,
                max_latency_us: 0,
            }),
            r.last_publish_us == now_us,
            r.last_terrain_warning_ms == now_ms,
    {
        SimulationLoop {
            sim: SimulationState::new(),
            contact: GroundContact::new(),
            counts: LoopCounts::default(),
            total_ticks: 0,
            build_configured: false,
            mag_cached: false,
            baro_cached: false,
            watch: ActuatorWatch::new(now_ms),
            drops: DropWatch::new(now_ms),
            deadline: Deadline::new(now_ns, tick_duration_ns(tick_rate_hz)),
            window: LatencyWindow::new(now_us),
            last_publish_us: now_us,
            last_terrain_warning_ms: now_ms,
        }
    }

    /// A new configuration arrived: a new flight begins, the readings at hand
    /// are of another vehicle, and the counts start over.
    pub fn reconfigure(&mut self)
        ensures
            final(self).sim@ == state::sim_reset(old(self).sim@),
            final(self).counts == daemon::no_counts(),
            final(self).build_configured,
            !final(self).mag_cached,
            !final(self).baro_cached,
            final(self).contact == old(self).contact,
            final(self).total_ticks == old(self).total_ticks,
            final(self).watch == old(self).watch,
            final(self).drops == old(self).drops,
            final(self).deadline == old(self).deadline,
            final(self).window == old(self).window,
            final(self).last_publish_us == old(self).last_publish_us,
            final(self).last_terrain_warning_ms == old(self).last_terrain_warning_ms,
    {
        self.sim.reset();
        self.mag_cached = false;
        self.baro_cached = false;
        self.build_configured = true;
        self.counts = LoopCounts::default();
    }

    /// Apply the actuator commands that arrived since the last tick. True when
    /// their absence is worth a warning.
    pub fn actuate(&mut self, arrived: &Vec<ActuatorOutputs>, now_ms: u64) -> (r: bool)
        requires
            old(self).counts.actuator_count + arrived@.len() <= u64::MAX,
        ensures
            final(self).counts == (LoopCounts {
                actuator_count: (old(self).counts.actuator_count + arrived@.len()) as u64,
                ..old(self).counts
            }),
            ({
                let after = actuators::actuated(old(self).watch, old(self).sim@, arrived@, now_ms);
                &&& final(self).watch == after.watch
                &&& final(self).sim@ == after.sim
                &&& r == after.warn
            }),
            final(self).contact == old(self).contact,
            final(self).total_ticks == old(self).total_ticks,
            final(self).build_configured == old(self).build_configured,
            final(self).mag_cached == old(self).mag_cached,
            final(self).baro_cached == old(self).baro_cached,
            final(self).drops == old(self).drops,
            final(self).deadline == old(self).deadline,
            final(self).window == old(self).window,
            final(self).last_publish_us == old(self).last_publish_us,
            final(self).last_terrain_warning_ms == old(self).last_terrain_warning_ms,
    {
        self.watch.process(&mut self.sim, &mut self.counts, arrived, now_ms)
    }

    /// What the physics does in this tick, for a vehicle that is `down` below
    /// the origin, over ground at `ground` if that is known. At rest on the
    /// ground nothing is integrated.
    pub fn begin_step(
        &mut self,
        ground: Option<Real64>,
        down: Real64,
        depleted: bool,
        now_ms: u64,
    ) -> (r: StepPlan)
        ensures
            step_planned(*old(self), *final(self), ground, down, depleted, now_ms, r),
    {
        let warn: bool = warns_of_missing_terrain(
            ground.is_some(),
            self.last_terrain_warning_ms,
            now_ms,
        );
        if warn {
            self.last_terrain_warning_ms = now_ms;
        }
        let commands: [Real32; 4] = self.sim.motor_commands();
        let active: bool = any_motor_active(&commands);
        StepPlan {
            warn,
            integrate: integrates(active, ground, down),
            power: if depleted {
                MotorPower::Cut
            } else if active {
                MotorPower::Drawing
            } else {
                MotorPower::Idle
            },
            commands,
        }
    }

    /// Take note of where the physics left the vehicle, and of the time it
    /// took; how it moves once the ground had its say. `slide` is what friction
    /// would leave of its motion along the ground, and `release` the height
    /// above which it counts as airborne.
    pub fn end_step(
        &mut self,
        ground: Option<Real64>,
        motion: BodyMotion,
        slide: Slide,
        release: Real64,
        step_us: u64,
    ) -> (r: StepEnd)
        requires
            old(self).sim@.sim_time_us + step_us <= u64::MAX,
        ensures
            r.contact == contact::contact_report(
                old(self).contact,
                ground,
                motion.down,
                motion.descent,
            ),
            r.motion == contact::touched_down(ground, motion, slide),
            final(self).contact == contact::contact_after(
                old(self).contact,
                ground,
                motion.down,
                motion.descent,
                release,
            ),
            final(self).sim@ == (state::SimModel {
                sim_time_us: (old(self).sim@.sim_time_us + step_us) as u64,
                ..old(self).sim@
            }),
            *final(self) == (SimulationLoop {
                contact: final(self).contact,
                sim: final(self).sim,
                ..*old(self)
            }),
    {
        let contact = self.contact.step(ground, motion.down, motion.descent, release);
        self.sim.advance_time(step_us);
        StepEnd { contact, motion: touch_down(ground, motion, slide) }
    }

    /// What is sampled in this tick. Between updates the reading at hand is
    /// sent again; without one a fresh one is, which is not kept.
    pub fn samples(&mut self) -> (r: TickSamples)
        ensures
            r == tick_samples(*old(self)),
            *final(self) == after_samples(*old(self)),
    {
        let plan = plan_samples(self.total_ticks);
        let r = TickSamples {
            sample_mag: plan.mag || !self.mag_cached,
            sample_baro: plan.baro || !self.baro_cached,
            keep_mag: plan.mag,
            keep_baro: plan.baro,
            fields_updated: plan.fields_updated,
        };
        if plan.mag {
            self.mag_cached = true;
        }
        if plan.baro {
            self.baro_cached = true;
        }
        r
    }

    /// The sensor message of this tick: the readings, stamped with the
    /// simulated time, and what of them is new.
    pub fn sensor_message(&self, readings: &HilSensorData, samples: &TickSamples) -> (r: Outbound)
        ensures
            r == stamped_readings(self.sim@.sim_time_us, *readings, samples.fields_updated),
    {
        build_hil_sensor(
            &HilSensorData { time_usec: self.sim.sim_time_us(), ..*readings },
            samples.fields_updated,
        )
    }

    /// The GPS message of this tick: the fix, stamped with the simulated time.
    pub fn gps_message(&self, fix: &HilGpsData) -> (r: Outbound)
        ensures
            r == stamped_fix(self.sim@.sim_time_us, *fix),
    {
        make_hil_gps(&HilGpsData { time_usec: self.sim.sim_time_us(), ..*fix })
    }

    /// A sensor message was handed to the queue.
    pub fn sensor_sent(&mut self, outcome: SendOutcome, now_ms: u64) -> (r: DropReport)
        requires
            old(self).counts.hil_sensor_count < u64::MAX,
            old(self).counts.sensor_drops < u64::MAX,
            old(self).drops.since_warning < u64::MAX,
        ensures
            r == sampling::drop_report(old(self).drops, outcome, now_ms),
            *final(self) == (SimulationLoop {
                drops: sampling::drops_after(old(self).drops, outcome, now_ms),
                counts: sampling::sensor_counted(old(self).counts, outcome),
                ..*old(self)
            }),
    {
        self.drops.on_sensor(&mut self.counts, outcome, now_ms)
    }

    /// A GPS message was handed to the queue.
    pub fn gps_sent(&mut self, outcome: SendOutcome)
        requires
            old(self).counts.hil_gps_count < u64::MAX,
            old(self).counts.sensor_drops < u64::MAX,
            old(self).drops.since_warning < u64::MAX,
        ensures
            *final(self) == (SimulationLoop {
                counts: sampling::gps_counted(old(self).counts, outcome),
                drops: sampling::drops_after_gps(old(self).drops, outcome),
                ..*old(self)
            }),
    {
        self.drops.on_gps(&mut self.counts, outcome);
    }

    /// The tick's work is done, and took so long.
    pub fn end_tick(&mut self, latency_us: u64, now_us: u64) -> (r: TickEnd)
        requires
            old(self).total_ticks < u64::MAX,
            old(self).window.ticks < u64::MAX,
            old(self).window.total_latency_us + latency_us <= u64::MAX,
        ensures
            tick_ended(*old(self), *final(self), latency_us, now_us, r),
    {
        self.total_ticks = self.total_ticks + 1;
        let figures = self.window.tick(latency_us, now_us);
        let publish: bool = publish_due(self.last_publish_us, now_us);
        if publish {
            self.last_publish_us = now_us;
        }
        TickEnd { figures, publish }
    }
}

/// The equations of motion rest only while the vehicle stands on known ground
/// with no motor turning; a motor that turns, air under the vehicle, or ground
/// that is not known sets them going.
pub proof fn law_when_the_physics_is_integrated(
    before: SimulationLoop,
    after: SimulationLoop,
    ground: Option<Real64>,
    down: Real64,
    depleted: bool,
    now_ms: u64,
    r: StepPlan,
)
    requires
        step_planned(before, after, ground, down, depleted, now_ms, r),
    ensures
        actuators::motors_active(before.sim@.motor_commands) ==> r.integrate,
        ground is None ==> r.integrate,
        ground matches Some(g) ==> (down.lt(g) ==> r.integrate),
        ground matches Some(g) ==> (g.le(down) && !actuators::motors_active(
            before.sim@.motor_commands,
        ) ==> !r.integrate),
{
}

/// An empty battery stops the motors whatever they are commanded; otherwise they
/// turn as commanded and draw on the battery if any turns.
pub proof fn law_how_the_motors_are_powered(
    before: SimulationLoop,
    after: SimulationLoop,
    ground: Option<Real64>,
    down: Real64,
    depleted: bool,
    now_ms: u64,
    r: StepPlan,
)
    requires
        step_planned(before, after, ground, down, depleted, now_ms, r),
    ensures
        r.power is Cut <==> depleted,
        r.power is Drawing <==> !depleted && actuators::motors_active(before.sim@.motor_commands),
        r.power is Idle <==> !depleted && !actuators::motors_active(before.sim@.motor_commands),
        r.commands@ == before.sim@.motor_commands,
{
}

/// Missing terrain is warned of at most once in five seconds, and only while it
/// is missing; planning a step changes nothing else.
pub proof fn law_missing_terrain_is_warned_of_sparingly(
    before: SimulationLoop,
    after: SimulationLoop,
    ground: Option<Real64>,
    down: Real64,
    depleted: bool,
    now_ms: u64,
    r: StepPlan,
)
    requires
        step_planned(before, after, ground, down, depleted, now_ms, r),
    ensures
        r.warn <==> ground is None && now_ms >= before.last_terrain_warning_ms + 5000,
        r.warn ==> after.last_terrain_warning_ms == now_ms,
        !r.warn ==> after == before,
        after.sim == before.sim,
        after.contact == before.contact,
        after.counts == before.counts,
        after.total_ticks == before.total_ticks,
{
}

/// A motor never reaches more than its nominal speed nor less than none; in
/// between it goes by the voltage it is given, and without a nominal voltage it
/// does not sag.
pub proof fn law_how_motors_sag(nominal: Real64, quotient: Real64)
    ensures
        (Real64 { bits: 0 }).lt(nominal) && (Real64 { bits: 0 }).le(quotient) && quotient.le(
            Real64 { bits: 0x3ff0_0000_0000_0000 },
        ) ==> sag_ratio(nominal, quotient) == quotient,
        (Real64 { bits: 0 }).lt(nominal) && (Real64 { bits: 0x3ff0_0000_0000_0000 }).lt(quotient)
            ==> sag_ratio(nominal, quotient).bits == 0x3ff0_0000_0000_0000,
        (Real64 { bits: 0 }).lt(nominal) && quotient.lt(Real64 { bits: 0 }) ==> sag_ratio(
            nominal,
            quotient,
        ).bits == 0,
        !(Real64 { bits: 0 }).lt(nominal) ==> sag_ratio(nominal, quotient).bits
            == 0x3ff0_0000_0000_0000,
{
}

/// Magnetometer and barometer are read every eighth tick, and whenever there is
/// no reading to repeat; only a reading of an eighth tick is kept and announced
/// as new.
pub proof fn law_slow_sensors_are_read_every_eighth_tick(l: SimulationLoop)
    ensures
        ({
            let due = l.total_ticks % 8 == 0;
            let r = tick_samples(l);
            &&& r.keep_mag <==> due
            &&& r.keep_baro <==> due
            &&& r.sample_mag <==> due || !l.mag_cached
            &&& r.sample_baro <==> due || !l.baro_cached
            &&& due ==> r.fields_updated == 0x1fff
            &&& !due ==> r.fields_updated == 0x3f
            &&& after_samples(l).mag_cached <==> due || l.mag_cached
            &&& after_samples(l).baro_cached <==> due || l.baro_cached
            &&& after_samples(l) == (SimulationLoop {
                mag_cached: after_samples(l).mag_cached,
                baro_cached: after_samples(l).baro_cached,
                ..l
            })
        }),
{
}

/// Every tick is counted once. A window of five seconds gives its figures and
/// makes way for a new one; a snapshot is due every half second.
pub proof fn law_what_follows_a_tick(
    before: SimulationLoop,
    after: SimulationLoop,
    latency_us: u64,
    now_us: u64,
    r: TickEnd,
)
    requires
        before.total_ticks < u64::MAX,
        before.window.ticks < u64::MAX,
        before.window.total_latency_us + latency_us <= u64::MAX,
        tick_ended(before, after, latency_us, now_us, r),
    ensures
        after.total_ticks == before.total_ticks + 1,
        r.figures is Some <==> now_us >= before.window.start_us + 5_000_000,
        r.figures matches Some(f) ==> {
            &&& f.ticks == before.window.ticks + 1
            &&& f.total_latency_us == before.window.total_latency_us + latency_us
            &&& f.max_latency_us >= latency_us
            &&& f.max_latency_us >= before.window.max_latency_us
            &&& f.max_latency_us == latency_us || f.max_latency_us == before.window.max_latency_us
            &&& f.elapsed_us == now_us - before.window.start_us
            &&& after.window.start_us == now_us
            &&& after.window.ticks == 0
            &&& after.window.total_latency_us == 0
            &&& after.window.max_latency_us == 0
        },
        r.figures is None ==> after.window.start_us == before.window.start_us && after.window.ticks
            == before.window.ticks + 1 && after.window.total_latency_us
            == before.window.total_latency_us + latency_us && after.window.max_latency_us
            >= latency_us && after.window.max_latency_us >= before.window.max_latency_us,
        r.publish <==> now_us >= before.last_publish_us + 500_000,
        r.publish ==> after.last_publish_us == now_us,
        !r.publish ==> after.last_publish_us == before.last_publish_us,
        after.sim == before.sim,
        after.contact == before.contact,
        after.counts == before.counts,
{
}

/// The message of sensor readings at a simulated time.
pub open spec fn stamped_readings(
    sim_time_us: u64,
    readings: HilSensorData,
    fields_updated: u32,
) -> Outbound {
    Outbound::HilSensor {
        data: HilSensorData { time_usec: sim_time_us, ..readings },
        fields_updated,
    }
}

/// The message of a GPS fix at a simulated time.
pub open spec fn stamped_fix(sim_time_us: u64, fix: HilGpsData) -> Outbound {
    Outbound::HilGps(HilGpsData { time_usec: sim_time_us, ..fix })
}

/// Sensor readings go out as they were taken, under the simulated time, with
/// the flags of what is new.
pub proof fn law_readings_go_out_as_they_were_taken(
    sim_time_us: u64,
    readings: HilSensorData,
    fields_updated: u32,
)
    ensures
        stamped_readings(sim_time_us, readings, fields_updated) matches Outbound::HilSensor {
            data,
            fields_updated: flags,
        } && {
            &&& flags == fields_updated
            &&& data.time_usec == sim_time_us
            &&& data.xacc == readings.xacc
            &&& data.yacc == readings.yacc
            &&& data.zacc == readings.zacc
            &&& data.xgyro == readings.xgyro
            &&& data.ygyro == readings.ygyro
            &&& data.zgyro == readings.zgyro
            &&& data.xmag == readings.xmag
            &&& data.ymag == readings.ymag
            &&& data.zmag == readings.zmag
            &&& data.abs_pressure == readings.abs_pressure
            &&& data.diff_pressure == readings.diff_pressure
            &&& data.pressure_alt == readings.pressure_alt
            &&& data.temperature == readings.temperature
        },
{
}

/// A GPS fix goes out as it was taken, under the simulated time.
pub proof fn law_a_fix_goes_out_as_it_was_taken(sim_time_us: u64, fix: HilGpsData)
    ensures
        stamped_fix(sim_time_us, fix) matches Outbound::HilGps(d) && {
            &&& d.time_usec == sim_time_us
            &&& d.fix_type == fix.fix_type
            &&& d.lat == fix.lat
            &&& d.lon == fix.lon
            &&& d.alt == fix.alt
            &&& d.eph == fix.eph
            &&& d.epv == fix.epv
            &&& d.vel == fix.vel
            &&& d.vn == fix.vn
            &&& d.ve == fix.ve
            &&& d.vd == fix.vd
            &&& d.cog == fix.cog
            &&& d.satellites_visible == fix.satellites_visible
        },
{
}

} // verus!
