//! What the simulation shares with the rest of the daemon.
use crate::ieee::{Real32, Real64};
use vstd::prelude::*;

verus! {

/// Latitude of the default reference, 40.015, as a bit pattern.
pub const DEFAULT_REFERENCE_LAT: u64 = 0x4044_01eb_851e_b852;

/// Longitude of the default reference, -105.2705, as a bit pattern.
pub const DEFAULT_REFERENCE_LON: u64 = 0xc05a_514f_df3b_645a;

/// Altitude of the default reference, 1655 m, as a bit pattern.
pub const DEFAULT_REFERENCE_ALT: u64 = 0x4099_dc00_0000_0000;

/// Ticks per second.
pub const DEFAULT_TICK_RATE_HZ: u32 = 400;

/// GPS updates per second.
pub const DEFAULT_GPS_RATE_HZ: u32 = 10;

/// Where and how fast the simulation runs.
#[derive(Clone, Copy, Debug, PartialEq, Eq, Structural)]
pub struct SimulationConfig {
    /// Reference latitude.
    pub reference_lat: Real64,
    /// Reference longitude.
    pub reference_lon: Real64,
    /// Reference altitude above sea level.
    pub reference_alt: Real64,
    /// Ticks per second.
    pub tick_rate_hz: u32,
    /// GPS updates per second.
    pub gps_rate_hz: u32,
}

impl Default for SimulationConfig {
    fn default() -> (r: SimulationConfig)
        ensures
            r == default_simulation(),
    {
        SimulationConfig {
            reference_lat: Real64::from_bits(DEFAULT_REFERENCE_LAT),
            reference_lon: Real64::from_bits(DEFAULT_REFERENCE_LON),
            reference_alt: Real64::from_bits(DEFAULT_REFERENCE_ALT),
            tick_rate_hz: DEFAULT_TICK_RATE_HZ,
            gps_rate_hz: DEFAULT_GPS_RATE_HZ,
        }
    }
}

/// The shared state.
#[derive(Clone, Copy, Debug)]
pub struct SimulationState {
    sim_time_us: u64,
    motor_commands: [Real32; 4],
    running: bool,
    armed: bool,
    flight_mode: u8,
    landed_state: u8,
    heartbeat_count: u64,
    hitl_enabled: bool,
    is_quadrotor: bool,
}

/// The shared state.
pub ghost struct SimModel {
    /// Simulated time.
    pub sim_time_us: u64,
    /// Motor commands, 0 to 1.
    pub motor_commands: Seq<Real32>,
    /// Whether the loop keeps running.
    pub running: bool,
    /// Whether the flight controller is armed.
    pub armed: bool,
    /// The flight controller's mode.
    pub flight_mode: u8,
    /// The flight controller's own verdict on being landed. The simulation
    /// never infers it.
    pub landed_state: u8,
    /// Heartbeats received. Nothing ever resets this, so a board once heard of
    /// stays heard of, even in the middle of a reboot.
    pub heartbeat_count: u64,
    /// Whether the last heartbeat reported simulation mode.
    pub hitl_enabled: bool,
    /// Whether the last heartbeat reported a quadrotor.
    pub is_quadrotor: bool,
}

impl View for SimulationState {
    type V = SimModel;

    closed spec fn view(&self) -> SimModel {
        SimModel {
            sim_time_us: self.sim_time_us,
            motor_commands: self.motor_commands@,
            running: self.running,
            armed: self.armed,
            flight_mode: self.flight_mode,
            landed_state: self.landed_state,
            heartbeat_count: self.heartbeat_count,
            hitl_enabled: self.hitl_enabled,
            is_quadrotor: self.is_quadrotor,
        }
    }
}

/// Motors off.
pub open spec fn idle_motors() -> Seq<Real32> {
    Seq::new(4, |i: int| Real32 { bits: 0 })
}

/// The state before anything happened.
pub open spec fn sim_begun() -> SimModel {
    SimModel {
        sim_time_us: 0,
        motor_commands: idle_motors(),
        running: true,
        armed: false,
        flight_mode: 0,
        landed_state: 0,
        heartbeat_count: 0,
        hitl_enabled: false,
        is_quadrotor: false,
    }
}

/// The state after a reset: a new flight, with the same board.
pub open spec fn sim_reset(m: SimModel) -> SimModel {
    SimModel {
        sim_time_us: 0,
        motor_commands: idle_motors(),
        armed: false,
        flight_mode: 0,
        landed_state: 0,
        ..m
    }
}

/// The state after a heartbeat.
pub open spec fn sim_heartbeat(m: SimModel, hitl_enabled: bool, is_quadrotor: bool) -> SimModel {
    SimModel {
        heartbeat_count: if m.heartbeat_count < u64::MAX {
            (m.heartbeat_count + 1) as u64
        } else {
            m.heartbeat_count
        },
        hitl_enabled,
        is_quadrotor,
        ..m
    }
}

/// Motors off.
pub fn motors_off() -> (r: [Real32; 4])
    ensures
        r@ == idle_motors(),
{
    let zero: Real32 = Real32::from_bits(0);
    let r: [Real32; 4] = [zero, zero, zero, zero];
    assert(r@ =~= idle_motors());
    r
}

impl SimulationState {
    /// At rest on the ground.
    pub fn new() -> (r: SimulationState)
        ensures
            r@ == sim_begun(),
    {
        SimulationState {
            sim_time_us: 0,
            motor_commands: motors_off(),
            running: true,
            armed: false,
            flight_mode: 0,
            landed_state: 0,
            heartbeat_count: 0,
            hitl_enabled: false,
            is_quadrotor: false,
        }
    }

    /// Set the motor commands.
    pub fn set_motor_commands(&mut self, motors: [Real32; 4])
        ensures
            final(self)@ == (SimModel { motor_commands: motors@, ..old(self)@ }),
    {
        self.motor_commands = motors;
    }

    /// The motor commands.
    pub fn motor_commands(&self) -> (r: [Real32; 4])
        ensures
            r@ == self@.motor_commands,
    {
        self.motor_commands
    }

    /// Set whether the flight controller is armed.
    pub fn set_armed(&mut self, armed: bool)
        ensures
            final(self)@ == (SimModel { armed, ..old(self)@ }),
    {
        self.armed = armed;
    }

    /// Set the flight controller's mode.
    pub fn set_flight_mode(&mut self, mode: u8)
        ensures
            final(self)@ == (SimModel { flight_mode: mode, ..old(self)@ }),
    {
        self.flight_mode = mode;
    }

    /// Whether the flight controller is armed.
    pub fn is_armed(&self) -> (r: bool)
        ensures
            r == self@.armed,
    {
        self.armed
    }

    /// The flight controller's mode.
    pub fn flight_mode(&self) -> (r: u8)
        ensures
            r == self@.flight_mode,
    {
        self.flight_mode
    }

    /// Set the flight controller's verdict on being landed.
    pub fn set_landed_state(&mut self, landed_state: u8)
        ensures
            final(self)@ == (SimModel { landed_state, ..old(self)@ }),
    {
        self.landed_state = landed_state;
    }

    /// The flight controller's verdict on being landed.
    pub fn landed_state(&self) -> (r: u8)
        ensures
            r == self@.landed_state,
    {
        self.landed_state
    }

    /// A heartbeat arrived.
    pub fn set_heartbeat_status(&mut self, hitl_enabled: bool, is_quadrotor: bool)
        ensures
            final(self)@ == sim_heartbeat(old(self)@, hitl_enabled, is_quadrotor),
    {
        self.heartbeat_count = self.heartbeat_count.saturating_add(1);
        self.hitl_enabled = hitl_enabled;
        self.is_quadrotor = is_quadrotor;
    }

    /// Heartbeats received, and what the last one reported.
    pub fn heartbeat_status(&self) -> (r: (u64, bool, bool))
        ensures
            r == (self@.heartbeat_count, self@.hitl_enabled, self@.is_quadrotor),
    {
        (self.heartbeat_count, self.hitl_enabled, self.is_quadrotor)
    }

    /// Simulated time.
    pub fn sim_time_us(&self) -> (r: u64)
        ensures
            r == self@.sim_time_us,
    {
        self.sim_time_us
    }

    /// Let simulated time pass.
    pub fn advance_time(&mut self, step_us: u64)
        requires
            old(self)@.sim_time_us + step_us <= u64::MAX,
        ensures
            final(self)@ == time_passed(old(self)@, step_us),
    {
        self.sim_time_us = self.sim_time_us + step_us;
    }

    /// Whether the loop keeps running.
    pub fn is_running(&self) -> (r: bool)
        ensures
            r == self@.running,
    {
        self.running
    }

    /// Stop the loop.
    pub fn stop(&mut self)
        ensures
            final(self)@ == (SimModel { running: false, ..old(self)@ }),
    {
        self.running = false;
    }

    /// Start a new flight. The board did not change, so what its heartbeats
    /// said stays.
    pub fn reset(&mut self)
        ensures
            final(self)@ == sim_reset(old(self)@),
    {
        self.sim_time_us = 0;
        self.motor_commands = motors_off();
        self.armed = false;
        self.flight_mode = 0;
        self.landed_state = 0;
    }
}

/// A board once heard of stays heard of: heartbeats only ever add up, and a
/// reset leaves them and what they reported alone.
pub proof fn law_heartbeats_are_never_forgotten(m: SimModel, hitl_enabled: bool, is_quadrotor: bool)
    ensures
        sim_heartbeat(m, hitl_enabled, is_quadrotor).heartbeat_count >= m.heartbeat_count,
        sim_heartbeat(m, hitl_enabled, is_quadrotor).heartbeat_count > 0,
        sim_reset(m).heartbeat_count == m.heartbeat_count,
        sim_reset(m).hitl_enabled == m.hitl_enabled,
        sim_reset(m).is_quadrotor == m.is_quadrotor,
{
}

/// A flight begins at time zero with its motors off, disarmed, and running; a
/// reset begins a new one, and leaves alone whether the loop runs.
pub proof fn law_how_a_flight_begins(m: SimModel, i: int)
    requires
        0 <= i < 4,
    ensures
        sim_begun().sim_time_us == 0,
        sim_begun().motor_commands.len() == 4,
        sim_begun().motor_commands[i].bits == 0,
        sim_begun().running,
        !sim_begun().armed,
        sim_begun().heartbeat_count == 0,
        sim_begun().flight_mode == 0,
        sim_begun().landed_state == 0,
        !sim_begun().hitl_enabled,
        !sim_begun().is_quadrotor,
        sim_reset(m).sim_time_us == 0,
        sim_reset(m).motor_commands.len() == 4,
        sim_reset(m).motor_commands[i].bits == 0,
        !sim_reset(m).armed,
        sim_reset(m).flight_mode == 0,
        sim_reset(m).landed_state == 0,
        sim_reset(m).running == m.running,
{
}

/// A heartbeat counts, and what it reports replaces what the last one did; the
/// flight goes on as it was.
pub proof fn law_a_heartbeat_reports_the_board(m: SimModel, hitl_enabled: bool, is_quadrotor: bool)
    ensures
        ({
            let after = sim_heartbeat(m, hitl_enabled, is_quadrotor);
            &&& m.heartbeat_count < u64::MAX ==> after.heartbeat_count == m.heartbeat_count + 1
            &&& after.hitl_enabled == hitl_enabled
            &&& after.is_quadrotor == is_quadrotor
            &&& after.sim_time_us == m.sim_time_us
            &&& after.motor_commands == m.motor_commands
            &&& after.running == m.running
            &&& after.armed == m.armed
            &&& after.flight_mode == m.flight_mode
            &&& after.landed_state == m.landed_state
        }),
{
}

/// The state once some simulated time has passed.
pub open spec fn time_passed(s: SimModel, step_us: u64) -> SimModel {
    SimModel { sim_time_us: (s.sim_time_us + step_us) as u64, ..s }
}

/// The configuration of a simulation that nothing else is said of.
pub open spec fn default_simulation() -> SimulationConfig {
    SimulationConfig {
        reference_lat: Real64 { bits: DEFAULT_REFERENCE_LAT },
        reference_lon: Real64 { bits: DEFAULT_REFERENCE_LON },
        reference_alt: Real64 { bits: DEFAULT_REFERENCE_ALT },
        tick_rate_hz: DEFAULT_TICK_RATE_HZ,
        gps_rate_hz: DEFAULT_GPS_RATE_HZ,
    }
}

/// Time passes by as much as it is let, and nothing else changes with it.
pub proof fn law_time_passes_alone(s: SimModel, a: u64, b: u64)
    requires
        s.sim_time_us + a + b <= u64::MAX,
    ensures
        time_passed(s, a).sim_time_us == s.sim_time_us + a,
        time_passed(time_passed(s, a), b) == time_passed(s, (a + b) as u64),
        time_passed(s, a).motor_commands == s.motor_commands,
        time_passed(s, a).armed == s.armed,
        time_passed(s, a).running == s.running,
        time_passed(s, a).flight_mode == s.flight_mode,
        time_passed(s, a).landed_state == s.landed_state,
        time_passed(s, a).heartbeat_count == s.heartbeat_count,
{
}

/// Where a simulation starts unless it is told otherwise, and how fast it runs.
pub proof fn law_where_a_simulation_starts()
    ensures
        default_simulation().reference_lat.bits == 0x4044_01eb_851e_b852,
        default_simulation().reference_lon.bits == 0xc05a_514f_df3b_645a,
        default_simulation().reference_alt.bits == 0x4099_dc00_0000_0000,
        default_simulation().tick_rate_hz == 400,
        default_simulation().gps_rate_hz == 10,
{
}

} // verus!
