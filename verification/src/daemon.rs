//! The daemon's own state, for status displays.
use crate::ieee::Real32;
use vstd::prelude::*;

verus! {

/// What the daemon is doing.
#[derive(Clone, Copy, Debug, PartialEq, Eq, Structural)]
pub enum DaemonState {
    /// Starting up.
    Starting,
    /// Waiting for a flight controller.
    WaitingForFc,
    /// Connected to one.
    Connected,
    /// Streaming sensors to it.
    Streaming,
    /// The flight controller is gone.
    FcLost,
    /// Trying to get it back.
    Reconnecting,
    /// Shutting down.
    ShuttingDown,
}

impl Default for DaemonState {
    fn default() -> (r: DaemonState)
        ensures
            r == DaemonState::Starting,
    {
        DaemonState::Starting
    }
}

/// The name of a state.
pub open spec fn state_text(s: DaemonState) -> Seq<char> {
    match s {
        DaemonState::Starting => "Starting"@,
        DaemonState::WaitingForFc => "Waiting for FC"@,
        DaemonState::Connected => "Connected"@,
        DaemonState::Streaming => "Streaming"@,
        DaemonState::FcLost => "FC Lost"@,
        DaemonState::Reconnecting => "Reconnecting"@,
        DaemonState::ShuttingDown => "Shutting Down"@,
    }
}

impl DaemonState {
    /// The name of this state.
    pub fn text(&self) -> (r: String)
        ensures
            r@ == state_text(*self),
    {
        match *self {
            DaemonState::Starting => "Starting".to_owned(),
            DaemonState::WaitingForFc => "Waiting for FC".to_owned(),
            DaemonState::Connected => "Connected".to_owned(),
            DaemonState::Streaming => "Streaming".to_owned(),
            DaemonState::FcLost => "FC Lost".to_owned(),
            DaemonState::Reconnecting => "Reconnecting".to_owned(),
            DaemonState::ShuttingDown => "Shutting Down".to_owned(),
        }
    }
}

/// The daemon's status.
#[derive(Clone, Debug)]
pub struct DaemonStatus {
    /// What the daemon is doing.
    pub state: DaemonState,
    /// Model of the flight controller.
    pub fc_model: Option<String>,
    /// Port it is connected to.
    pub serial_port: Option<String>,
    /// Messages received per second.
    pub packets_per_sec: u16,
    /// Connected browsers.
    pub connected_clients: u8,
    /// Time since start.
    pub uptime_secs: u64,
}

impl Default for DaemonStatus {
    fn default() -> (r: DaemonStatus)
        ensures
            r.state == DaemonState::Starting,
            r.fc_model is None,
            r.serial_port is None,
            r.packets_per_sec == 0,
            r.connected_clients == 0,
            r.uptime_secs == 0,
    {
        DaemonStatus {
            state: DaemonState::Starting,
            fc_model: None,
            serial_port: None,
            packets_per_sec: 0,
            connected_clients: 0,
            uptime_secs: 0,
        }
    }
}

/// Figures of the simulation loop. Counts are since the last configuration.
#[derive(Clone, Copy, Debug, PartialEq, Eq, Structural)]
pub struct LoopCounts {
    /// Average latency of a tick over the last window.
    pub avg_latency_us: u32,
    /// Largest latency of a tick over the last window.
    pub max_latency_us: u32,
    /// Ticks per second over the last window.
    pub tick_rate_hz: Real32,
    /// Sensor messages sent.
    pub hil_sensor_count: u64,
    /// GPS messages sent.
    pub hil_gps_count: u64,
    /// Actuator messages received.
    pub actuator_count: u64,
    /// Messages dropped because the queue was full.
    pub sensor_drops: u64,
}

impl Default for LoopCounts {
    fn default() -> (r: LoopCounts)
        ensures
            r == no_counts(),
    {
        LoopCounts {
            avg_latency_us: 0,
            max_latency_us: 0,
            tick_rate_hz: Real32::from_bits(0),
            hil_sensor_count: 0,
            hil_gps_count: 0,
            actuator_count: 0,
            sensor_drops: 0,
        }
    }
}

/// Figures before anything happened.
pub open spec fn no_counts() -> LoopCounts {
    LoopCounts {
        avg_latency_us: 0,
        max_latency_us: 0,
        tick_rate_hz: Real32 { bits: 0 },
        hil_sensor_count: 0,
        hil_gps_count: 0,
        actuator_count: 0,
        sensor_drops: 0,
    }
}

/// The names of the states.
pub proof fn law_each_state_has_its_own_name(s: DaemonState)
    ensures
        s is Starting ==> state_text(s) == "Starting"@,
        s is WaitingForFc ==> state_text(s) == "Waiting for FC"@,
        s is Connected ==> state_text(s) == "Connected"@,
        s is Streaming ==> state_text(s) == "Streaming"@,
        s is FcLost ==> state_text(s) == "FC Lost"@,
        s is Reconnecting ==> state_text(s) == "Reconnecting"@,
        s is ShuttingDown ==> state_text(s) == "Shutting Down"@,
{
}

/// Before anything happened nothing has been counted.
pub proof fn law_nothing_is_counted_at_first()
    ensures
        no_counts().avg_latency_us == 0,
        no_counts().max_latency_us == 0,
        no_counts().tick_rate_hz.bits == 0,
        no_counts().hil_sensor_count == 0,
        no_counts().hil_gps_count == 0,
        no_counts().actuator_count == 0,
        no_counts().sensor_drops == 0,
{
}

} // verus!
