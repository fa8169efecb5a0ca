//! Heartbeats and connection state.
use vstd::prelude::*;

verus! {

/// Silence after which the connection counts as lost.
pub const HEARTBEAT_TIMEOUT_MS: u64 = 5000;

/// Base-mode bit: motors armed.
pub const MODE_FLAG_SAFETY_ARMED: u8 = 128;

/// Base-mode bit: hardware-in-the-loop simulation.
pub const MODE_FLAG_HIL_ENABLED: u8 = 32;

/// Vehicle type: quadrotor.
pub const VEHICLE_TYPE_QUADROTOR: u8 = 2;

/// Vehicle type: ground control station.
pub const VEHICLE_TYPE_GCS: u8 = 6;

/// Autopilot: none.
pub const AUTOPILOT_INVALID: u8 = 8;

/// System status: active.
pub const SYSTEM_STATUS_ACTIVE: u8 = 4;

/// A heartbeat, with MAVLink's own numbers.
#[derive(Clone, Copy, Debug, PartialEq, Eq, Structural)]
pub struct Heartbeat {
    /// Autopilot-specific mode.
    pub custom_mode: u32,
    /// Vehicle type.
    pub vehicle_type: u8,
    /// Autopilot.
    pub autopilot: u8,
    /// Base-mode flags.
    pub base_mode: u8,
    /// System status.
    pub system_status: u8,
    /// MAVLink version.
    pub mavlink_version: u8,
}

impl Heartbeat {
    /// Whether the motors are armed.
    pub open spec fn armed(self) -> bool {
        self.base_mode & MODE_FLAG_SAFETY_ARMED != 0
    }

    /// Whether simulation mode is on.
    pub open spec fn hil_enabled(self) -> bool {
        self.base_mode & MODE_FLAG_HIL_ENABLED != 0
    }
}

/// Connection to the flight controller.
#[derive(Clone, Copy, Debug, PartialEq, Eq, Structural)]
pub enum ConnectionState {
    /// No heartbeat.
    Disconnected,
    /// Heartbeats, not armed.
    Connected,
    /// Heartbeats, and armed.
    Armed,
}

/// The name of a connection state.
pub open spec fn connection_state_text(s: ConnectionState) -> Seq<char> {
    match s {
        ConnectionState::Disconnected => "Disconnected"@,
        ConnectionState::Connected => "Connected"@,
        ConnectionState::Armed => "Armed"@,
    }
}

impl ConnectionState {
    /// The name of this state.
    pub fn text(&self) -> (r: String)
        ensures
            r@ == connection_state_text(*self),
    {
        match *self {
            ConnectionState::Disconnected => "Disconnected".to_owned(),
            ConnectionState::Connected => "Connected".to_owned(),
            ConnectionState::Armed => "Armed".to_owned(),
        }
    }
}

/// Follows the heartbeats of the flight controller.
#[derive(Clone, Copy, Debug)]
pub struct HeartbeatManager {
    state: ConnectionState,
    last_heartbeat_ms: Option<u64>,
    remote: Option<(u8, u8)>,
    last_base_mode: Option<u8>,
}

/// What is known of the flight controller.
pub ghost struct LinkModel {
    pub state: ConnectionState,
    pub last_heartbeat_ms: Option<u64>,
    pub remote: Option<(u8, u8)>,
    pub last_base_mode: Option<u8>,
}

impl View for HeartbeatManager {
    type V = LinkModel;

    closed spec fn view(&self) -> LinkModel {
        LinkModel {
            state: self.state,
            last_heartbeat_ms: self.last_heartbeat_ms,
            remote: self.remote,
            last_base_mode: self.last_base_mode,
        }
    }
}

/// Whether the last heartbeat is too old.
pub open spec fn silent_too_long(m: LinkModel, now_ms: u64) -> bool {
    m.last_heartbeat_ms matches Some(t) && now_ms - t > HEARTBEAT_TIMEOUT_MS
}

/// What is known of the flight controller after a heartbeat.
pub open spec fn heard(
    system_id: u8,
    component_id: u8,
    heartbeat: Heartbeat,
    now_ms: u64,
) -> LinkModel {
    LinkModel {
        state: if heartbeat.armed() {
            ConnectionState::Armed
        } else {
            ConnectionState::Connected
        },
        last_heartbeat_ms: Some(now_ms),
        remote: Some((system_id, component_id)),
        last_base_mode: Some(heartbeat.base_mode),
    }
}

/// What is known of the flight controller once the time was looked at.
pub open spec fn timed_out(m: LinkModel, now_ms: u64) -> LinkModel {
    LinkModel {
        state: if silent_too_long(m, now_ms) {
            ConnectionState::Disconnected
        } else {
            m.state
        },
        ..m
    }
}

impl HeartbeatManager {
    /// Nothing heard yet.
    pub fn new() -> (r: HeartbeatManager)
        ensures
            r@ == (LinkModel {
                state: ConnectionState::Disconnected,
                last_heartbeat_ms: None,
                remote: None,
                last_base_mode: None,
            }),
    {
        HeartbeatManager {
            state: ConnectionState::Disconnected,
            last_heartbeat_ms: None,
            remote: None,
            last_base_mode: None,
        }
    }

    /// The connection state.
    pub fn state(&self) -> (r: ConnectionState)
        ensures
            r == self@.state,
    {
        self.state
    }

    /// The system of the flight controller, if known.
    pub fn remote_system_id(&self) -> (r: Option<u8>)
        ensures
            r == match self@.remote {
                Some(ids) => Some(ids.0),
                None => None,
            },
    {
        match self.remote {
            Some((system, _)) => Some(system),
            None => None,
        }
    }

    /// The component of the flight controller, if known.
    pub fn remote_component_id(&self) -> (r: Option<u8>)
        ensures
            r == match self@.remote {
                Some(ids) => Some(ids.1),
                None => None,
            },
    {
        match self.remote {
            Some((_, component)) => Some(component),
            None => None,
        }
    }

    /// Whether the flight controller is connected.
    pub fn is_connected(&self) -> (r: bool)
        ensures
            r == connected_in(self@.state),
    {
        match self.state {
            ConnectionState::Disconnected => false,
            _ => true,
        }
    }

    /// Whether the vehicle is armed.
    pub fn is_armed(&self) -> (r: bool)
        ensures
            r == armed_in(self@.state),
    {
        match self.state {
            ConnectionState::Armed => true,
            _ => false,
        }
    }

    /// A heartbeat arrived at `now_ms`.
    pub fn on_heartbeat_received(
        &mut self,
        system_id: u8,
        component_id: u8,
        heartbeat: &Heartbeat,
        now_ms: u64,
    )
        ensures
            final(self)@ == heard(system_id, component_id, *heartbeat, now_ms),
    {
        self.last_heartbeat_ms = Some(now_ms);
        self.remote = Some((system_id, component_id));
        self.last_base_mode = Some(heartbeat.base_mode);
        self.state = if heartbeat.base_mode & MODE_FLAG_SAFETY_ARMED != 0 {
            ConnectionState::Armed
        } else {
            ConnectionState::Connected
        };
    }

    /// Look for a timeout at `now_ms`. True when the connection was lost just
    /// now.
    pub fn check_timeout(&mut self, now_ms: u64) -> (r: bool)
        ensures
            r == (silent_too_long(old(self)@, now_ms) && !(old(self)@.state is Disconnected)),
            final(self)@ == timed_out(old(self)@, now_ms),
    {
        if let Some(last) = self.last_heartbeat_ms {
            if now_ms > last && now_ms - last > HEARTBEAT_TIMEOUT_MS {
                if self.state != ConnectionState::Disconnected {
                    self.state = ConnectionState::Disconnected;
                    return true;
                }
            }
        }
        false
    }

    /// The heartbeat the daemon itself sends: a ground station without an
    /// autopilot.
    pub fn make_heartbeat() -> (r: Heartbeat)
        ensures
            r == daemon_heartbeat(),
    {
        Heartbeat {
            custom_mode: 0,
            vehicle_type: VEHICLE_TYPE_GCS,
            autopilot: AUTOPILOT_INVALID,
            base_mode: 0,
            system_status: SYSTEM_STATUS_ACTIVE,
            mavlink_version: 3,
        }
    }
}

/// The heartbeat the daemon itself sends.
pub open spec fn daemon_heartbeat() -> Heartbeat {
    Heartbeat {
        custom_mode: 0,
        vehicle_type: VEHICLE_TYPE_GCS,
        autopilot: AUTOPILOT_INVALID,
        base_mode: 0,
        system_status: SYSTEM_STATUS_ACTIVE,
        mavlink_version: 3,
    }
}

impl Default for HeartbeatManager {
    fn default() -> (r: HeartbeatManager)
        ensures
            r@ == (LinkModel {
                state: ConnectionState::Disconnected,
                last_heartbeat_ms: None,
                remote: None,
                last_base_mode: None,
            }),
    {
        HeartbeatManager::new()
    }
}

/// A heartbeat connects, and arms exactly when its highest flag is set; it
/// carries who sent it, and when.
pub proof fn law_what_a_heartbeat_says(
    system_id: u8,
    component_id: u8,
    heartbeat: Heartbeat,
    now_ms: u64,
)
    ensures
        ({
            let m = heard(system_id, component_id, heartbeat, now_ms);
            &&& m.state is Armed <==> heartbeat.base_mode >= 128
            &&& m.state is Connected <==> heartbeat.base_mode < 128
            &&& m.remote == Some((system_id, component_id))
            &&& m.last_heartbeat_ms == Some(now_ms)
            &&& m.last_base_mode == Some(heartbeat.base_mode)
            &&& heartbeat.armed() <==> heartbeat.base_mode >= 128
            &&& heartbeat.hil_enabled() <==> (heartbeat.base_mode / 32) % 2 == 1
        }),
{
    let b = heartbeat.base_mode;
    assert(b & 128 == 0 <==> b < 128) by (bit_vector);
    assert(b & 32 == 0 <==> (b / 32) % 2 == 0) by (bit_vector);
}

/// A connection is lost once there was no heartbeat for more than five seconds,
/// and not before; one that was never heard of cannot be lost. What was last
/// heard stays known.
pub proof fn law_five_seconds_of_silence_lose_the_connection(m: LinkModel, now_ms: u64)
    ensures
        m.last_heartbeat_ms matches Some(t) ==> (now_ms > t + 5000 ==> timed_out(m, now_ms).state
            is Disconnected),
        m.last_heartbeat_ms matches Some(t) ==> (now_ms <= t + 5000 ==> timed_out(m, now_ms) == m),
        m.last_heartbeat_ms is None ==> timed_out(m, now_ms) == m,
        timed_out(m, now_ms).last_heartbeat_ms == m.last_heartbeat_ms,
        timed_out(m, now_ms).remote == m.remote,
        timed_out(m, now_ms).last_base_mode == m.last_base_mode,
        silent_too_long(m, now_ms) <==> (m.last_heartbeat_ms matches Some(t) && now_ms > t + 5000),
{
}

/// The daemon presents itself as a ground station that is active, without an
/// autopilot, disarmed.
pub proof fn law_how_the_daemon_presents_itself()
    ensures
        daemon_heartbeat().vehicle_type == 6,
        daemon_heartbeat().autopilot == 8,
        daemon_heartbeat().system_status == 4,
        daemon_heartbeat().base_mode == 0,
        daemon_heartbeat().custom_mode == 0,
        daemon_heartbeat().mavlink_version == 3,
{
}

/// Whether there is a connection in a state.
pub open spec fn connected_in(state: ConnectionState) -> bool {
    !(state is Disconnected)
}

/// Whether the vehicle is armed in a state.
pub open spec fn armed_in(state: ConnectionState) -> bool {
    state is Armed
}

/// A heartbeat connects, and arms if it says so; more than five seconds without
/// one disconnect.
pub proof fn law_when_there_is_a_connection(
    system_id: u8,
    component_id: u8,
    heartbeat: Heartbeat,
    heard_ms: u64,
    now_ms: u64,
)
    ensures
        ({
            let m = heard(system_id, component_id, heartbeat, heard_ms);
            let later = timed_out(m, now_ms);
            &&& connected_in(m.state)
            &&& armed_in(m.state) <==> heartbeat.base_mode >= 128
            &&& connected_in(later.state) <==> now_ms <= heard_ms + 5000
            &&& now_ms > heard_ms + 5000 ==> !armed_in(later.state)
        }),
{
    law_what_a_heartbeat_says(system_id, component_id, heartbeat, heard_ms);
}

/// The names of the connection states.
pub proof fn law_each_connection_state_has_its_name(s: ConnectionState)
    ensures
        s is Disconnected ==> connection_state_text(s) == "Disconnected"@,
        s is Connected ==> connection_state_text(s) == "Connected"@,
        s is Armed ==> connection_state_text(s) == "Armed"@,
{
}

} // verus!
