//! Actuator commands from the flight controller.
use crate::ieee::Real32;
use crate::mavlink_io::heartbeat::{MODE_FLAG_HIL_ENABLED, MODE_FLAG_SAFETY_ARMED};
use vstd::prelude::*;

verus! {

/// Bit pattern of 1.0: full throttle.
pub const FULL_THROTTLE: u32 = 0x3f80_0000;

/// Actuator channels of a message.
pub const CHANNEL_COUNT: usize = 16;

/// Motors of the vehicle.
pub const MOTOR_COUNT: usize = 4;

/// The channel that drives a motor. The simulation numbers its motors as the
/// autopilot does, so each motor has the channel of its own number: front
/// right, back left, front left, back right.
pub open spec fn motor_channel(motor: int) -> int {
    motor
}

/// What the mode flags of an actuator message say.
#[derive(Clone, Copy, Debug, PartialEq, Eq, Structural)]
pub enum FlightMode {
    /// Motors disarmed.
    Disarmed,
    /// Armed, not in simulation mode.
    Armed,
    /// Armed, in simulation mode.
    HilArmed,
}

impl Default for FlightMode {
    fn default() -> (r: FlightMode)
        ensures
            r == FlightMode::Disarmed,
    {
        FlightMode::Disarmed
    }
}

/// The mode that mode flags stand for. Simulation mode without arming is
/// disarmed.
pub open spec fn mode_of(flags: u8) -> FlightMode {
    if flags & MODE_FLAG_SAFETY_ARMED == 0 {
        FlightMode::Disarmed
    } else if flags & MODE_FLAG_HIL_ENABLED == 0 {
        FlightMode::Armed
    } else {
        FlightMode::HilArmed
    }
}

/// An actuator message as it comes off the wire.
#[derive(Clone, Copy, Debug)]
pub struct HilActuatorControls {
    /// Time since boot.
    pub time_usec: u64,
    /// Control outputs.
    pub controls: [Real32; 16],
    /// Mode flags.
    pub mode: u8,
    /// Further flags.
    pub flags: u64,
}

/// A message from the autopilot, as far as actuators are concerned.
#[derive(Clone, Copy, Debug)]
pub enum AutopilotMessage {
    /// Actuator controls.
    ActuatorControls(HilActuatorControls),
    /// Any other message.
    Other,
}

/// Why a message yields no actuator outputs.
#[derive(Clone, Copy, Debug, PartialEq, Eq, Structural)]
pub enum ProtocolError {
    /// It is not an actuator message.
    InvalidMessageType,
    /// An actuator value is out of range.
    InvalidActuatorValue { index: usize, value: Real32 },
}

/// The text of an error; `value` renders the offending number.
pub open spec fn error_text(e: ProtocolError, value: Seq<char>) -> Seq<char> {
    match e {
        ProtocolError::InvalidMessageType =>
            "Invalid message type, expected HIL_ACTUATOR_CONTROLS"@,
        ProtocolError::InvalidActuatorValue { index, .. } => "Invalid actuator value: "@ + value
            + " at index "@ + crate::text::decimal(index as nat),
    }
}

impl ProtocolError {
    /// The text of this error; `value` renders the offending number.
    pub fn text(&self, value: &str) -> (r: String)
        ensures
            r@ == error_text(*self, value@),
    {
        match self {
            ProtocolError::InvalidMessageType => {
                "Invalid message type, expected HIL_ACTUATOR_CONTROLS".to_owned()
            },
            ProtocolError::InvalidActuatorValue { index, .. } => {
                let mut out: String = "Invalid actuator value: ".to_owned();
                out.append(value);
                out.append(" at index ");
                crate::text::push_decimal(&mut out, *index as u64);
                out
            },
        }
    }
}

/// A throttle brought into 0 to 1.
pub open spec fn throttle(x: Real32) -> Real32 {
    if x.lt(Real32 { bits: 0 }) {
        Real32 { bits: 0 }
    } else if (Real32 { bits: FULL_THROTTLE }).lt(x) {
        Real32 { bits: FULL_THROTTLE }
    } else {
        x
    }
}

fn limit_throttle(x: Real32) -> (r: Real32)
    ensures
        r == throttle(x),
{
    if x.less_than(Real32::from_bits(0)) {
        Real32::from_bits(0)
    } else if Real32::from_bits(FULL_THROTTLE).less_than(x) {
        Real32::from_bits(FULL_THROTTLE)
    } else {
        x
    }
}

/// Actuator outputs.
#[derive(Clone, Copy, Debug)]
pub struct ActuatorOutputs {
    /// Time since boot.
    pub timestamp_us: u64,
    /// Motor outputs, 0 to 1.
    pub motors: [Real32; 4],
    /// Mode.
    pub mode: FlightMode,
    /// Every channel as it was received.
    pub controls: [Real32; 16],
}

impl Default for ActuatorOutputs {
    fn default() -> (r: ActuatorOutputs)
        ensures
            r.timestamp_us == 0,
            r.mode == FlightMode::Disarmed,
            forall|i: int| 0 <= i < MOTOR_COUNT ==> (#[trigger] r.motors@[i]).bits == 0,
            forall|i: int| 0 <= i < CHANNEL_COUNT ==> (#[trigger] r.controls@[i]).bits == 0,
    {
        let zero: Real32 = Real32::from_bits(0);
        ActuatorOutputs {
            timestamp_us: 0,
            motors: [zero, zero, zero, zero],
            mode: FlightMode::Disarmed,
            controls: [
                zero,
                zero,
                zero,
                zero,
                zero,
                zero,
                zero,
                zero,
                zero,
                zero,
                zero,
                zero,
                zero,
                zero,
                zero,
                zero,
            ],
        }
    }
}

/// Whether outputs are those of a message.
pub open spec fn outputs_of(o: ActuatorOutputs, data: HilActuatorControls) -> bool {
    &&& o.timestamp_us == data.time_usec
    &&& o.mode == mode_of(data.mode)
    &&& o.controls@ == data.controls@
    &&& forall|i: int|
        0 <= i < MOTOR_COUNT ==> #[trigger] o.motors@[i] == throttle(
            data.controls@[motor_channel(i)],
        )
}

impl ActuatorOutputs {
    /// The outputs of a message, which must be an actuator message.
    pub fn from_mavlink(msg: &AutopilotMessage) -> (r: Result<ActuatorOutputs, ProtocolError>)
        ensures
            match *msg {
                AutopilotMessage::ActuatorControls(data) => r matches Ok(o) && outputs_of(o, data),
                AutopilotMessage::Other => r == Err::<ActuatorOutputs, ProtocolError>(
                    ProtocolError::InvalidMessageType,
                ),
            },
    {
        match msg {
            AutopilotMessage::ActuatorControls(data) => {
                ActuatorOutputs::from_hil_actuator_controls(data)
            },
            AutopilotMessage::Other => Err(ProtocolError::InvalidMessageType),
        }
    }

    /// The outputs of an actuator message.
    pub fn from_hil_actuator_controls(data: &HilActuatorControls) -> (r: Result<
        ActuatorOutputs,
        ProtocolError,
    >)
        ensures
            r matches Ok(o) && outputs_of(o, *data),
    {
        Ok(
            ActuatorOutputs {
                timestamp_us: data.time_usec,
                motors: [
                    limit_throttle(data.controls[0]),
                    limit_throttle(data.controls[1]),
                    limit_throttle(data.controls[2]),
                    limit_throttle(data.controls[3]),
                ],
                mode: ActuatorOutputs::decode_mode(data.mode),
                controls: data.controls,
            },
        )
    }

    /// The mode that mode flags stand for.
    pub fn decode_mode(mode: u8) -> (r: FlightMode)
        ensures
            r == mode_of(mode),
    {
        if mode & MODE_FLAG_SAFETY_ARMED == 0 {
            FlightMode::Disarmed
        } else if mode & MODE_FLAG_HIL_ENABLED == 0 {
            FlightMode::Armed
        } else {
            FlightMode::HilArmed
        }
    }

    /// Whether the motors are armed.
    pub fn is_armed(&self) -> (r: bool)
        ensures
            r == flies(self.mode),
    {
        match self.mode {
            FlightMode::Disarmed => false,
            _ => true,
        }
    }

    /// Whether the vehicle flies in simulation mode.
    pub fn is_hil_active(&self) -> (r: bool)
        ensures
            r == flies_in_simulation(self.mode),
    {
        match self.mode {
            FlightMode::HilArmed => true,
            _ => false,
        }
    }
}

/// Motor outputs never leave the range of 0 to 1, except where the channel
/// carries no number at all.
pub proof fn law_motor_outputs_stay_in_range(o: ActuatorOutputs, data: HilActuatorControls, i: int)
    requires
        outputs_of(o, data),
        0 <= i < MOTOR_COUNT,
        !data.controls@[motor_channel(i)].nan(),
    ensures
        (Real32 { bits: 0 }).le(o.motors@[i]),
        o.motors@[i].le(Real32 { bits: FULL_THROTTLE }),
{
    assert(o.motors@[i] == throttle(data.controls@[motor_channel(i)]));
}

/// Each motor has the throttle of the channel of its own number, the channel's
/// value itself where it lies between none and full.
pub proof fn law_each_motor_follows_its_own_channel(
    o: ActuatorOutputs,
    data: HilActuatorControls,
    i: int,
)
    requires
        outputs_of(o, data),
        0 <= i < 4,
    ensures
        (Real32 { bits: 0 }).le(data.controls@[i]) && data.controls@[i].le(
            Real32 { bits: 0x3f80_0000 },
        ) ==> o.motors@[i] == data.controls@[i],
        data.controls@[i].lt(Real32 { bits: 0 }) ==> o.motors@[i].bits == 0,
        (Real32 { bits: 0x3f80_0000 }).lt(data.controls@[i]) ==> o.motors@[i].bits == 0x3f80_0000,
        o.controls@ == data.controls@,
        o.timestamp_us == data.time_usec,
{
    assert(o.motors@[i] == throttle(data.controls@[motor_channel(i)]));
}

/// The vehicle is armed when the highest flag is set, and flies in simulation
/// mode when that of 32 is set with it; without the first it is disarmed.
pub proof fn law_what_the_mode_flags_say(flags: u8)
    ensures
        mode_of(flags) is Disarmed <==> flags < 128,
        mode_of(flags) is HilArmed <==> flags >= 128 && (flags / 32) % 2 == 1,
        mode_of(flags) is Armed <==> flags >= 128 && (flags / 32) % 2 == 0,
{
    assert(flags & 128 == 0 <==> flags < 128) by (bit_vector);
    assert(flags & 32 == 0 <==> (flags / 32) % 2 == 0) by (bit_vector);
}

/// Whether the motors are armed in a mode.
pub open spec fn flies(mode: FlightMode) -> bool {
    !(mode is Disarmed)
}

/// Whether the vehicle flies in simulation mode in a mode.
pub open spec fn flies_in_simulation(mode: FlightMode) -> bool {
    mode is HilArmed
}

/// The motors are armed exactly when the highest flag is set, and in simulation
/// mode exactly when that of 32 is set with it.
pub proof fn law_when_the_motors_are_armed(flags: u8)
    ensures
        flies(mode_of(flags)) <==> flags >= 128,
        flies_in_simulation(mode_of(flags)) <==> flags >= 128 && (flags / 32) % 2 == 1,
{
    law_what_the_mode_flags_say(flags);
}

/// A value out of range is reported with its place.
pub proof fn law_what_an_actuator_error_says(e: ProtocolError, value: Seq<char>)
    ensures
        e is InvalidMessageType ==> error_text(e, value)
            == "Invalid message type, expected HIL_ACTUATOR_CONTROLS"@,
        e matches ProtocolError::InvalidActuatorValue { index, .. } ==> error_text(e, value)
            == "Invalid actuator value: "@ + value + " at index "@ + crate::text::decimal(
            index as nat,
        ),
{
}

} // verus!
