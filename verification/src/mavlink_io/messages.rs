//! The messages the daemon sends to the flight controller, and their payloads.
//!
//! MAVLink orders the fields of a payload by size, largest first.
use crate::bytes;
use crate::bytes::{push_bytes, push_i16, push_i32, push_u16, push_u32, push_u64};
use crate::ieee::Real32;
use crate::mavlink_io::heartbeat::Heartbeat;
use crate::param_io::{CommandLong, ParamRequestRead, ParamSet};
use vstd::prelude::*;

verus! {

/// MAVLink system of the simulator.
pub const SYSTEM_ID: u8 = 1;

/// MAVLink component of the simulator.
pub const COMPONENT_ID: u8 = 1;

/// Number of a heartbeat message.
pub const ID_HEARTBEAT: u32 = 0;

/// Number of a parameter read message.
pub const ID_PARAM_REQUEST_READ: u32 = 20;

/// Number of a parameter write message.
pub const ID_PARAM_SET: u32 = 23;

/// Number of a command message.
pub const ID_COMMAND_LONG: u32 = 76;

/// Number of a simulated sensor message.
pub const ID_HIL_SENSOR: u32 = 107;

/// Number of a simulated GPS message.
pub const ID_HIL_GPS: u32 = 113;

/// Number of a shell message.
pub const ID_SERIAL_CONTROL: u32 = 126;

/// Bytes of shell data in one message.
pub const SHELL_CHUNK: usize = 70;

/// Serial device: the system shell.
pub const SHELL_DEVICE: u8 = 10;

/// Serial flags: a reply is wanted, and nobody else may use the device.
pub const SHELL_FLAGS: u8 = 6;

/// Sensor fields that are updated: all of them.
pub const ALL_SENSOR_FIELDS: u32 = 0x8000_1fff;

/// Sensor readings.
#[derive(Clone, Copy, Debug, PartialEq, Eq, Structural)]
pub struct HilSensorData {
    /// Microseconds since boot.
    pub time_usec: u64,
    /// X acceleration (m/s^2).
    pub xacc: Real32,
    /// Y acceleration (m/s^2).
    pub yacc: Real32,
    /// Z acceleration (m/s^2).
    pub zacc: Real32,
    /// X angular speed (rad/s).
    pub xgyro: Real32,
    /// Y angular speed (rad/s).
    pub ygyro: Real32,
    /// Z angular speed (rad/s).
    pub zgyro: Real32,
    /// X magnetic field (gauss).
    pub xmag: Real32,
    /// Y magnetic field (gauss).
    pub ymag: Real32,
    /// Z magnetic field (gauss).
    pub zmag: Real32,
    /// Absolute pressure (hPa).
    pub abs_pressure: Real32,
    /// Differential pressure (hPa).
    pub diff_pressure: Real32,
    /// Altitude from pressure (m).
    pub pressure_alt: Real32,
    /// Temperature (degrees C).
    pub temperature: Real32,
}

impl Default for HilSensorData {
    fn default() -> (r: HilSensorData)
        ensures
            r == (HilSensorData {
                time_usec: 0,
                xacc: Real32 { bits: 0 },
                yacc: Real32 { bits: 0 },
                zacc: Real32 { bits: 0 },
                xgyro: Real32 { bits: 0 },
                ygyro: Real32 { bits: 0 },
                zgyro: Real32 { bits: 0 },
                xmag: Real32 { bits: 0 },
                ymag: Real32 { bits: 0 },
                zmag: Real32 { bits: 0 },
                abs_pressure: Real32 { bits: 0 },
                diff_pressure: Real32 { bits: 0 },
                pressure_alt: Real32 { bits: 0 },
                temperature: Real32 { bits: 0 },
            }),
    {
        let zero: Real32 = Real32::from_bits(0);
        HilSensorData {
            time_usec: 0,
            xacc: zero,
            yacc: zero,
            zacc: zero,
            xgyro: zero,
            ygyro: zero,
            zgyro: zero,
            xmag: zero,
            ymag: zero,
            zmag: zero,
            abs_pressure: zero,
            diff_pressure: zero,
            pressure_alt: zero,
            temperature: zero,
        }
    }
}

/// GPS readings.
#[derive(Clone, Copy, Debug, PartialEq, Eq, Structural)]
pub struct HilGpsData {
    /// Microseconds since boot.
    pub time_usec: u64,
    /// Fix type (0-5).
    pub fix_type: u8,
    /// Latitude in degrees * 1e7.
    pub lat: i32,
    /// Longitude in degrees * 1e7.
    pub lon: i32,
    /// Altitude above sea level in millimetres.
    pub alt: i32,
    /// Horizontal dilution * 100.
    pub eph: u16,
    /// Vertical dilution * 100.
    pub epv: u16,
    /// Ground speed (cm/s).
    pub vel: u16,
    /// Velocity north (cm/s).
    pub vn: i16,
    /// Velocity east (cm/s).
    pub ve: i16,
    /// Velocity down (cm/s).
    pub vd: i16,
    /// Course over ground (degrees * 100).
    pub cog: u16,
    /// Satellites visible.
    pub satellites_visible: u8,
}

impl Default for HilGpsData {
    fn default() -> (r: HilGpsData)
        ensures
            r == (HilGpsData {
                time_usec: 0,
                fix_type: 0,
                lat: 0,
                lon: 0,
                alt: 0,
                eph: 0,
                epv: 0,
                vel: 0,
                vn: 0,
                ve: 0,
                vd: 0,
                cog: 0,
                satellites_visible: 0,
            }),
    {
        HilGpsData {
            time_usec: 0,
            fix_type: 0,
            lat: 0,
            lon: 0,
            alt: 0,
            eph: 0,
            epv: 0,
            vel: 0,
            vn: 0,
            ve: 0,
            vd: 0,
            cog: 0,
            satellites_visible: 0,
        }
    }
}

/// A piece of shell input.
#[derive(Clone, Copy, Debug)]
pub struct SerialControl {
    /// How long the board may take to reply, in milliseconds.
    pub timeout: u16,
    /// How many of the bytes count.
    pub count: u8,
    /// The bytes.
    pub data: [u8; 70],
}

/// A message to the flight controller.
#[derive(Clone, Copy, Debug)]
pub enum Outbound {
    /// The daemon's own heartbeat.
    Heartbeat(Heartbeat),
    /// A parameter read.
    ParamRequestRead(ParamRequestRead),
    /// A parameter write.
    ParamSet(ParamSet),
    /// A command.
    CommandLong(CommandLong),
    /// Shell input.
    SerialControl(SerialControl),
    /// Sensor readings, and a flag for each field that carries new data.
    HilSensor { data: HilSensorData, fields_updated: u32 },
    /// GPS readings.
    HilGps(HilGpsData),
}

/// The message of sensor readings that are all new.
pub fn make_hil_sensor(data: &HilSensorData) -> (r: Outbound)
    ensures
        r == (Outbound::HilSensor { data: *data, fields_updated: ALL_SENSOR_FIELDS }),
{
    Outbound::HilSensor { data: *data, fields_updated: ALL_SENSOR_FIELDS }
}

/// The message of sensor readings of which some are new.
pub fn build_hil_sensor(data: &HilSensorData, fields_updated: u32) -> (r: Outbound)
    ensures
        r == (Outbound::HilSensor { data: *data, fields_updated }),
{
    Outbound::HilSensor { data: *data, fields_updated }
}

/// The message of GPS readings.
pub fn make_hil_gps(data: &HilGpsData) -> (r: Outbound)
    ensures
        r == Outbound::HilGps(*data),
{
    Outbound::HilGps(*data)
}

/// The bytes of a number.
pub open spec fn number(x: Real32) -> Seq<u8> {
    bytes::u32_le(x.bits)
}

/// The number of a message.
pub open spec fn id_of(m: Outbound) -> u32 {
    match m {
        Outbound::Heartbeat(_) => ID_HEARTBEAT,
        Outbound::ParamRequestRead(_) => ID_PARAM_REQUEST_READ,
        Outbound::ParamSet(_) => ID_PARAM_SET,
        Outbound::CommandLong(_) => ID_COMMAND_LONG,
        Outbound::SerialControl(_) => ID_SERIAL_CONTROL,
        Outbound::HilSensor { .. } => ID_HIL_SENSOR,
        Outbound::HilGps(_) => ID_HIL_GPS,
    }
}

/// Whether the daemon sends messages of this number.
pub open spec fn is_sent(message_id: u32) -> bool {
    ||| message_id == ID_HEARTBEAT
    ||| message_id == ID_PARAM_REQUEST_READ
    ||| message_id == ID_PARAM_SET
    ||| message_id == ID_COMMAND_LONG
    ||| message_id == ID_SERIAL_CONTROL
    ||| message_id == ID_HIL_SENSOR
    ||| message_id == ID_HIL_GPS
}

/// The payload of a heartbeat.
pub open spec fn heartbeat_payload(h: Heartbeat) -> Seq<u8> {
    bytes::u32_le(h.custom_mode) + seq![
        h.vehicle_type,
        h.autopilot,
        h.base_mode,
        h.system_status,
        h.mavlink_version,
    ]
}

/// The payload of sensor readings.
pub open spec fn sensor_payload(d: HilSensorData, fields_updated: u32) -> Seq<u8> {
    bytes::u64_le(d.time_usec) + number(d.xacc) + number(d.yacc) + number(d.zacc) + number(d.xgyro)
        + number(d.ygyro) + number(d.zgyro) + number(d.xmag) + number(d.ymag) + number(d.zmag)
        + number(d.abs_pressure) + number(d.diff_pressure) + number(d.pressure_alt) + number(
        d.temperature,
    ) + bytes::u32_le(fields_updated)
}

/// The payload of GPS readings.
pub open spec fn gps_payload(d: HilGpsData) -> Seq<u8> {
    bytes::u64_le(d.time_usec) + bytes::u32_le(bytes::i32_word(d.lat)) + bytes::u32_le(
        bytes::i32_word(d.lon),
    ) + bytes::u32_le(bytes::i32_word(d.alt)) + bytes::u16_le(d.eph) + bytes::u16_le(d.epv)
        + bytes::u16_le(d.vel) + bytes::u16_le(bytes::i16_word(d.vn)) + bytes::u16_le(
        bytes::i16_word(d.ve),
    ) + bytes::u16_le(bytes::i16_word(d.vd)) + bytes::u16_le(d.cog) + seq![d.fix_type]
        + seq![d.satellites_visible]
}

/// The payload of a command.
pub open spec fn command_payload(c: CommandLong) -> Seq<u8> {
    number(c.params@[0]) + number(c.params@[1]) + number(c.params@[2]) + number(c.params@[3])
        + number(c.params@[4]) + number(c.params@[5]) + number(c.params@[6]) + bytes::u16_le(
        c.command,
    ) + seq![c.target_system, c.target_component, c.confirmation]
}

/// The payload of a message.
pub open spec fn payload_of(m: Outbound) -> Seq<u8> {
    match m {
        Outbound::Heartbeat(h) => heartbeat_payload(h),
        Outbound::ParamRequestRead(p) => bytes::u16_le(bytes::i16_word(p.param_index)) + seq![
            p.target_system,
            p.target_component,
        ] + p.param_id@,
        Outbound::ParamSet(p) => number(p.param_value) + seq![p.target_system, p.target_component]
            + p.param_id@ + seq![p.param_type.code()],
        Outbound::CommandLong(c) => command_payload(c),
        Outbound::SerialControl(s) => bytes::u32_le(0) + bytes::u16_le(s.timeout) + seq![
            SHELL_DEVICE,
            SHELL_FLAGS,
            s.count,
        ] + s.data@,
        Outbound::HilSensor { data, fields_updated } => sensor_payload(data, fields_updated),
        Outbound::HilGps(d) => gps_payload(d),
    }
}

fn heartbeat_bytes(h: &Heartbeat) -> (r: Vec<u8>)
    ensures
        r@ == heartbeat_payload(*h),
{
    let mut out: Vec<u8> = Vec::new();
    push_u32(&mut out, h.custom_mode);
    out.push(h.vehicle_type);
    out.push(h.autopilot);
    out.push(h.base_mode);
    out.push(h.system_status);
    out.push(h.mavlink_version);
    assert(out@ =~= heartbeat_payload(*h));
    out
}

fn sensor_bytes(d: &HilSensorData, fields_updated: u32) -> (r: Vec<u8>)
    ensures
        r@ == sensor_payload(*d, fields_updated),
{
    let mut out: Vec<u8> = Vec::new();
    push_u64(&mut out, d.time_usec);
    assert(out@ =~= bytes::u64_le(d.time_usec));
    push_u32(&mut out, d.xacc.bits);
    push_u32(&mut out, d.yacc.bits);
    push_u32(&mut out, d.zacc.bits);
    push_u32(&mut out, d.xgyro.bits);
    push_u32(&mut out, d.ygyro.bits);
    push_u32(&mut out, d.zgyro.bits);
    push_u32(&mut out, d.xmag.bits);
    push_u32(&mut out, d.ymag.bits);
    push_u32(&mut out, d.zmag.bits);
    push_u32(&mut out, d.abs_pressure.bits);
    push_u32(&mut out, d.diff_pressure.bits);
    push_u32(&mut out, d.pressure_alt.bits);
    push_u32(&mut out, d.temperature.bits);
    push_u32(&mut out, fields_updated);
    out
}

fn gps_bytes(d: &HilGpsData) -> (r: Vec<u8>)
    ensures
        r@ == gps_payload(*d),
{
    let mut out: Vec<u8> = Vec::new();
    push_u64(&mut out, d.time_usec);
    assert(out@ =~= bytes::u64_le(d.time_usec));
    push_i32(&mut out, d.lat);
    push_i32(&mut out, d.lon);
    push_i32(&mut out, d.alt);
    push_u16(&mut out, d.eph);
    push_u16(&mut out, d.epv);
    push_u16(&mut out, d.vel);
    push_i16(&mut out, d.vn);
    push_i16(&mut out, d.ve);
    push_i16(&mut out, d.vd);
    push_u16(&mut out, d.cog);
    let ghost words = out@;
    out.push(d.fix_type);
    out.push(d.satellites_visible);
    assert(out@ =~= words + seq![d.fix_type] + seq![d.satellites_visible]);
    out
}

fn command_bytes(c: &CommandLong) -> (r: Vec<u8>)
    ensures
        r@ == command_payload(*c),
{
    let mut out: Vec<u8> = Vec::new();
    push_u32(&mut out, c.params[0].bits);
    assert(out@ =~= number(c.params@[0]));
    push_u32(&mut out, c.params[1].bits);
    push_u32(&mut out, c.params[2].bits);
    push_u32(&mut out, c.params[3].bits);
    push_u32(&mut out, c.params[4].bits);
    push_u32(&mut out, c.params[5].bits);
    push_u32(&mut out, c.params[6].bits);
    push_u16(&mut out, c.command);
    let ghost words = out@;
    out.push(c.target_system);
    out.push(c.target_component);
    out.push(c.confirmation);
    assert(out@ =~= words + seq![c.target_system, c.target_component, c.confirmation]);
    out
}

impl Outbound {
    /// The number of this message.
    pub fn message_id(&self) -> (r: u32)
        ensures
            r == id_of(*self),
            is_sent(r),
    {
        match self {
            Outbound::Heartbeat(_) => ID_HEARTBEAT,
            Outbound::ParamRequestRead(_) => ID_PARAM_REQUEST_READ,
            Outbound::ParamSet(_) => ID_PARAM_SET,
            Outbound::CommandLong(_) => ID_COMMAND_LONG,
            Outbound::SerialControl(_) => ID_SERIAL_CONTROL,
            Outbound::HilSensor { .. } => ID_HIL_SENSOR,
            Outbound::HilGps(_) => ID_HIL_GPS,
        }
    }

    /// The payload of this message.
    pub fn payload(&self) -> (r: Vec<u8>)
        ensures
            r@ == payload_of(*self),
    {
        match self {
            Outbound::Heartbeat(h) => heartbeat_bytes(h),
            Outbound::ParamRequestRead(p) => {
                let mut out: Vec<u8> = Vec::new();
                push_i16(&mut out, p.param_index);
                out.push(p.target_system);
                out.push(p.target_component);
                push_bytes(&mut out, p.param_id.as_slice());
                assert(out@ =~= payload_of(*self));
                out
            },
            Outbound::ParamSet(p) => {
                let mut out: Vec<u8> = Vec::new();
                push_u32(&mut out, p.param_value.bits);
                out.push(p.target_system);
                out.push(p.target_component);
                push_bytes(&mut out, p.param_id.as_slice());
                out.push(p.param_type.to_code());
                assert(out@ =~= payload_of(*self));
                out
            },
            Outbound::CommandLong(c) => command_bytes(c),
            Outbound::SerialControl(s) => {
                let mut out: Vec<u8> = Vec::new();
                push_u32(&mut out, 0);
                push_u16(&mut out, s.timeout);
                out.push(SHELL_DEVICE);
                out.push(SHELL_FLAGS);
                out.push(s.count);
                push_bytes(&mut out, s.data.as_slice());
                assert(out@ =~= payload_of(*self));
                out
            },
            Outbound::HilSensor { data, fields_updated } => sensor_bytes(data, *fields_updated),
            Outbound::HilGps(d) => gps_bytes(d),
        }
    }
}

/// The numbers of the messages.
pub proof fn law_the_numbers_of_messages(m: Outbound)
    ensures
        is_sent(id_of(m)),
        m is Heartbeat <==> id_of(m) == 0,
        m is ParamRequestRead <==> id_of(m) == 20,
        m is ParamSet <==> id_of(m) == 23,
        m is CommandLong <==> id_of(m) == 76,
        m is HilSensor <==> id_of(m) == 107,
        m is HilGps <==> id_of(m) == 113,
        m is SerialControl <==> id_of(m) == 126,
{
}

/// Where the fields of a heartbeat stand.
pub proof fn law_where_a_heartbeat_has_its_fields(h: Heartbeat)
    ensures
        ({
            let p = payload_of(Outbound::Heartbeat(h));
            &&& p.len() == 9
            &&& bytes::u32_at(p, 0) == h.custom_mode
            &&& p[4] == h.vehicle_type
            &&& p[5] == h.autopilot
            &&& p[6] == h.base_mode
            &&& p[7] == h.system_status
            &&& p[8] == h.mavlink_version
        }),
{
    let p = payload_of(Outbound::Heartbeat(h));
    lemma_word_at(p, 0, h.custom_mode);
}

/// Where the fields of a parameter read stand.
pub proof fn law_where_a_parameter_read_has_its_fields(q: ParamRequestRead)
    ensures
        ({
            let p = payload_of(Outbound::ParamRequestRead(q));
            &&& p.len() == 20
            &&& bytes::u16_at(p, 0) == bytes::i16_word(q.param_index)
            &&& p[2] == q.target_system
            &&& p[3] == q.target_component
            &&& p.subrange(4, 20) == q.param_id@
        }),
{
    let p = payload_of(Outbound::ParamRequestRead(q));
    lemma_half_at(p, 0, bytes::i16_word(q.param_index));
    assert(p.subrange(4, 20) =~= q.param_id@);
}

/// Where the fields of a parameter write stand.
pub proof fn law_where_a_parameter_write_has_its_fields(q: ParamSet)
    ensures
        ({
            let p = payload_of(Outbound::ParamSet(q));
            &&& p.len() == 23
            &&& bytes::u32_at(p, 0) == q.param_value.bits
            &&& p[4] == q.target_system
            &&& p[5] == q.target_component
            &&& p.subrange(6, 22) == q.param_id@
            &&& p[22] == q.param_type.code()
        }),
{
    let p = payload_of(Outbound::ParamSet(q));
    lemma_word_at(p, 0, q.param_value.bits);
    assert(p.subrange(6, 22) =~= q.param_id@);
}

/// Where the fields of a command stand: the seven parameters, the command, whom
/// it is for, and the number of the attempt.
pub proof fn law_where_a_command_has_its_fields(c: CommandLong)
    ensures
        ({
            let p = payload_of(Outbound::CommandLong(c));
            &&& p.len() == 33
            &&& bytes::u32_at(p, 0) == c.params@[0].bits
            &&& bytes::u32_at(p, 4) == c.params@[1].bits
            &&& bytes::u32_at(p, 8) == c.params@[2].bits
            &&& bytes::u32_at(p, 12) == c.params@[3].bits
            &&& bytes::u32_at(p, 16) == c.params@[4].bits
            &&& bytes::u32_at(p, 20) == c.params@[5].bits
            &&& bytes::u32_at(p, 24) == c.params@[6].bits
            &&& bytes::u16_at(p, 28) == c.command
            &&& p[30] == c.target_system
            &&& p[31] == c.target_component
            &&& p[32] == c.confirmation
        }),
{
    let p = payload_of(Outbound::CommandLong(c));
    lemma_word_at(p, 0, c.params@[0].bits);
    lemma_word_at(p, 4, c.params@[1].bits);
    lemma_word_at(p, 8, c.params@[2].bits);
    lemma_word_at(p, 12, c.params@[3].bits);
    lemma_word_at(p, 16, c.params@[4].bits);
    lemma_word_at(p, 20, c.params@[5].bits);
    lemma_word_at(p, 24, c.params@[6].bits);
    lemma_half_at(p, 28, c.command);
}

/// Where the fields of shell input stand: no baud rate, the time for a reply,
/// the shell, the wish for a reply and for the shell alone, and the bytes.
pub proof fn law_where_shell_input_has_its_fields(s: SerialControl)
    ensures
        ({
            let p = payload_of(Outbound::SerialControl(s));
            &&& p.len() == 79
            &&& bytes::u32_at(p, 0) == 0
            &&& bytes::u16_at(p, 4) == s.timeout
            &&& p[6] == 10
            &&& p[7] == 6
            &&& p[8] == s.count
            &&& p.skip(9) == s.data@
        }),
{
    let p = payload_of(Outbound::SerialControl(s));
    lemma_word_at(p, 0, 0);
    lemma_half_at(p, 4, s.timeout);
    assert(p.skip(9) =~= s.data@);
}

/// Where the readings of motion stand.
#[verifier::rlimit(40)]
#[verifier::spinoff_prover]
pub proof fn law_where_readings_of_motion_stand(data: HilSensorData, fields_updated: u32)
    ensures
        ({
            let p = payload_of(Outbound::HilSensor { data, fields_updated });
            &&& p.len() == 64
            &&& bytes::u64_at(p, 0) == data.time_usec
            &&& bytes::u32_at(p, 8) == data.xacc.bits
            &&& bytes::u32_at(p, 12) == data.yacc.bits
            &&& bytes::u32_at(p, 16) == data.zacc.bits
            &&& bytes::u32_at(p, 20) == data.xgyro.bits
            &&& bytes::u32_at(p, 24) == data.ygyro.bits
            &&& bytes::u32_at(p, 28) == data.zgyro.bits
        }),
{
    let p = payload_of(Outbound::HilSensor { data, fields_updated });
    assert(p.subrange(0, 8) =~= bytes::u64_le(data.time_usec));
    bytes::lemma_u64_read_back(p, 0, data.time_usec);
    lemma_word_at(p, 8, data.xacc.bits);
    lemma_word_at(p, 12, data.yacc.bits);
    lemma_word_at(p, 16, data.zacc.bits);
    lemma_word_at(p, 20, data.xgyro.bits);
    lemma_word_at(p, 24, data.ygyro.bits);
    lemma_word_at(p, 28, data.zgyro.bits);
}

/// Where the readings of the magnetic field and the air stand, and the flags.
#[verifier::rlimit(40)]
#[verifier::spinoff_prover]
pub proof fn law_where_readings_of_the_surroundings_stand(data: HilSensorData, fields_updated: u32)
    ensures
        ({
            let p = payload_of(Outbound::HilSensor { data, fields_updated });
            &&& p.len() == 64
            &&& bytes::u32_at(p, 32) == data.xmag.bits
            &&& bytes::u32_at(p, 36) == data.ymag.bits
            &&& bytes::u32_at(p, 40) == data.zmag.bits
            &&& bytes::u32_at(p, 44) == data.abs_pressure.bits
            &&& bytes::u32_at(p, 48) == data.diff_pressure.bits
            &&& bytes::u32_at(p, 52) == data.pressure_alt.bits
            &&& bytes::u32_at(p, 56) == data.temperature.bits
            &&& bytes::u32_at(p, 60) == fields_updated
        }),
{
    let p = payload_of(Outbound::HilSensor { data, fields_updated });
    lemma_word_at(p, 32, data.xmag.bits);
    lemma_word_at(p, 36, data.ymag.bits);
    lemma_word_at(p, 40, data.zmag.bits);
    lemma_word_at(p, 44, data.abs_pressure.bits);
    lemma_word_at(p, 48, data.diff_pressure.bits);
    lemma_word_at(p, 52, data.pressure_alt.bits);
    lemma_word_at(p, 56, data.temperature.bits);
    lemma_word_at(p, 60, fields_updated);
}

/// Where GPS readings stand.
#[verifier::rlimit(40)]
#[verifier::spinoff_prover]
pub proof fn law_where_gps_readings_stand(d: HilGpsData)
    ensures
        ({
            let p = payload_of(Outbound::HilGps(d));
            &&& p.len() == 36
            &&& bytes::u64_at(p, 0) == d.time_usec
            &&& bytes::u32_at(p, 8) == bytes::i32_word(d.lat)
            &&& bytes::u32_at(p, 12) == bytes::i32_word(d.lon)
            &&& bytes::u32_at(p, 16) == bytes::i32_word(d.alt)
            &&& bytes::u16_at(p, 20) == d.eph
            &&& bytes::u16_at(p, 22) == d.epv
            &&& bytes::u16_at(p, 24) == d.vel
            &&& bytes::u16_at(p, 26) == bytes::i16_word(d.vn)
            &&& bytes::u16_at(p, 28) == bytes::i16_word(d.ve)
            &&& bytes::u16_at(p, 30) == bytes::i16_word(d.vd)
            &&& bytes::u16_at(p, 32) == d.cog
            &&& p[34] == d.fix_type
            &&& p[35] == d.satellites_visible
        }),
{
    let p = payload_of(Outbound::HilGps(d));
    assert(p.subrange(0, 8) =~= bytes::u64_le(d.time_usec));
    bytes::lemma_u64_read_back(p, 0, d.time_usec);
    lemma_word_at(p, 8, bytes::i32_word(d.lat));
    lemma_word_at(p, 12, bytes::i32_word(d.lon));
    lemma_word_at(p, 16, bytes::i32_word(d.alt));
    lemma_half_at(p, 20, d.eph);
    lemma_half_at(p, 22, d.epv);
    lemma_half_at(p, 24, d.vel);
    lemma_half_at(p, 26, bytes::i16_word(d.vn));
    lemma_half_at(p, 28, bytes::i16_word(d.ve));
    lemma_half_at(p, 30, bytes::i16_word(d.vd));
    lemma_half_at(p, 32, d.cog);
}

proof fn lemma_word_at(p: Seq<u8>, at: int, x: u32)
    requires
        0 <= at,
        at + 4 <= p.len(),
        forall|i: int| 0 <= i < 4 ==> #[trigger] p[at + i] == bytes::u32_le(x)[i],
    ensures
        bytes::u32_at(p, at) == x,
{
    assert(p.subrange(at, at + 4) =~= bytes::u32_le(x)) by {
        assert forall|i: int| 0 <= i < 4 implies p.subrange(at, at + 4)[i] == bytes::u32_le(
            x,
        )[i] by {
            assert(p[at + i] == bytes::u32_le(x)[i]);
        }
    }
    bytes::lemma_u32_read_back(p, at, x);
}

proof fn lemma_half_at(p: Seq<u8>, at: int, x: u16)
    requires
        0 <= at,
        at + 2 <= p.len(),
        p[at] == bytes::u16_le(x)[0],
        p[at + 1] == bytes::u16_le(x)[1],
    ensures
        bytes::u16_at(p, at) == x,
{
    assert(p.subrange(at, at + 2) =~= bytes::u16_le(x));
    bytes::lemma_u16_read_back(p, at, x);
}

/// Readings that are all new have a flag for each of the thirteen fields and
/// the flag of a reset.
pub proof fn law_the_flags_of_new_readings()
    ensures
        ALL_SENSOR_FIELDS == 0x8000_0000 + 0x1fff,
{
}

} // verus!
