//! Telemetry frames.
//!
//! - `[0]`: tag
//! - `[1-8]`: timestamp_us (u64 LE)
//! - `[9-20]`: position NED (3x f32 LE)
//! - `[21-32]`: velocity NED (3x f32 LE)
//! - `[33-48]`: quaternion wxyz (4x f32 LE)
//! - `[49-60]`: angular velocity (3x f32 LE)
//! - `[61-76]`: motor RPMs (4x f32 LE)
//! - `[77-80]`: battery voltage (f32 LE)
//! - `[81]`: battery percent
//! - `[82]`: armed
//! - `[83]`: flight mode
//! - `[84-85]`: packets per second (u16 LE)
//! - `[86]`: landed state (0 undefined, 1 on ground, 2 in air, 3 takeoff,
//!   4 landing)
use crate::bytes;
use crate::bytes::{flag_byte, push_u16, push_u32, push_u64, read_u16, read_u32, read_u64};
use crate::ieee::Real32;
use crate::protocol::tags::{ProtocolError, MSG_TYPE_STATE_UPDATE};
use vstd::prelude::*;

verus! {

/// Bytes of a telemetry frame.
pub const STATE_UPDATE_SIZE: usize = 87;

/// Smallest telemetry frame a reader must still accept. Daemons older than the
/// landed state send 86 bytes; the absent byte decodes as 0, undefined.
pub const STATE_UPDATE_MIN_SIZE: usize = 86;

/// Telemetry sent to the browser at 30 Hz.
#[derive(Clone, Copy, Debug)]
pub struct StateUpdate {
    /// Simulation time.
    pub timestamp_us: u64,
    /// Position, north, east, down.
    pub position_ned: [Real32; 3],
    /// Velocity, north, east, down.
    pub velocity_ned: [Real32; 3],
    /// Attitude.
    pub quaternion_wxyz: [Real32; 4],
    /// Body rates.
    pub angular_velocity: [Real32; 3],
    /// Rotor speeds.
    pub motor_rpms: [Real32; 4],
    /// Pack voltage.
    pub battery_voltage: Real32,
    /// State of charge.
    pub battery_percent: u8,
    /// Whether the motors are armed.
    pub armed: bool,
    /// Flight mode.
    pub flight_mode: u8,
    /// Messages received from the flight controller in the last second.
    pub packets_per_sec: u16,
    /// Verdict of the flight controller's land detector.
    pub landed_state: u8,
}

/// Little-endian bytes of a run of numbers.
pub open spec fn reals_le(v: Seq<Real32>) -> Seq<u8>
    decreases v.len(),
{
    if v.len() == 0 {
        Seq::empty()
    } else {
        reals_le(v.drop_last()) + bytes::u32_le(v.last().bits)
    }
}

/// The number at an offset.
pub open spec fn real_at(d: Seq<u8>, at: int) -> Real32 {
    Real32 { bits: bytes::u32_at(d, at) }
}

/// `n` numbers from an offset on.
pub open spec fn reals_at(d: Seq<u8>, at: int, n: nat) -> Seq<Real32> {
    Seq::new(n, |i: int| real_at(d, at + 4 * i))
}

/// The frame of a telemetry sample.
pub open spec fn state_bytes(s: StateUpdate) -> Seq<u8> {
    seq![MSG_TYPE_STATE_UPDATE] + bytes::u64_le(s.timestamp_us) + reals_le(s.position_ned@) + reals_le(
        s.velocity_ned@,
    ) + reals_le(s.quaternion_wxyz@) + reals_le(s.angular_velocity@) + reals_le(s.motor_rpms@)
        + bytes::u32_le(s.battery_voltage.bits) + seq![s.battery_percent, bytes::flag(s.armed), s.flight_mode]
        + bytes::u16_le(s.packets_per_sec) + seq![s.landed_state]
}

/// The sample a frame stands for.
pub open spec fn frame_holds(d: Seq<u8>, s: StateUpdate) -> bool {
    &&& s.timestamp_us == bytes::u64_at(d, 1)
    &&& s.position_ned@ == reals_at(d, 9, 3)
    &&& s.velocity_ned@ == reals_at(d, 21, 3)
    &&& s.quaternion_wxyz@ == reals_at(d, 33, 4)
    &&& s.angular_velocity@ == reals_at(d, 49, 3)
    &&& s.motor_rpms@ == reals_at(d, 61, 4)
    &&& s.battery_voltage == real_at(d, 77)
    &&& s.battery_percent == d[81]
    &&& s.armed == (d[82] != 0)
    &&& s.flight_mode == d[83]
    &&& s.packets_per_sec == bytes::u16_at(d, 84)
    &&& s.landed_state == if d.len() > 86 {
        d[86]
    } else {
        0
    }
}

fn push_three(out: &mut Vec<u8>, v: &[Real32; 3])
    ensures
        final(out)@ == old(out)@ + reals_le(v@),
{
    push_u32(out, v[0].bits);
    push_u32(out, v[1].bits);
    push_u32(out, v[2].bits);
    proof {
        reveal_with_fuel(reals_le, 4);
        assert(out@ =~= old(out)@ + reals_le(v@));
    }
}

fn push_four(out: &mut Vec<u8>, v: &[Real32; 4])
    ensures
        final(out)@ == old(out)@ + reals_le(v@),
{
    push_u32(out, v[0].bits);
    push_u32(out, v[1].bits);
    push_u32(out, v[2].bits);
    push_u32(out, v[3].bits);
    proof {
        reveal_with_fuel(reals_le, 5);
        assert(out@ =~= old(out)@ + reals_le(v@));
    }
}

fn read_real(d: &[u8], at: usize) -> (r: Real32)
    requires
        at + 4 <= d@.len(),
    ensures
        r == real_at(d@, at as int),
{
    Real32::from_bits(read_u32(d, at))
}

fn read_three(d: &[u8], at: usize) -> (r: [Real32; 3])
    requires
        at + 12 <= d@.len(),
        at < 100,
    ensures
        r@ == reals_at(d@, at as int, 3),
{
    let r: [Real32; 3] = [read_real(d, at), read_real(d, at + 4), read_real(d, at + 8)];
    assert(r@ =~= reals_at(d@, at as int, 3));
    r
}

fn read_four(d: &[u8], at: usize) -> (r: [Real32; 4])
    requires
        at + 16 <= d@.len(),
        at < 100,
    ensures
        r@ == reals_at(d@, at as int, 4),
{
    let r: [Real32; 4] = [
        read_real(d, at),
        read_real(d, at + 4),
        read_real(d, at + 8),
        read_real(d, at + 12),
    ];
    assert(r@ =~= reals_at(d@, at as int, 4));
    r
}

impl StateUpdate {
    /// Serialize to the binary format.
    pub fn to_bytes(&self) -> (r: Vec<u8>)
        ensures
            r@ == state_bytes(*self),
            r@.len() == STATE_UPDATE_SIZE,
    {
        let mut out: Vec<u8> = Vec::new();
        out.push(MSG_TYPE_STATE_UPDATE);
        assert(out@ =~= seq![MSG_TYPE_STATE_UPDATE]);
        push_u64(&mut out, self.timestamp_us);
        push_three(&mut out, &self.position_ned);
        push_three(&mut out, &self.velocity_ned);
        push_four(&mut out, &self.quaternion_wxyz);
        push_three(&mut out, &self.angular_velocity);
        push_four(&mut out, &self.motor_rpms);
        push_u32(&mut out, self.battery_voltage.bits);
        let ghost before = out@;
        out.push(self.battery_percent);
        out.push(flag_byte(self.armed));
        out.push(self.flight_mode);
        assert(out@ =~= before + seq![self.battery_percent, bytes::flag(self.armed), self.flight_mode]);
        push_u16(&mut out, self.packets_per_sec);
        let ghost before = out@;
        out.push(self.landed_state);
        assert(out@ =~= before + seq![self.landed_state]);
        proof {
            lemma_reals_len(self.position_ned@);
            lemma_reals_len(self.velocity_ned@);
            lemma_reals_len(self.quaternion_wxyz@);
            lemma_reals_len(self.angular_velocity@);
            lemma_reals_len(self.motor_rpms@);
        }
        out
    }

    /// Deserialize from the binary format.
    pub fn from_bytes(data: &[u8]) -> (r: Result<StateUpdate, ProtocolError>)
        ensures
            data@.len() < STATE_UPDATE_MIN_SIZE ==> r == Err::<StateUpdate, ProtocolError>(
                ProtocolError::MessageTooShort {
                    expected: STATE_UPDATE_MIN_SIZE,
                    actual: data@.len() as usize,
                },
            ),
            data@.len() >= STATE_UPDATE_MIN_SIZE && data@[0] != MSG_TYPE_STATE_UPDATE ==> r == Err::<
                StateUpdate,
                ProtocolError,
            >(ProtocolError::UnknownMessageType(data@[0])),
            data@.len() >= STATE_UPDATE_MIN_SIZE && data@[0] == MSG_TYPE_STATE_UPDATE ==> (
            r matches Ok(s) && frame_holds(data@, s)),
    {
        if data.len() < STATE_UPDATE_MIN_SIZE {
            return Err(
                ProtocolError::MessageTooShort {
                    expected: STATE_UPDATE_MIN_SIZE,
                    actual: data.len(),
                },
            );
        }
        if data[0] != MSG_TYPE_STATE_UPDATE {
            return Err(ProtocolError::UnknownMessageType(data[0]));
        }
        Ok(
            StateUpdate {
                timestamp_us: read_u64(data, 1),
                position_ned: read_three(data, 9),
                velocity_ned: read_three(data, 21),
                quaternion_wxyz: read_four(data, 33),
                angular_velocity: read_three(data, 49),
                motor_rpms: read_four(data, 61),
                battery_voltage: read_real(data, 77),
                battery_percent: data[81],
                armed: data[82] != 0,
                flight_mode: data[83],
                packets_per_sec: read_u16(data, 84),
                landed_state: if data.len() > 86 {
                    data[86]
                } else {
                    0
                },
            },
        )
    }
}

impl Default for StateUpdate {
    fn default() -> (r: Self)
        ensures
            r.timestamp_us == 0,
            r.position_ned@ == seq![zero(), zero(), zero()],
            r.velocity_ned@ == seq![zero(), zero(), zero()],
            r.quaternion_wxyz@ == seq![zero(), zero(), zero(), zero()],
            r.angular_velocity@ == seq![zero(), zero(), zero()],
            r.motor_rpms@ == seq![zero(), zero(), zero(), zero()],
            r.battery_voltage == zero(),
            r.battery_percent == 0,
            !r.armed,
            r.flight_mode == 0,
            r.packets_per_sec == 0,
            r.landed_state == 0,
    {
        let z: Real32 = Real32::from_bits(0);
        let r = StateUpdate {
            timestamp_us: 0,
            position_ned: [z, z, z],
            velocity_ned: [z, z, z],
            quaternion_wxyz: [z, z, z, z],
            angular_velocity: [z, z, z],
            motor_rpms: [z, z, z, z],
            battery_voltage: z,
            battery_percent: 0,
            armed: false,
            flight_mode: 0,
            packets_per_sec: 0,
            landed_state: 0,
        };
        assert(r.position_ned@ =~= seq![zero(), zero(), zero()]);
        assert(r.velocity_ned@ =~= seq![zero(), zero(), zero()]);
        assert(r.quaternion_wxyz@ =~= seq![zero(), zero(), zero(), zero()]);
        assert(r.angular_velocity@ =~= seq![zero(), zero(), zero()]);
        assert(r.motor_rpms@ =~= seq![zero(), zero(), zero(), zero()]);
        r
    }
}

/// The number zero.
pub open spec fn zero() -> Real32 {
    Real32 { bits: 0 }
}

pub proof fn lemma_reals_len(v: Seq<Real32>)
    ensures
        reals_le(v).len() == 4 * v.len(),
    decreases v.len(),
{
    if v.len() > 0 {
        lemma_reals_len(v.drop_last());
    }
}

/// A run of numbers that stands in a frame reads back.
pub proof fn lemma_reals_read_back(d: Seq<u8>, at: int, v: Seq<Real32>)
    requires
        bytes::stands_at(d, at, reals_le(v)),
    ensures
        reals_at(d, at, v.len()) == v,
    decreases v.len(),
{
    lemma_reals_len(v);
    if v.len() > 0 {
        let rest = v.drop_last();
        lemma_reals_len(rest);
        let n = 4 * rest.len() as int;
        let all = reals_le(v);
        assert(d.subrange(at, at + n) =~= all.subrange(0, n));
        assert(all.subrange(0, n) =~= reals_le(rest));
        lemma_reals_read_back(d, at, rest);
        assert(d.subrange(at + n, at + n + 4) =~= all.subrange(n, n + 4));
        assert(all.subrange(n, n + 4) =~= bytes::u32_le(v.last().bits));
        bytes::lemma_u32_read_back(d, at + n, v.last().bits);
        assert forall|i: int| 0 <= i < v.len() implies reals_at(d, at, v.len())[i] == v[i] by {
            if i < rest.len() {
                assert(reals_at(d, at, rest.len())[i] == rest[i]);
            }
        }
    }
    assert(reals_at(d, at, v.len()) =~= v);
}

/// A telemetry sample that was serialized reads back unchanged.
pub proof fn law_state_update_round_trip(s: StateUpdate)
    ensures
        state_bytes(s).len() == STATE_UPDATE_SIZE,
        state_bytes(s)[0] == MSG_TYPE_STATE_UPDATE,
        frame_holds(state_bytes(s), s),
{
    lemma_fields_stand(s);
    let d = state_bytes(s);
    bytes::lemma_u64_read_back(d, 1, s.timestamp_us);
    lemma_reals_read_back(d, 9, s.position_ned@);
    lemma_reals_read_back(d, 21, s.velocity_ned@);
    lemma_reals_read_back(d, 33, s.quaternion_wxyz@);
    lemma_reals_read_back(d, 49, s.angular_velocity@);
    lemma_reals_read_back(d, 61, s.motor_rpms@);
    bytes::lemma_u32_read_back(d, 77, s.battery_voltage.bits);
    bytes::lemma_u16_read_back(d, 84, s.packets_per_sec);
}

/// A frame without the landed state, as an older daemon sends it, reads back
/// with every other field unchanged and the landed state undefined.
pub proof fn law_legacy_frame_reads_landed_state_as_undefined(s: StateUpdate)
    ensures
        frame_holds(
            state_bytes(s).take(STATE_UPDATE_MIN_SIZE as int),
            (StateUpdate { landed_state: 0, ..s }),
        ),
{
    law_state_update_round_trip(s);
    let d = state_bytes(s);
    let short = d.take(86);
    let t = StateUpdate { landed_state: 0, ..s };
    assert(reals_at(short, 9, 3) =~= reals_at(d, 9, 3));
    assert(reals_at(short, 21, 3) =~= reals_at(d, 21, 3));
    assert(reals_at(short, 33, 4) =~= reals_at(d, 33, 4));
    assert(reals_at(short, 49, 3) =~= reals_at(d, 49, 3));
    assert(reals_at(short, 61, 4) =~= reals_at(d, 61, 4));
}

proof fn lemma_fields_stand(s: StateUpdate)
    ensures
        ({
            let d = state_bytes(s);
            &&& d.len() == 87
            &&& d[0] == MSG_TYPE_STATE_UPDATE
            &&& bytes::stands_at(d, 1, bytes::u64_le(s.timestamp_us))
            &&& bytes::stands_at(d, 9, reals_le(s.position_ned@))
            &&& bytes::stands_at(d, 21, reals_le(s.velocity_ned@))
            &&& bytes::stands_at(d, 33, reals_le(s.quaternion_wxyz@))
            &&& bytes::stands_at(d, 49, reals_le(s.angular_velocity@))
            &&& bytes::stands_at(d, 61, reals_le(s.motor_rpms@))
            &&& bytes::stands_at(d, 77, bytes::u32_le(s.battery_voltage.bits))
            &&& d[81] == s.battery_percent
            &&& d[82] == bytes::flag(s.armed)
            &&& d[83] == s.flight_mode
            &&& bytes::stands_at(d, 84, bytes::u16_le(s.packets_per_sec))
            &&& d[86] == s.landed_state
        }),
{
    lemma_reals_len(s.position_ned@);
    lemma_reals_len(s.velocity_ned@);
    lemma_reals_len(s.quaternion_wxyz@);
    lemma_reals_len(s.angular_velocity@);
    lemma_reals_len(s.motor_rpms@);
    let d = state_bytes(s);
    assert(d.subrange(1, 9) =~= bytes::u64_le(s.timestamp_us));
    assert(d.subrange(9, 21) =~= reals_le(s.position_ned@));
    assert(d.subrange(21, 33) =~= reals_le(s.velocity_ned@));
    assert(d.subrange(33, 49) =~= reals_le(s.quaternion_wxyz@));
    assert(d.subrange(49, 61) =~= reals_le(s.angular_velocity@));
    assert(d.subrange(61, 77) =~= reals_le(s.motor_rpms@));
    assert(d.subrange(77, 81) =~= bytes::u32_le(s.battery_voltage.bits));
    assert(d.subrange(84, 86) =~= bytes::u16_le(s.packets_per_sec));
}

/// Where each number of a telemetry frame stands.
pub proof fn law_where_telemetry_stands(d: Seq<u8>, s: StateUpdate, i: int)
    requires
        frame_holds(d, s),
    ensures
        s.timestamp_us == bytes::u32_at(d, 1) + 0x1_0000_0000 * bytes::u32_at(d, 5),
        0 <= i < 3 ==> s.position_ned@[i].bits == bytes::u32_at(d, 9 + 4 * i),
        0 <= i < 3 ==> s.velocity_ned@[i].bits == bytes::u32_at(d, 21 + 4 * i),
        0 <= i < 4 ==> s.quaternion_wxyz@[i].bits == bytes::u32_at(d, 33 + 4 * i),
        0 <= i < 3 ==> s.angular_velocity@[i].bits == bytes::u32_at(d, 49 + 4 * i),
        0 <= i < 4 ==> s.motor_rpms@[i].bits == bytes::u32_at(d, 61 + 4 * i),
        s.battery_voltage.bits == d[77] + 0x100 * d[78] + 0x1_0000 * d[79] + 0x100_0000 * d[80],
        s.battery_percent == d[81],
        s.armed <==> d[82] != 0,
        s.flight_mode == d[83],
        s.packets_per_sec == d[84] + 0x100 * d[85],
        d.len() == 87 ==> s.landed_state == d[86],
        d.len() == 86 ==> s.landed_state == 0,
{
}

/// Where each number of a telemetry sample is put in its frame.
pub proof fn law_where_telemetry_is_put(s: StateUpdate, i: int)
    ensures
        state_bytes(s).len() == 87,
        state_bytes(s)[0] == 1,
        bytes::u64_at(state_bytes(s), 1) == s.timestamp_us,
        0 <= i < 3 ==> bytes::u32_at(state_bytes(s), 9 + 4 * i) == s.position_ned@[i].bits,
        0 <= i < 3 ==> bytes::u32_at(state_bytes(s), 21 + 4 * i) == s.velocity_ned@[i].bits,
        0 <= i < 4 ==> bytes::u32_at(state_bytes(s), 33 + 4 * i) == s.quaternion_wxyz@[i].bits,
        0 <= i < 3 ==> bytes::u32_at(state_bytes(s), 49 + 4 * i) == s.angular_velocity@[i].bits,
        0 <= i < 4 ==> bytes::u32_at(state_bytes(s), 61 + 4 * i) == s.motor_rpms@[i].bits,
        bytes::u32_at(state_bytes(s), 77) == s.battery_voltage.bits,
        state_bytes(s)[81] == s.battery_percent,
        state_bytes(s)[82] == if s.armed { 1u8 } else { 0u8 },
        state_bytes(s)[83] == s.flight_mode,
        bytes::u16_at(state_bytes(s), 84) == s.packets_per_sec,
        state_bytes(s)[86] == s.landed_state,
{
    law_state_update_round_trip(s);
    law_where_telemetry_stands(state_bytes(s), s, i);
    lemma_fields_stand(s);
}

} // verus!
