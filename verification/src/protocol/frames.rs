//! Binary frames other than telemetry and commands.
use crate::bytes;
use crate::bytes::{
    copy_range, flag_byte, push_bytes, push_u16, push_u32, push_u64, read_u16, read_u32,
};
use crate::ieee::{Real32, Real64};
use crate::protocol::tags::{
    ProtocolError, MSG_TYPE_COMMAND_ACK, MSG_TYPE_CONNECTION_STATUS, MSG_TYPE_HANDSHAKE_ACK,
    MSG_TYPE_NSH_COMMAND, MSG_TYPE_NSH_RESPONSE, MSG_TYPE_TERRAIN_ORIGIN, MSG_TYPE_VEHICLE_MESSAGE,
};
use crate::text;
use crate::text::utf8_lossy;
use vstd::prelude::*;

verus! {

/// The bytes of a text on the wire.
pub open spec fn text_bytes(s: Seq<char>) -> Seq<u8> {
    vstd::utf8::encode_utf8(s)
}

/// The characters of an optional text, none when it is absent.
pub open spec fn optional_text(s: Option<String>) -> Seq<char> {
    match s {
        Some(t) => t@,
        None => Seq::empty(),
    }
}

/// Append a text and a terminating NUL.
fn push_text(out: &mut Vec<u8>, s: &str)
    ensures
        final(out)@ == old(out)@ + text_bytes(s@) + seq![0u8],
{
    push_bytes(out, s.as_bytes());
    out.push(0);
    assert(out@ =~= old(out)@ + text_bytes(s@) + seq![0u8]);
}

/// The text of an option, empty when there is none.
fn text_or_empty(s: &Option<String>) -> (r: &str)
    ensures
        r@ == optional_text(*s),
{
    match s {
        Some(t) => t.as_str(),
        None => {
            proof {
                reveal_strlit("");
                assert(""@ =~= Seq::<char>::empty());
            }
            ""
        },
    }
}

/// Answer to a handshake.
///
/// - `[0]`: tag
/// - `[1]`, `[2]`, `[3]`: version, major, minor, patch
/// - `[4]`: whether the flight controller is connected
/// - `[5-N]`: serial port (NUL-terminated)
#[derive(Clone, Debug)]
pub struct HandshakeAck {
    /// Daemon version, major.
    pub version_major: u8,
    /// Daemon version, minor.
    pub version_minor: u8,
    /// Daemon version, patch.
    pub version_patch: u8,
    /// Whether the flight controller is connected.
    pub pixhawk_connected: bool,
    /// Serial port in use.
    pub serial_port: String,
}

impl HandshakeAck {
    /// Serialize to the binary format.
    pub fn to_bytes(&self) -> (r: Vec<u8>)
        ensures
            r@ == seq![
                MSG_TYPE_HANDSHAKE_ACK,
                self.version_major,
                self.version_minor,
                self.version_patch,
                bytes::flag(self.pixhawk_connected),
            ] + text_bytes(self.serial_port@) + seq![0u8],
    {
        let mut out: Vec<u8> = Vec::new();
        out.push(MSG_TYPE_HANDSHAKE_ACK);
        out.push(self.version_major);
        out.push(self.version_minor);
        out.push(self.version_patch);
        out.push(flag_byte(self.pixhawk_connected));
        assert(out@ =~= seq![
            MSG_TYPE_HANDSHAKE_ACK,
            self.version_major,
            self.version_minor,
            self.version_patch,
            bytes::flag(self.pixhawk_connected),
        ]);
        push_text(&mut out, self.serial_port.as_str());
        out
    }
}

/// What the daemon is doing about its flight controller link.
#[derive(Clone, Copy, Debug, PartialEq, Eq, Structural)]
pub enum LinkState {
    /// Looking for a board that has not been seen yet this session.
    Searching,
    /// A board is attached and heartbeating.
    Connected,
    /// A previously connected board went away and is being waited for.
    Reconnecting,
    /// The device is present but silent: PX4 sits in its bootloader for some
    /// seconds on power-up, and far longer while firmware is being flashed.
    SuspectedBootloader,
}

/// Flight controller link status.
///
/// - `[0]`: tag
/// - `[1]`: connected
/// - `[2]`: reconnecting
/// - `[3]`: retry count
/// - `[4-N]`: serial port (NUL-terminated, empty if not connected)
/// - `[N+1-M]`: model (NUL-terminated, empty if unknown)
/// - `[M+1]`: bootloader suspected
#[derive(Clone, Debug)]
pub struct ConnectionStatus {
    /// Whether the flight controller is currently connected.
    pub connected: bool,
    /// Whether the daemon is actively trying to reconnect.
    pub reconnecting: bool,
    /// Number of reconnection attempts so far.
    pub retry_count: u8,
    /// Serial port, empty if not connected.
    pub serial_port: String,
    /// Model of the flight controller, if known.
    pub fc_model: Option<String>,
    /// Whether the flight controller is likely in its bootloader.
    pub bootloader_suspected: bool,
    /// Link state. The flags above cannot tell a first scan from a reconnect.
    pub link_state: LinkState,
}

impl ConnectionStatus {
    /// Serialize to the binary format.
    pub fn to_bytes(&self) -> (r: Vec<u8>)
        ensures
            r@ == seq![
                MSG_TYPE_CONNECTION_STATUS,
                bytes::flag(self.connected),
                bytes::flag(self.reconnecting),
                self.retry_count,
            ] + text_bytes(self.serial_port@) + seq![0u8] + text_bytes(optional_text(self.fc_model))
                + seq![0u8] + seq![bytes::flag(self.bootloader_suspected)],
    {
        let mut out: Vec<u8> = Vec::new();
        out.push(MSG_TYPE_CONNECTION_STATUS);
        out.push(flag_byte(self.connected));
        out.push(flag_byte(self.reconnecting));
        out.push(self.retry_count);
        assert(out@ =~= seq![
            MSG_TYPE_CONNECTION_STATUS,
            bytes::flag(self.connected),
            bytes::flag(self.reconnecting),
            self.retry_count,
        ]);
        push_text(&mut out, self.serial_port.as_str());
        push_text(&mut out, text_or_empty(&self.fc_model));
        let ghost before = out@;
        out.push(flag_byte(self.bootloader_suspected));
        assert(out@ =~= before + seq![bytes::flag(self.bootloader_suspected)]);
        out
    }
}

/// Status text of the flight controller.
///
/// - `[0]`: tag
/// - `[1]`: severity (0 emergency to 7 debug)
/// - `[2-5]`: timestamp_ms (u32 LE)
/// - `[6-N]`: text (NUL-terminated UTF-8)
#[derive(Clone, Debug)]
pub struct VehicleMessage {
    /// Severity, 0 emergency to 7 debug.
    pub severity: u8,
    /// Milliseconds since daemon start.
    pub timestamp_ms: u32,
    /// The text.
    pub text: String,
}

impl VehicleMessage {
    /// Serialize to the binary format.
    pub fn to_bytes(&self) -> (r: Vec<u8>)
        ensures
            r@ == seq![MSG_TYPE_VEHICLE_MESSAGE, self.severity] + bytes::u32_le(self.timestamp_ms)
                + text_bytes(self.text@) + seq![0u8],
    {
        let mut out: Vec<u8> = Vec::new();
        out.push(MSG_TYPE_VEHICLE_MESSAGE);
        out.push(self.severity);
        assert(out@ =~= seq![MSG_TYPE_VEHICLE_MESSAGE, self.severity]);
        push_u32(&mut out, self.timestamp_ms);
        push_text(&mut out, self.text.as_str());
        out
    }
}

/// Answer to a command.
///
/// - `[0]`: tag
/// - `[1-4]`: command id (u32 LE)
/// - `[5]`: success
/// - `[6-N]`: error (NUL-terminated, only on failure)
#[derive(Clone, Debug)]
pub struct CommandAck {
    /// The command answered.
    pub command_id: u32,
    /// Whether it was taken.
    pub success: bool,
    /// Why it was not.
    pub error: Option<String>,
}

/// The frame of a command acknowledgement.
pub open spec fn command_ack_bytes(a: CommandAck) -> Seq<u8> {
    let head = seq![MSG_TYPE_COMMAND_ACK] + bytes::u32_le(a.command_id) + seq![
        bytes::flag(a.success),
    ];
    if a.success {
        head
    } else {
        head + text_bytes(optional_text(a.error)) + seq![0u8]
    }
}

impl CommandAck {
    /// Serialize to the binary format.
    pub fn to_bytes(&self) -> (r: Vec<u8>)
        ensures
            r@ == command_ack_bytes(*self),
    {
        let mut out: Vec<u8> = Vec::new();
        out.push(MSG_TYPE_COMMAND_ACK);
        assert(out@ =~= seq![MSG_TYPE_COMMAND_ACK]);
        push_u32(&mut out, self.command_id);
        let ghost before = out@;
        out.push(flag_byte(self.success));
        assert(out@ =~= before + seq![bytes::flag(self.success)]);
        if !self.success {
            push_text(&mut out, text_or_empty(&self.error));
        }
        out
    }
}

/// Shell command from the browser.
///
/// - `[0]`: tag
/// - `[1-4]`: request id (u32 LE)
/// - `[5-6]`: timeout_ms (u16 LE, 0 for the default)
/// - `[7-N]`: command (NUL-terminated UTF-8)
#[derive(Clone, Debug)]
pub struct NshCommand {
    /// Identifies the answer.
    pub request_id: u32,
    /// How long to wait for output, 0 for the default.
    pub timeout_ms: u16,
    /// The command line.
    pub command: String,
}

/// The first NUL at or after `from`, or the end.
pub open spec fn first_nul(d: Seq<u8>, from: int) -> int
    decreases d.len() - from,
{
    if from < 0 || from >= d.len() || d[from] == 0 {
        from
    } else {
        first_nul(d, from + 1)
    }
}

/// The frame of a shell command.
pub open spec fn nsh_command_bytes(c: NshCommand) -> Seq<u8> {
    seq![MSG_TYPE_NSH_COMMAND] + bytes::u32_le(c.request_id) + bytes::u16_le(c.timeout_ms)
        + text_bytes(c.command@) + seq![0u8]
}

impl NshCommand {
    /// Deserialize from the binary format. The command ends at its first NUL,
    /// or with the frame.
    pub fn from_bytes(data: &[u8]) -> (r: Result<NshCommand, ProtocolError>)
        ensures
            data@.len() < 8 ==> r == Err::<NshCommand, ProtocolError>(
                ProtocolError::MessageTooShort { expected: 8, actual: data@.len() as usize },
            ),
            data@.len() >= 8 && data@[0] != MSG_TYPE_NSH_COMMAND ==> r == Err::<
                NshCommand,
                ProtocolError,
            >(ProtocolError::UnknownMessageType(data@[0])),
            data@.len() >= 8 && data@[0] == MSG_TYPE_NSH_COMMAND ==> (r matches Ok(c)
                && c.request_id == bytes::u32_at(data@, 1) && c.timeout_ms == bytes::u16_at(
                data@,
                5,
            ) && c.command@ == text::lossy_text(data@.subrange(7, first_nul(data@, 7))) && (
            vstd::utf8::valid_utf8(data@.subrange(7, first_nul(data@, 7))) ==> c.command@
                == vstd::utf8::decode_utf8(data@.subrange(7, first_nul(data@, 7))))),
    {
        if data.len() < 8 {
            return Err(ProtocolError::MessageTooShort { expected: 8, actual: data.len() });
        }
        if data[0] != MSG_TYPE_NSH_COMMAND {
            return Err(ProtocolError::UnknownMessageType(data[0]));
        }
        let request_id: u32 = read_u32(data, 1);
        let timeout_ms: u16 = read_u16(data, 5);
        let mut end: usize = 7;
        while end < data.len() && data[end] != 0
            invariant
                7 <= end <= data@.len(),
                first_nul(data@, 7) == first_nul(data@, end as int),
            decreases data@.len() - end,
        {
            end = end + 1;
        }
        let raw: Vec<u8> = copy_range(data, 7, end);
        let command: String = utf8_lossy(raw.as_slice());
        Ok(NshCommand { request_id, timeout_ms, command })
    }

    /// Serialize to the binary format.
    pub fn to_bytes(&self) -> (r: Vec<u8>)
        ensures
            r@ == nsh_command_bytes(*self),
    {
        let mut out: Vec<u8> = Vec::new();
        out.push(MSG_TYPE_NSH_COMMAND);
        assert(out@ =~= seq![MSG_TYPE_NSH_COMMAND]);
        push_u32(&mut out, self.request_id);
        push_u16(&mut out, self.timeout_ms);
        push_text(&mut out, self.command.as_str());
        out
    }
}

/// No character but NUL encodes to a NUL byte.
proof fn lemma_no_nul_bytes(chars: Seq<char>)
    requires
        forall|i: int| 0 <= i < chars.len() ==> #[trigger] chars[i] != '\0',
    ensures
        forall|i: int|
            0 <= i < text_bytes(chars).len() ==> #[trigger] text_bytes(chars)[i] != 0,
    decreases chars.len(),
{
    if chars.len() > 0 {
        let rest = chars.drop_first();
        assert forall|i: int| 0 <= i < rest.len() implies #[trigger] rest[i] != '\0' by {
            assert(rest[i] == chars[i + 1]);
        }
        lemma_no_nul_bytes(rest);
        let first = chars[0];
        let c = first as u32;
        assert(first != '\0');
        vstd::utf8::char_is_scalar(first);
        if c == 0 {
            vstd::utf8::char_u32_cast('\0', 0);
            vstd::utf8::char_u32_cast(first, 0);
        }
        assert(c != 0);
        assert(c != 0 && c <= 0x7f ==> (c & 0x7f) as u8 != 0) by (bit_vector);
        assert(forall|x: u8| #[trigger] (0xC0u8 | x) != 0) by (bit_vector);
        assert(forall|x: u8| #[trigger] (0xE0u8 | x) != 0) by (bit_vector);
        assert(forall|x: u8| #[trigger] (0xF0u8 | x) != 0) by (bit_vector);
        assert(forall|x: u8| #[trigger] (0x80u8 | x) != 0) by (bit_vector);
        let head = vstd::utf8::encode_scalar(c);
        let tail = text_bytes(rest);
        assert(forall|i: int| 0 <= i < head.len() ==> #[trigger] head[i] != 0);
        assert forall|i: int| 0 <= i < (head + tail).len() implies #[trigger] (head + tail)[i]
            != 0 by {
            if i >= head.len() {
                assert((head + tail)[i] == tail[i - head.len()]);
            }
        }
    }
}

proof fn lemma_first_nul(d: Seq<u8>, from: int, at: int)
    requires
        0 <= from <= at < d.len(),
        d[at] == 0,
        forall|i: int| from <= i < at ==> #[trigger] d[i] != 0,
    ensures
        first_nul(d, from) == at,
    decreases at - from,
{
    if from < at {
        lemma_first_nul(d, from + 1, at);
    }
}

/// A shell command that was serialized reads back unchanged, whatever bytes
/// follow it, provided it holds no NUL: what [`NshCommand::from_bytes`] promises
/// of the frame is the command that was written.
pub proof fn law_nsh_command_round_trip(c: NshCommand, after: Seq<u8>)
    requires
        forall|i: int| 0 <= i < c.command@.len() ==> #[trigger] c.command@[i] != '\0',
    ensures
        ({
            let d = nsh_command_bytes(c) + after;
            let raw = d.subrange(7, first_nul(d, 7));
            &&& d.len() >= 8
            &&& d[0] == MSG_TYPE_NSH_COMMAND
            &&& bytes::u32_at(d, 1) == c.request_id
            &&& bytes::u16_at(d, 5) == c.timeout_ms
            &&& vstd::utf8::valid_utf8(raw)
            &&& vstd::utf8::decode_utf8(raw) == c.command@
        }),
{
    let d = nsh_command_bytes(c) + after;
    let t = text_bytes(c.command@);
    assert(d.subrange(1, 5) =~= bytes::u32_le(c.request_id));
    bytes::lemma_u32_read_back(d, 1, c.request_id);
    assert(d.subrange(5, 7) =~= bytes::u16_le(c.timeout_ms));
    bytes::lemma_u16_read_back(d, 5, c.timeout_ms);
    lemma_no_nul_bytes(c.command@);
    let at = 7 + t.len() as int;
    assert forall|i: int| 7 <= i < at implies #[trigger] d[i] != 0 by {
        assert(d[i] == t[i - 7]);
    }
    lemma_first_nul(d, 7, at);
    assert(d.subrange(7, at) =~= t);
    vstd::utf8::encode_utf8_valid_utf8(c.command@);
    vstd::utf8::encode_utf8_decode_utf8(c.command@);
}

/// Shell output.
///
/// - `[0]`: tag
/// - `[1-4]`: request id (u32 LE)
/// - `[5]`: success
/// - `[6]`: complete, false if more output follows
/// - `[7-N]`: output (NUL-terminated UTF-8)
#[derive(Clone, Debug)]
pub struct NshResponse {
    /// The request answered.
    pub request_id: u32,
    /// Whether the command was taken.
    pub success: bool,
    /// Whether no more output follows.
    pub complete: bool,
    /// Output, or why the command was refused.
    pub output: String,
}

impl NshResponse {
    /// Serialize to the binary format.
    pub fn to_bytes(&self) -> (r: Vec<u8>)
        ensures
            r@ == seq![MSG_TYPE_NSH_RESPONSE] + bytes::u32_le(self.request_id) + seq![
                bytes::flag(self.success),
                bytes::flag(self.complete),
            ] + text_bytes(self.output@) + seq![0u8],
    {
        let mut out: Vec<u8> = Vec::new();
        out.push(MSG_TYPE_NSH_RESPONSE);
        assert(out@ =~= seq![MSG_TYPE_NSH_RESPONSE]);
        push_u32(&mut out, self.request_id);
        let ghost before = out@;
        out.push(flag_byte(self.success));
        out.push(flag_byte(self.complete));
        assert(out@ =~= before + seq![bytes::flag(self.success), bytes::flag(self.complete)]);
        push_text(&mut out, self.output.as_str());
        out
    }
}

/// Geographic origin of the terrain, sent when it changes.
///
/// - `[0]`: tag
/// - `[1-8]`: latitude (f64 LE)
/// - `[9-16]`: longitude (f64 LE)
/// - `[17-20]`: altitude (f32 LE, metres AMSL)
/// - `[21]`: source (0 global position, 1 home position, 2 GPS origin)
#[derive(Clone, Copy, Debug, PartialEq, Eq, Structural)]
pub struct TerrainOrigin {
    /// Latitude.
    pub ref_lat: Real64,
    /// Longitude.
    pub ref_lon: Real64,
    /// Altitude.
    pub ref_alt: Real32,
    /// Where the position came from.
    pub source: u8,
}

/// Bytes of a terrain origin frame.
pub const TERRAIN_ORIGIN_SIZE: usize = 22;

impl TerrainOrigin {
    /// Serialize to the binary format.
    pub fn to_bytes(&self) -> (r: Vec<u8>)
        ensures
            r@ == seq![MSG_TYPE_TERRAIN_ORIGIN] + bytes::u64_le(self.ref_lat.bits) + bytes::u64_le(
                self.ref_lon.bits,
            ) + bytes::u32_le(self.ref_alt.bits) + seq![self.source],
            r@.len() == TERRAIN_ORIGIN_SIZE,
    {
        let mut out: Vec<u8> = Vec::new();
        out.push(MSG_TYPE_TERRAIN_ORIGIN);
        assert(out@ =~= seq![MSG_TYPE_TERRAIN_ORIGIN]);
        push_u64(&mut out, self.ref_lat.bits);
        push_u64(&mut out, self.ref_lon.bits);
        push_u32(&mut out, self.ref_alt.bits);
        let ghost before = out@;
        out.push(self.source);
        assert(out@ =~= before + seq![self.source]);
        out
    }
}

/// The first zero of a frame is where it is.
pub proof fn lemma_first_nul_at(d: Seq<u8>, from: int, at: int)
    requires
        0 <= from <= at <= d.len(),
        at < d.len() ==> d[at] == 0,
        forall|i: int| from <= i < at ==> #[trigger] d[i] != 0,
    ensures
        first_nul(d, from) == at,
    decreases at - from,
{
    if from < at {
        lemma_first_nul_at(d, from + 1, at);
    }
}

/// A shell command goes out as it is read: tag, request and time from the lowest
/// byte up, and the text from the eighth byte on, closed by a zero.
pub proof fn law_the_bytes_of_a_shell_command(c: NshCommand)
    ensures
        ({
            let d = nsh_command_bytes(c);
            let line = vstd::utf8::encode_utf8(c.command@);
            &&& d.len() == 8 + line.len()
            &&& d[0] == 0x12
            &&& d[1] + 0x100 * d[2] + 0x1_0000 * d[3] + 0x100_0000 * d[4] == c.request_id
            &&& d[5] + 0x100 * d[6] == c.timeout_ms
            &&& d.subrange(7, d.len() - 1) == line
            &&& d.last() == 0
        }),
{
    let d = nsh_command_bytes(c);
    bytes::law_the_bytes_of_a_number_add_up(c.timeout_ms, c.request_id, 0);
    assert(d.subrange(7, d.len() - 1) =~= vstd::utf8::encode_utf8(c.command@));
}

} // verus!
