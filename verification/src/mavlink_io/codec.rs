//! MAVLink 2 frames: reading, writing, sequence numbers.
use crate::bytes;
use crate::mavlink_io::messages;
use crate::mavlink_io::messages::{Outbound, COMPONENT_ID, SYSTEM_ID};
use crate::param_io;
use mavlink::ardupilotmega::MavMessage;
use mavlink::peek_reader::PeekReader;
use mavlink::{MavHeader, MavlinkVersion, Message};
use std::io::Cursor;
use vstd::prelude::*;

verus! {

/// Bytes of a frame without its payload: start byte, header, checksum.
pub const FRAME_OVERHEAD: usize = 12;

/// First byte of a frame.
pub const FRAME_START: u8 = 0xFD;

/// A frame that was read.
#[derive(Debug)]
pub struct RawFrame {
    /// Sending system.
    pub system_id: u8,
    /// Sending component.
    pub component_id: u8,
    /// Sequence number.
    pub sequence: u8,
    /// Number of the message.
    pub message_id: u32,
    /// Payload.
    pub payload: Vec<u8>,
    /// How much of what was read is used up.
    pub consumed: usize,
}

/// A frame that was read, as a value.
pub ghost struct FrameModel {
    pub system_id: u8,
    pub component_id: u8,
    pub sequence: u8,
    pub message_id: u32,
    pub payload: Seq<u8>,
    pub consumed: int,
}

impl View for RawFrame {
    type V = FrameModel;

    open spec fn view(&self) -> FrameModel {
        FrameModel {
            system_id: self.system_id,
            component_id: self.component_id,
            sequence: self.sequence,
            message_id: self.message_id,
            payload: self.payload@,
            consumed: self.consumed as int,
        }
    }
}

/// Whether a frame stands at a place in what was read.
pub open spec fn frame_at(b: Seq<u8>, at: int, f: FrameModel) -> bool {
    let n = f.payload.len() as int;
    &&& 0 <= at
    &&& at + FRAME_OVERHEAD + n <= b.len()
    &&& b[at] == FRAME_START
    &&& b[at + 1] == n
    &&& b[at + 4] == f.sequence
    &&& b[at + 5] == f.system_id
    &&& b[at + 6] == f.component_id
    &&& b[at + 7] + 0x100 * b[at + 8] + 0x1_0000 * b[at + 9] == f.message_id
    &&& b.subrange(at + 10, at + 10 + n) == f.payload
}

/// The first sound frame in some bytes, as `mavlink::read_v2_raw_message` finds
/// it: one whose checksum fits its message.
pub uninterp spec fn first_frame(b: Seq<u8>) -> Option<FrameModel>;

/// `mavlink::read_v2_raw_message` over a `PeekReader` on the bytes. What it
/// finds depends on the bytes alone. The frame stands in the bytes that are
/// used up: a start byte, length, two flag bytes, sequence number, system,
/// component, three bytes of message number, payload, checksum. Which frame
/// passes the checksum is not said.
#[verifier::external_body]
pub(crate) fn read_raw_frame(b: &[u8]) -> (r: Option<RawFrame>)
    ensures
        r is Some <==> first_frame(b@) is Some,
        r matches Some(f) ==> first_frame(b@) == Some(f@),
        r matches Some(f) ==> FRAME_OVERHEAD <= f.consumed <= b@.len() && exists|at: int| #[trigger]
            frame_at(b@.take(f.consumed as int), at, f@),
{
    let mut reader = PeekReader::new(Cursor::new(b));
    let raw = mavlink::read_v2_raw_message::<MavMessage, _>(&mut reader).ok()?;
    Some(RawFrame {
        system_id: raw.system_id(),
        component_id: raw.component_id(),
        sequence: raw.sequence(),
        message_id: raw.message_id(),
        payload: raw.payload().to_vec(),
        consumed: reader.reader_ref().position() as usize,
    })
}

/// Shell output in one message.
#[derive(Debug)]
pub struct ShellData {
    /// How many of the bytes count.
    pub count: u8,
    /// The bytes.
    pub data: Vec<u8>,
}

/// A byte of a payload. Zeros at the end of a payload are not sent.
pub open spec fn sent_byte(payload: Seq<u8>, i: int) -> u8 {
    if 0 <= i < payload.len() {
        payload[i]
    } else {
        0
    }
}

/// How many bytes of shell output count.
pub open spec fn shell_count(payload: Seq<u8>) -> u8 {
    sent_byte(payload, 8)
}

/// The bytes of shell output.
pub open spec fn shell_bytes(payload: Seq<u8>) -> Seq<u8> {
    Seq::new(messages::SHELL_CHUNK as nat, |i: int| sent_byte(payload, 9 + i))
}

/// Highest vehicle type that MAVLink defines.
pub const LAST_VEHICLE_TYPE: u8 = 42;

/// Highest autopilot that MAVLink defines.
pub const LAST_AUTOPILOT: u8 = 20;

/// Highest system status that MAVLink defines.
pub const LAST_SYSTEM_STATUS: u8 = 8;

/// Highest parameter type that MAVLink defines; they start at 1.
pub const LAST_PARAM_TYPE: u8 = 10;

/// Whether this is the payload of a message the daemon sends, with a value that
/// MAVLink defines in every field that is not a plain number.
pub open spec fn well_filled(message_id: u32, payload: Seq<u8>) -> bool {
    ||| message_id == messages::ID_HEARTBEAT && sent_byte(payload, 4) <= LAST_VEHICLE_TYPE
        && sent_byte(payload, 5) <= LAST_AUTOPILOT && sent_byte(payload, 7) <= LAST_SYSTEM_STATUS
    ||| message_id == messages::ID_PARAM_REQUEST_READ
    ||| message_id == messages::ID_PARAM_SET && 1 <= sent_byte(payload, 22) <= LAST_PARAM_TYPE
    ||| message_id == messages::ID_COMMAND_LONG && sent_byte(payload, 28) + 0x100 * sent_byte(
        payload,
        29,
    ) == param_io::CMD_PREFLIGHT_STORAGE
    ||| message_id == messages::ID_SERIAL_CONTROL && sent_byte(payload, 6)
        == messages::SHELL_DEVICE
    ||| message_id == messages::ID_HIL_SENSOR
    ||| message_id == messages::ID_HIL_GPS
}

/// Whether `MavMessage::parse` reads a payload as a message of that number.
pub uninterp spec fn parses(message_id: u32, payload: Seq<u8>) -> bool;

/// Whether a payload is a message of that number: a well-filled one is, and of
/// any other the message's `parse` decides.
pub open spec fn is_message(message_id: u32, payload: Seq<u8>) -> bool {
    well_filled(message_id, payload) || parses(message_id, payload)
}

/// `MavMessage::parse`, for MAVLink 2: whether a payload is a message of that
/// number, and what it says if it is shell output. It depends on the number and
/// the payload alone. A short payload is filled up with zeros. The messages the
/// daemon sends are read whenever their enumerated fields hold values that
/// MAVLink defines; which other payloads are messages is not said.
#[verifier::external_body]
pub(crate) fn parse_message(message_id: u32, payload: &[u8]) -> (r: Option<Option<ShellData>>)
    ensures
        r is Some <==> is_message(message_id, payload@),
        r is Some <==> parses(message_id, payload@),
        r matches Some(s) ==> (s is Some <==> message_id == messages::ID_SERIAL_CONTROL),
        r matches Some(Some(s)) ==> s.count == shell_count(payload@) && s.data@ == shell_bytes(
            payload@,
        ),
{
    match MavMessage::parse(MavlinkVersion::V2, message_id, payload) {
        Ok(MavMessage::SERIAL_CONTROL(s)) => {
            Some(Some(ShellData { count: s.count, data: s.data.to_vec() }))
        },
        Ok(_) => Some(None),
        Err(_) => None,
    }
}

/// The frame of a message, as `mavlink::write_v2_msg` writes it.
pub uninterp spec fn written_frame(
    system_id: u8,
    component_id: u8,
    sequence: u8,
    message_id: u32,
    payload: Seq<u8>,
) -> Seq<u8>;

/// Whether this is the header of a frame.
pub open spec fn frame_header(
    f: Seq<u8>,
    system_id: u8,
    component_id: u8,
    sequence: u8,
    message_id: u32,
) -> bool {
    &&& f.len() >= FRAME_OVERHEAD
    &&& f.len() == FRAME_OVERHEAD + f[1]
    &&& f[0] == FRAME_START
    &&& f[2] == 0
    &&& f[3] == 0
    &&& f[4] == sequence
    &&& f[5] == system_id
    &&& f[6] == component_id
    &&& f[7] + 0x100 * f[8] + 0x1_0000 * f[9] == message_id
}

/// What a reader makes of a frame with this header.
pub open spec fn frame_read(
    f: Seq<u8>,
    system_id: u8,
    component_id: u8,
    sequence: u8,
    message_id: u32,
) -> FrameModel {
    FrameModel {
        system_id,
        component_id,
        sequence,
        message_id,
        payload: f.subrange(10, f.len() - 2),
        consumed: f.len() as int,
    }
}

/// Whether a frame is read first from any bytes that begin with it, and is used
/// up.
pub open spec fn reads_back(f: Seq<u8>, m: FrameModel) -> bool {
    forall|rest: Seq<u8>| #[trigger] first_frame(f + rest) == Some(m)
}

/// Whether two payloads say the same of the shell.
pub open spec fn same_shell_output(a: Seq<u8>, b: Seq<u8>) -> bool {
    shell_count(a) == shell_count(b) && shell_bytes(a) == shell_bytes(b)
}

/// `mavlink::write_v2_msg`, of the message that `MavMessage::parse` makes of
/// the payload; `None` when the payload is no message of that number. The frame
/// depends on the arguments alone, and its header is as MAVLink 2 has it.
/// `mavlink::read_v2_raw_message` reads it back, whatever follows it, and the
/// payload that it carries is the same message. Zeros at the end of the payload
/// are left out; the bytes of the payload and the checksum are not said.
/// Messages without fields, which the call cannot write, are not among those
/// the daemon sends.
#[verifier::external_body]
pub(crate) fn write_frame(
    system_id: u8,
    component_id: u8,
    sequence: u8,
    message_id: u32,
    payload: &[u8],
) -> (r: Option<Vec<u8>>)
    requires
        messages::is_sent(message_id),
    ensures
        r is Some <==> is_message(message_id, payload@),
        r matches Some(f) ==> {
            let read = frame_read(f@, system_id, component_id, sequence, message_id);
            &&& f@ == written_frame(system_id, component_id, sequence, message_id, payload@)
            &&& frame_header(f@, system_id, component_id, sequence, message_id)
            &&& reads_back(f@, read)
            &&& is_message(message_id, read.payload)
            &&& message_id == messages::ID_SERIAL_CONTROL ==> same_shell_output(
                read.payload,
                payload@,
            )
        },
{
    let message = MavMessage::parse(MavlinkVersion::V2, message_id, payload).ok()?;
    let mut frame = Vec::new();
    let header = MavHeader { system_id, component_id, sequence };
    mavlink::write_v2_msg(&mut frame, header, &message).ok()?;
    Some(frame)
}

/// A message that was read.
#[derive(Debug)]
pub struct Received {
    /// Its frame.
    pub frame: RawFrame,
    /// What it says, if it is shell output.
    pub shell: Option<ShellData>,
}

/// The first message in some bytes: their first sound frame, if its payload is
/// a message.
pub open spec fn first_message(b: Seq<u8>) -> Option<FrameModel> {
    match first_frame(b) {
        Some(f) => if is_message(f.message_id, f.payload) {
            Some(f)
        } else {
            None
        },
        None => None,
    }
}

/// Whether this is what a message says of the shell.
pub open spec fn says(shell: Option<ShellData>, f: FrameModel) -> bool {
    match shell {
        Some(s) => f.message_id == messages::ID_SERIAL_CONTROL && s.count == shell_count(f.payload)
            && s.data@ == shell_bytes(f.payload),
        None => f.message_id != messages::ID_SERIAL_CONTROL,
    }
}

/// The first message in some bytes.
pub fn read_message(b: &[u8]) -> (r: Option<Received>)
    ensures
        r is Some <==> first_message(b@) is Some,
        r matches Some(m) ==> {
            &&& first_message(b@) == Some(m.frame@)
            &&& FRAME_OVERHEAD <= m.frame.consumed <= b@.len()
            &&& says(m.shell, m.frame@)
        },
{
    match read_raw_frame(b) {
        Some(frame) => {
            match parse_message(frame.message_id, frame.payload.as_slice()) {
                Some(shell) => Some(Received { frame, shell }),
                None => None,
            }
        },
        None => None,
    }
}

/// The sequence number after another; they wrap.
pub open spec fn next_number(sequence: u8) -> u8 {
    if sequence == u8::MAX {
        0
    } else {
        (sequence + 1) as u8
    }
}

/// The frame of a payload, if it is a message of that number.
pub open spec fn frame_with(
    system_id: u8,
    component_id: u8,
    sequence: u8,
    message_id: u32,
    payload: Seq<u8>,
) -> Option<Seq<u8>> {
    if is_message(message_id, payload) {
        Some(written_frame(system_id, component_id, sequence, message_id, payload))
    } else {
        None
    }
}

/// The frame of a message to the flight controller.
pub open spec fn frame_of(system_id: u8, component_id: u8, sequence: u8, m: Outbound) -> Option<
    Seq<u8>,
> {
    frame_with(
        system_id,
        component_id,
        sequence,
        messages::id_of(m),
        messages::payload_of(m),
    )
}

/// Whether a message can be sent: a heartbeat or a command must be one that
/// MAVLink defines, and any other message can.
pub open spec fn sendable(m: Outbound) -> bool {
    match m {
        Outbound::Heartbeat(h) => h.vehicle_type <= LAST_VEHICLE_TYPE && h.autopilot
            <= LAST_AUTOPILOT && h.system_status <= LAST_SYSTEM_STATUS,
        Outbound::CommandLong(c) => c.command == param_io::CMD_PREFLIGHT_STORAGE,
        _ => true,
    }
}

/// Every message that can be sent has a frame.
pub proof fn law_sendable_messages_have_frames(
    system_id: u8,
    component_id: u8,
    sequence: u8,
    m: Outbound,
)
    requires
        sendable(m),
    ensures
        frame_of(system_id, component_id, sequence, m) is Some,
{
    let payload = messages::payload_of(m);
    match m {
        Outbound::Heartbeat(h) => {
            assert(payload[4] == h.vehicle_type);
            assert(payload[5] == h.autopilot);
            assert(payload[7] == h.system_status);
        },
        Outbound::ParamSet(p) => {
            assert(p.param_id@.len() == 16);
            assert(payload[22] == p.param_type.code());
        },
        Outbound::CommandLong(c) => {
            let word = bytes::u16_le(c.command);
            assert(payload[28] == word[0]);
            assert(payload[29] == word[1]);
            assert(word[0] + 0x100 * word[1] == c.command);
        },
        Outbound::SerialControl(_) => {
            assert(payload[6] == messages::SHELL_DEVICE);
        },
        _ => {},
    }
}

/// Numbers and writes frames.
#[derive(Clone, Copy, Debug, PartialEq, Eq, Structural)]
pub struct MavCodec {
    /// The next frame's sequence number.
    pub sequence: u8,
    /// Own system.
    pub system_id: u8,
    /// Own component.
    pub component_id: u8,
}

/// A codec before its first frame.
pub open spec fn first_number(system_id: u8, component_id: u8) -> MavCodec {
    MavCodec { sequence: 0, system_id, component_id }
}

/// A codec after it has used a sequence number.
pub open spec fn used_number(c: MavCodec) -> MavCodec {
    MavCodec { sequence: next_number(c.sequence), ..c }
}

impl MavCodec {
    /// A codec under the simulator's own ids.
    pub fn new() -> (r: MavCodec)
        ensures
            r == first_number(SYSTEM_ID, COMPONENT_ID),
    {
        MavCodec { sequence: 0, system_id: SYSTEM_ID, component_id: COMPONENT_ID }
    }

    /// A codec under other ids.
    pub fn with_ids(system_id: u8, component_id: u8) -> (r: MavCodec)
        ensures
            r == first_number(system_id, component_id),
    {
        MavCodec { sequence: 0, system_id, component_id }
    }

    /// The next frame's sequence number.
    pub fn sequence(&self) -> (r: u8)
        ensures
            r == self.sequence,
    {
        self.sequence
    }

    /// Take a sequence number.
    pub fn next_sequence(&mut self) -> (r: u8)
        ensures
            r == old(self).sequence,
            *final(self) == used_number(*old(self)),
    {
        let sequence: u8 = self.sequence;
        self.sequence = if sequence == u8::MAX {
            0
        } else {
            sequence + 1
        };
        sequence
    }

    /// The frame of a message. The sequence number is used up whether or not
    /// there is a frame.
    pub fn send(&mut self, m: &Outbound) -> (r: Option<Vec<u8>>)
        ensures
            *final(self) == used_number(*old(self)),
            ({
                let c = *old(self);
                let frame = frame_of(c.system_id, c.component_id, c.sequence, *m);
                &&& r is Some <==> frame is Some
                &&& sendable(*m) ==> r is Some
                &&& r matches Some(f) ==> {
                    let id = messages::id_of(*m);
                    let read = frame_read(f@, c.system_id, c.component_id, c.sequence, id);
                    &&& frame == Some(f@)
                    &&& frame_header(f@, c.system_id, c.component_id, c.sequence, id)
                    &&& reads_back(f@, read)
                    &&& is_message(id, read.payload)
                    &&& m is SerialControl ==> same_shell_output(
                        read.payload,
                        messages::payload_of(*m),
                    )
                }
            }),
    {
        proof {
            if sendable(*m) {
                law_sendable_messages_have_frames(
                    self.system_id,
                    self.component_id,
                    self.sequence,
                    *m,
                );
            }
        }
        let payload: Vec<u8> = m.payload();
        let sequence: u8 = self.next_sequence();
        write_frame(
            self.system_id,
            self.component_id,
            sequence,
            m.message_id(),
            payload.as_slice(),
        )
    }
}

impl Default for MavCodec {
    fn default() -> (r: MavCodec)
        ensures
            r == first_number(SYSTEM_ID, COMPONENT_ID),
    {
        MavCodec::new()
    }
}

/// A sequence number is followed by the next one, and the last by the first.
pub proof fn law_sequence_numbers_wrap(sequence: u8)
    ensures
        next_number(sequence) == (sequence + 1) % 256,
{
}

/// Frames are numbered one after another, under the same ids.
pub proof fn law_frames_are_numbered_in_turn(c: MavCodec)
    ensures
        used_number(c).sequence == (c.sequence + 1) % 256,
        used_number(c).system_id == c.system_id,
        used_number(c).component_id == c.component_id,
        first_number(c.system_id, c.component_id).sequence == 0,
        first_number(c.system_id, c.component_id).system_id == c.system_id,
        first_number(c.system_id, c.component_id).component_id == c.component_id,
        SYSTEM_ID == 1,
        COMPONENT_ID == 1,
{
}

/// Shell output stands in its message: the count in the ninth byte, the output
/// behind it. What was left out at the end of a payload is zeros.
pub proof fn law_where_shell_output_stands(payload: Seq<u8>, i: int)
    requires
        0 <= i < 70,
    ensures
        shell_bytes(payload).len() == 70,
        payload.len() > 8 ==> shell_count(payload) == payload[8],
        payload.len() <= 8 ==> shell_count(payload) == 0,
        payload.len() > 9 + i ==> shell_bytes(payload)[i] == payload[9 + i],
        payload.len() <= 9 + i ==> shell_bytes(payload)[i] == 0,
{
}

/// A sound frame that is a message is the message that is read; any other is
/// not.
pub proof fn law_which_frame_is_read(b: Seq<u8>, f: FrameModel)
    ensures
        first_frame(b) is None ==> first_message(b) is None,
        first_frame(b) == Some(f) && is_message(f.message_id, f.payload) ==> first_message(b)
            == Some(f),
        first_frame(b) == Some(f) && !is_message(f.message_id, f.payload) ==> first_message(b)
            is None,
{
}

/// Only shell output says anything of the shell: its count and its bytes.
pub proof fn law_what_says_something_of_the_shell(shell: Option<ShellData>, f: FrameModel)
    requires
        says(shell, f),
    ensures
        shell is Some <==> f.message_id == 126,
        shell matches Some(s) ==> s.count == sent_byte(f.payload, 8) && s.data@.len() == 70,
        shell matches Some(s) ==> forall|i: int|
            0 <= i < 70 ==> #[trigger] s.data@[i] == sent_byte(f.payload, 9 + i),
{
}

/// Which messages can always be sent.
pub proof fn law_which_messages_can_be_sent(m: Outbound)
    ensures
        m matches Outbound::Heartbeat(h) ==> (sendable(m) <==> h.vehicle_type <= 42 && h.autopilot
            <= 20 && h.system_status <= 8),
        m matches Outbound::CommandLong(c) ==> (sendable(m) <==> c.command == 245),
        !(m is Heartbeat || m is CommandLong) ==> sendable(m),
{
}

} // verus!
