//! The link to the flight controller: what the reader hands on and what the
//! writer sends when.
use crate::bytes;
use crate::bytes::{copy_range, push_bytes};
use crate::mavlink_io::codec;
use crate::mavlink_io::codec::{read_message, MavCodec, RawFrame, Received, ShellData};
use crate::mavlink_io::heartbeat;
use crate::mavlink_io::heartbeat::HeartbeatManager;
use crate::mavlink_io::messages;
use crate::mavlink_io::messages::{Outbound, SerialControl, COMPONENT_ID, SYSTEM_ID};
use crate::mavlink_io::serial;
use vstd::prelude::*;

verus! {

/// Messages that may wait in either direction.
pub const CHANNEL_BUFFER_SIZE: usize = 256;

/// Shell requests that may wait.
pub const NSH_REQUEST_BUFFER_SIZE: usize = 32;

/// Shell replies that may wait.
pub const NSH_RESPONSE_BUFFER_SIZE: usize = 64;

/// First delay before reconnecting, in milliseconds.
pub const RECONNECT_BASE_DELAY_MS: u64 = 250;

/// Longest delay before reconnecting, in milliseconds.
pub const RECONNECT_MAX_DELAY_MS: u64 = 1000;

/// Reconnection attempts.
pub const RECONNECT_MAX_ATTEMPTS: u8 = 255;

/// Fewer bytes are not worth looking at.
pub const SHORTEST_READ: usize = 8;

/// How often the daemon's own heartbeat goes out, in milliseconds. PX4 does
/// not talk to a ground station that is silent.
pub const BEAT_INTERVAL_MS: u64 = 1000;

/// How long an idle writer rests, in microseconds.
pub const IDLE_PAUSE_US: u64 = 100;

/// The state of the serial connection, as clients are told.
#[derive(Clone, Debug, PartialEq)]
pub struct SerialConnectionState {
    /// Whether the board is connected.
    pub connected: bool,
    /// Whether the daemon is trying to reconnect.
    pub reconnecting: bool,
    /// Attempts so far; zero when connected.
    pub retry_count: u8,
    /// The port; empty when not connected.
    pub port: String,
}

/// Bytes for the shell.
#[derive(Clone, Debug)]
pub struct NshRequest {
    /// Number of the request.
    pub request_id: u32,
    /// The bytes.
    pub data: Vec<u8>,
    /// How long the board may take to reply, in milliseconds.
    pub timeout_ms: u16,
}

/// Bytes from the shell.
#[derive(Clone, Debug)]
pub struct NshResponseData {
    /// Number of the request; zero, the application knows which one is open.
    pub request_id: u32,
    /// The bytes.
    pub data: Vec<u8>,
    /// Whether the reply is complete.
    pub complete: bool,
}

/// The delay before a reconnection attempt.
pub open spec fn delay_before(attempt: u8) -> u64 {
    if attempt == 0 {
        RECONNECT_BASE_DELAY_MS
    } else if attempt == 1 {
        (2 * RECONNECT_BASE_DELAY_MS) as u64
    } else {
        RECONNECT_MAX_DELAY_MS
    }
}

/// The delay before a reconnection attempt: doubling from the base delay, up to
/// the longest one.
pub fn reconnect_delay(attempt: u8) -> (r: u64)
    ensures
        r == delay_before(attempt),
{
    if attempt == 0 {
        RECONNECT_BASE_DELAY_MS
    } else if attempt == 1 {
        2 * RECONNECT_BASE_DELAY_MS
    } else {
        RECONNECT_MAX_DELAY_MS
    }
}

/// How many of a message's shell bytes count.
pub open spec fn shell_len(count: u8) -> int {
    if count < messages::SHELL_CHUNK {
        count as int
    } else {
        messages::SHELL_CHUNK as int
    }
}

/// Whether this is the reply that shell output makes. Only a count of zero ends
/// a reply: a message in the middle of one may be short.
pub open spec fn replies(r: NshResponseData, count: u8, data: Seq<u8>) -> bool {
    &&& r.request_id == 0
    &&& r.data@ == data.take(shell_len(count))
    &&& r.complete == (count == 0)
}

fn reply_of(s: &ShellData) -> (r: NshResponseData)
    requires
        s.data@.len() == messages::SHELL_CHUNK,
    ensures
        replies(r, s.count, s.data@),
        r.data@.len() > 0 || r.complete,
{
    let len: usize = if (s.count as usize) < messages::SHELL_CHUNK {
        s.count as usize
    } else {
        messages::SHELL_CHUNK
    };
    let data: Vec<u8> = copy_range(s.data.as_slice(), 0, len);
    assert(data@ =~= s.data@.take(shell_len(s.count)));
    NshResponseData { request_id: 0, data, complete: s.count == 0 }
}

/// The first message in what was read, once there is enough of it.
pub open spec fn next_message(b: Seq<u8>) -> Option<codec::FrameModel> {
    if b.len() < SHORTEST_READ {
        None
    } else {
        codec::first_message(b)
    }
}

/// The messages in what was read, in order, and what is left of it.
pub open spec fn drained(b: Seq<u8>) -> (Seq<codec::FrameModel>, Seq<u8>)
    decreases b.len(),
{
    match next_message(b) {
        Some(f) => if 0 < f.consumed <= b.len() {
            let (rest, left) = drained(b.skip(f.consumed));
            (seq![f] + rest, left)
        } else {
            (Seq::empty(), b)
        },
        None => (Seq::empty(), b),
    }
}

/// A message from the flight controller.
#[derive(Debug)]
pub struct Arrival {
    /// Its frame.
    pub frame: RawFrame,
    /// The shell reply it makes, which is handed on before the message itself.
    pub reply: Option<NshResponseData>,
}

/// The frames of some arrivals.
pub open spec fn frames(arrivals: Seq<Arrival>) -> Seq<codec::FrameModel> {
    arrivals.map_values(|a: Arrival| a.frame@)
}

/// Whether the shell reply of an arrival is the one its message makes; only
/// shell output makes one.
pub open spec fn sound_arrival(a: Arrival) -> bool {
    match a.reply {
        Some(r) => a.frame.message_id == messages::ID_SERIAL_CONTROL && replies(
            r,
            codec::shell_count(a.frame.payload@),
            codec::shell_bytes(a.frame.payload@),
        ),
        None => a.frame.message_id != messages::ID_SERIAL_CONTROL,
    }
}

/// Gathers what is read from the port into messages.
#[derive(Debug)]
pub struct FrameReader {
    pending: Vec<u8>,
    packets: u32,
}

/// What a reader holds.
pub ghost struct ReaderModel {
    pub pending: Seq<u8>,
    pub packets: u32,
}

impl View for FrameReader {
    type V = ReaderModel;

    closed spec fn view(&self) -> ReaderModel {
        ReaderModel { pending: self.pending@, packets: self.packets }
    }
}

/// A packet count after `n` more packets; it wraps.
pub open spec fn counted_packets(packets: u32, n: nat) -> u32 {
    ((packets + n) % 0x1_0000_0000) as u32
}

/// The first message in a reader's bytes.
pub fn try_parse_message(b: &[u8]) -> (r: Option<Received>)
    ensures
        r is Some <==> next_message(b@) is Some,
        r matches Some(m) ==> {
            &&& next_message(b@) == Some(m.frame@)
            &&& codec::FRAME_OVERHEAD <= m.frame.consumed <= b@.len()
            &&& codec::says(m.shell, m.frame@)
        },
{
    if b.len() < SHORTEST_READ {
        None
    } else {
        read_message(b)
    }
}

impl FrameReader {
    /// A reader before anything was read.
    pub fn new() -> (r: FrameReader)
        ensures
            r@.pending.len() == 0,
            r@.packets == 0,
    {
        FrameReader { pending: Vec::new(), packets: 0 }
    }

    /// Some bytes were read: the messages that are now complete.
    pub fn feed(&mut self, chunk: &[u8]) -> (r: Vec<Arrival>)
        ensures
            ({
                let (found, left) = drained(old(self)@.pending + chunk@);
                &&& frames(r@) == found
                &&& final(self)@.pending == left
                &&& final(self)@.packets == counted_packets(old(self)@.packets, found.len())
                &&& forall|i: int| 0 <= i < r@.len() ==> sound_arrival(#[trigger] r@[i])
            }),
    {
        let ghost start = self.pending@ + chunk@;
        let ghost packets = self.packets;
        push_bytes(&mut self.pending, chunk);
        let mut arrivals: Vec<Arrival> = Vec::new();
        let ghost whole = drained(start);
        assert(frames(arrivals@) + drained(start).0 =~= whole.0);
        assert(frames(arrivals@).len() == 0);
        let mut next: Option<Received> = try_parse_message(self.pending.as_slice());
        while next.is_some()
            invariant
                frames(arrivals@) + drained(self.pending@).0 == whole.0,
                drained(self.pending@).1 == whole.1,
                self.packets == counted_packets(packets, arrivals@.len()),
                forall|i: int| 0 <= i < arrivals@.len() ==> sound_arrival(#[trigger] arrivals@[i]),
                next is Some <==> next_message(self.pending@) is Some,
                next matches Some(m) ==> {
                    &&& next_message(self.pending@) == Some(m.frame@)
                    &&& codec::FRAME_OVERHEAD <= m.frame.consumed <= self.pending@.len()
                    &&& codec::says(m.shell, m.frame@)
                },
            decreases self.pending@.len(),
        {
            match next {
                Some(m) => {
                    let ghost before = self.pending@;
                    let ghost listed = frames(arrivals@);
                    let left: Vec<u8> = copy_range(
                        self.pending.as_slice(),
                        m.frame.consumed,
                        self.pending.len(),
                    );
                    assert(left@ =~= before.skip(m.frame.consumed as int));
                    self.pending = left;
                    self.packets = if self.packets == u32::MAX {
                        0
                    } else {
                        self.packets + 1
                    };
                    let reply: Option<NshResponseData> = match &m.shell {
                        Some(s) => Some(reply_of(s)),
                        None => None,
                    };
                    let ghost f = m.frame@;
                    arrivals.push(Arrival { frame: m.frame, reply });
                    assert(frames(arrivals@) =~= listed.push(f));
                    assert(frames(arrivals@) + drained(self.pending@).0 =~= listed + (seq![f]
                        + drained(self.pending@).0));
                },
                None => {},
            }
            next = try_parse_message(self.pending.as_slice());
        }
        assert(frames(arrivals@) + Seq::<codec::FrameModel>::empty() =~= frames(arrivals@));
        arrivals
    }

    /// The packets since the last call.
    pub fn take_packet_count(&mut self) -> (r: u32)
        ensures
            r == old(self)@.packets,
            final(self)@ == (ReaderModel { packets: 0, ..old(self)@ }),
    {
        let packets: u32 = self.packets;
        self.packets = 0;
        packets
    }
}

/// What a reader keeps is the end of what it was given: bytes are used up in
/// order, and none is kept that belongs to a message already handed on.
pub proof fn law_the_rest_is_the_end_of_what_was_read(b: Seq<u8>)
    ensures
        drained(b).1.len() <= b.len(),
        drained(b).1 == b.skip(b.len() - drained(b).1.len()),
        next_message(drained(b).1) matches Some(f) ==> !(0 < f.consumed <= drained(b).1.len()),
    decreases b.len(),
{
    match next_message(b) {
        Some(f) => if 0 < f.consumed <= b.len() {
            let rest = b.skip(f.consumed);
            law_the_rest_is_the_end_of_what_was_read(rest);
            let left = drained(b).1;
            assert(rest.skip(rest.len() - left.len()) =~= b.skip(b.len() - left.len()));
        } else {
            assert(b.skip(0) =~= b);
        },
        None => {
            assert(b.skip(0) =~= b);
        },
    }
}

/// The end of a piece of shell input that starts at `at`.
pub open spec fn piece_end(len: int, at: int) -> int {
    if at + messages::SHELL_CHUNK < len {
        at + messages::SHELL_CHUNK
    } else {
        len
    }
}

/// A piece of shell input, filled up with zeros.
pub open spec fn filled(piece: Seq<u8>) -> Seq<u8> {
    Seq::new(
        messages::SHELL_CHUNK as nat,
        |i: int|
            if i < piece.len() {
                piece[i]
            } else {
                0u8
            },
    )
}

/// The payload of a piece of shell input.
pub open spec fn shell_payload(timeout_ms: u16, piece: Seq<u8>) -> Seq<u8> {
    bytes::u32_le(0) + bytes::u16_le(timeout_ms) + seq![
        messages::SHELL_DEVICE,
        messages::SHELL_FLAGS,
        piece.len() as u8,
    ] + filled(piece)
}

/// The frame of a piece of shell input.
pub open spec fn shell_frame(sequence: u8, timeout_ms: u16, piece: Seq<u8>) -> Option<Seq<u8>> {
    codec::frame_with(
        SYSTEM_ID,
        COMPONENT_ID,
        sequence,
        messages::ID_SERIAL_CONTROL,
        shell_payload(timeout_ms, piece),
    )
}

/// The next frame of some shell input from `at` on, with the sequence number
/// and the place after it; a piece without a frame is passed over.
pub open spec fn shell_next(sequence: u8, data: Seq<u8>, at: int, timeout_ms: u16) -> (
    u8,
    int,
    Option<Seq<u8>>,
)
    decreases data.len() - at,
{
    if at < 0 || at >= data.len() {
        (sequence, at, None)
    } else {
        let end = piece_end(data.len() as int, at);
        match shell_frame(sequence, timeout_ms, data.subrange(at, end)) {
            Some(f) => (codec::next_number(sequence), end, Some(f)),
            None => shell_next(codec::next_number(sequence), data, end, timeout_ms),
        }
    }
}

/// The pieces of some shell input from `at` on.
pub open spec fn pieces(data: Seq<u8>, at: int) -> Seq<Seq<u8>>
    decreases data.len() - at,
{
    if at < 0 || at >= data.len() {
        Seq::empty()
    } else {
        let end = piece_end(data.len() as int, at);
        seq![data.subrange(at, end)] + pieces(data, end)
    }
}

/// Some pieces put together again.
pub open spec fn put_together(parts: Seq<Seq<u8>>) -> Seq<u8>
    decreases parts.len(),
{
    if parts.len() == 0 {
        Seq::empty()
    } else {
        parts[0] + put_together(parts.skip(1))
    }
}

/// The pieces of some shell input carry all of it, in order, and each fits its
/// message.
pub proof fn law_shell_pieces_carry_the_whole_input(data: Seq<u8>, at: int)
    requires
        0 <= at <= data.len(),
    ensures
        put_together(pieces(data, at)) == data.skip(at),
        forall|i: int|
            0 <= i < pieces(data, at).len() ==> 0 < (#[trigger] pieces(data, at)[i]).len()
                <= messages::SHELL_CHUNK,
    decreases data.len() - at,
{
    if at < data.len() {
        let end = piece_end(data.len() as int, at);
        law_shell_pieces_carry_the_whole_input(data, end);
        let all = pieces(data, at);
        let rest = pieces(data, end);
        assert(all.skip(1) =~= rest);
        assert(all[0] == data.subrange(at, end));
        assert(data.subrange(at, end) + data.skip(end) =~= data.skip(at));
        assert forall|i: int| 0 <= i < all.len() implies 0 < (#[trigger] all[i]).len()
            <= messages::SHELL_CHUNK by {
            if i > 0 {
                assert(all[i] == rest[i - 1]);
            }
        }
    } else {
        assert(data.skip(at) =~= Seq::empty());
    }
}

/// What a writer is waiting for.
#[derive(Clone, Copy, Debug, PartialEq, Eq, Structural)]
pub enum WriterPhase {
    /// The first heartbeat is being written.
    Starting,
    /// The next turn.
    Turning,
    /// A heartbeat is being written.
    Beating,
    /// Shell input.
    Shell,
    /// A piece of shell input is being written.
    Typing,
    /// A message.
    Messages,
    /// A message is being written.
    Sending,
    /// Nothing more.
    Stopped,
}

/// What happens to a writer.
#[derive(Debug)]
pub enum WriterEvent {
    /// A turn begins.
    Turn {
        /// Whether the link is to be shut down.
        shutdown: bool,
        /// The time.
        now_ms: u64,
    },
    /// A write has ended.
    Written {
        /// Whether it succeeded.
        ok: bool,
        /// The time.
        now_ms: u64,
    },
    /// The shell input that waits, if any.
    Shell(Option<NshRequest>),
    /// The message that waits.
    Message(Outbound),
    /// No message waits.
    Idle,
    /// Nobody can send messages any more.
    Disconnected,
}

/// What a writer does.
#[derive(Debug)]
pub enum WriterStep {
    /// Write a frame.
    Write(Vec<u8>),
    /// Begin the next turn.
    NextTurn,
    /// Look for shell input.
    PollShell,
    /// Look for a message.
    PollMessages,
    /// Rest for so many microseconds, then begin the next turn.
    Pause(u64),
    /// Stop, and let the rest of the daemon know that the link is gone.
    Stop,
}

/// What a writer does, as a value.
pub ghost enum StepModel {
    Write(Seq<u8>),
    NextTurn,
    PollShell,
    PollMessages,
    Pause(u64),
    Stop,
}

impl View for WriterStep {
    type V = StepModel;

    open spec fn view(&self) -> StepModel {
        match *self {
            WriterStep::Write(f) => StepModel::Write(f@),
            WriterStep::NextTurn => StepModel::NextTurn,
            WriterStep::PollShell => StepModel::PollShell,
            WriterStep::PollMessages => StepModel::PollMessages,
            WriterStep::Pause(us) => StepModel::Pause(us),
            WriterStep::Stop => StepModel::Stop,
        }
    }
}

/// Decides what is written to the port, and when.
#[derive(Debug)]
pub struct LinkWriter {
    codec: MavCodec,
    last_beat_ms: u64,
    phase: WriterPhase,
    input: Vec<u8>,
    at: usize,
    timeout_ms: u16,
}

/// The state of a writer.
pub ghost struct WriterModel {
    pub system_id: u8,
    pub component_id: u8,
    pub sequence: u8,
    pub last_beat_ms: u64,
    pub phase: WriterPhase,
    pub input: Seq<u8>,
    pub at: int,
    pub timeout_ms: u16,
}

/// The daemon's own heartbeat.
pub open spec fn beat() -> Outbound {
    Outbound::Heartbeat(heartbeat::daemon_heartbeat())
}

/// The frame of a message at a sequence number.
pub open spec fn link_frame(sequence: u8, m: Outbound) -> Option<Seq<u8>> {
    codec::frame_of(SYSTEM_ID, COMPONENT_ID, sequence, m)
}

/// A writer that has stopped.
pub open spec fn stopped(s: WriterModel) -> (WriterModel, StepModel) {
    (WriterModel { phase: WriterPhase::Stopped, ..s }, StepModel::Stop)
}

/// A writer that begins a turn.
pub open spec fn turning(s: WriterModel) -> (WriterModel, StepModel) {
    (WriterModel { phase: WriterPhase::Turning, ..s }, StepModel::NextTurn)
}

/// A writer that goes on with its shell input, or with messages when there is
/// none left.
pub open spec fn typing(s: WriterModel) -> (WriterModel, StepModel) {
    let (sequence, at, frame) = shell_next(s.sequence, s.input, s.at, s.timeout_ms);
    match frame {
        Some(f) => (
            WriterModel { sequence, at, phase: WriterPhase::Typing, ..s },
            StepModel::Write(f),
        ),
        None => (
            WriterModel { sequence, at, phase: WriterPhase::Messages, ..s },
            StepModel::PollMessages,
        ),
    }
}

/// A writer that starts: its first heartbeat goes out at once.
pub open spec fn writer_start(now_ms: u64) -> (WriterModel, StepModel) {
    let s = WriterModel {
        system_id: SYSTEM_ID,
        component_id: COMPONENT_ID,
        sequence: codec::next_number(0),
        last_beat_ms: now_ms,
        phase: WriterPhase::Starting,
        input: Seq::empty(),
        at: 0,
        timeout_ms: 0,
    };
    match link_frame(0, beat()) {
        Some(f) => (s, StepModel::Write(f)),
        None => turning(s),
    }
}

/// A writer and what it does after an event; an event that it is not waiting
/// for stops it.
///
/// A heartbeat or a message that cannot be written stops the writer; shell
/// input that cannot be written is dropped. A message without a frame costs its
/// sequence number and the rest of the turn.
pub open spec fn writer_after(s: WriterModel, e: WriterEvent) -> (WriterModel, StepModel) {
    match (s.phase, e) {
        (WriterPhase::Starting, WriterEvent::Written { ok: _, now_ms: _ }) => turning(s),
        (WriterPhase::Turning, WriterEvent::Turn { shutdown, now_ms }) => if shutdown {
            stopped(s)
        } else if now_ms - s.last_beat_ms >= BEAT_INTERVAL_MS {
            let next = WriterModel { sequence: codec::next_number(s.sequence), ..s };
            match link_frame(s.sequence, beat()) {
                Some(f) => (
                    WriterModel { phase: WriterPhase::Beating, ..next },
                    StepModel::Write(f),
                ),
                None => (
                    WriterModel { phase: WriterPhase::Shell, last_beat_ms: now_ms, ..next },
                    StepModel::PollShell,
                ),
            }
        } else {
            (WriterModel { phase: WriterPhase::Shell, ..s }, StepModel::PollShell)
        },
        (WriterPhase::Beating, WriterEvent::Written { ok, now_ms }) => if ok {
            (
                WriterModel { phase: WriterPhase::Shell, last_beat_ms: now_ms, ..s },
                StepModel::PollShell,
            )
        } else {
            stopped(s)
        },
        (WriterPhase::Shell, WriterEvent::Shell(Some(request))) => typing(
            WriterModel { input: request.data@, at: 0, timeout_ms: request.timeout_ms, ..s },
        ),
        (WriterPhase::Shell, WriterEvent::Shell(None)) => (
            WriterModel { phase: WriterPhase::Messages, ..s },
            StepModel::PollMessages,
        ),
        (WriterPhase::Typing, WriterEvent::Written { ok, now_ms: _ }) => if ok {
            typing(s)
        } else {
            (WriterModel { phase: WriterPhase::Messages, ..s }, StepModel::PollMessages)
        },
        (WriterPhase::Messages, WriterEvent::Message(m)) => {
            let next = WriterModel { sequence: codec::next_number(s.sequence), ..s };
            match link_frame(s.sequence, m) {
                Some(f) => (
                    WriterModel { phase: WriterPhase::Sending, ..next },
                    StepModel::Write(f),
                ),
                None => turning(next),
            }
        },
        (WriterPhase::Messages, WriterEvent::Idle) => (
            WriterModel { phase: WriterPhase::Turning, ..s },
            StepModel::Pause(IDLE_PAUSE_US),
        ),
        (WriterPhase::Sending, WriterEvent::Written { ok, now_ms: _ }) => if ok {
            turning(s)
        } else {
            stopped(s)
        },
        _ => stopped(s),
    }
}

/// The number of the message that a writer sends on an event, if it sends one.
pub open spec fn sent_id(phase: WriterPhase, e: WriterEvent) -> u32 {
    match (phase, e) {
        (WriterPhase::Turning, _) => messages::ID_HEARTBEAT,
        (WriterPhase::Messages, WriterEvent::Message(m)) => messages::id_of(m),
        _ => messages::ID_SERIAL_CONTROL,
    }
}

/// Whether this is a frame of the daemon's with a message of this number, which
/// a reader finds whatever follows it.
pub open spec fn is_sent_frame(f: Seq<u8>, message_id: u32) -> bool {
    &&& codec::frame_header(f, SYSTEM_ID, COMPONENT_ID, f[4], message_id)
    &&& codec::reads_back(
        f,
        codec::frame_read(f, SYSTEM_ID, COMPONENT_ID, f[4], message_id),
    )
}

impl View for LinkWriter {
    type V = WriterModel;

    closed spec fn view(&self) -> WriterModel {
        WriterModel {
            system_id: self.codec.system_id,
            component_id: self.codec.component_id,
            sequence: self.codec.sequence,
            last_beat_ms: self.last_beat_ms,
            phase: self.phase,
            input: self.input@,
            at: self.at as int,
            timeout_ms: self.timeout_ms,
        }
    }
}

impl LinkWriter {
    /// Whether the writer speaks under the simulator's own ids and is within
    /// its input.
    pub open spec fn wf(self) -> bool {
        &&& self@.system_id == SYSTEM_ID
        &&& self@.component_id == COMPONENT_ID
        &&& 0 <= self@.at <= self@.input.len()
    }

    /// A writer that starts, and the first thing it does.
    pub fn start(now_ms: u64) -> (r: (LinkWriter, WriterStep))
        ensures
            r.0.wf(),
            (r.0@, r.1@) == writer_start(now_ms),
            r.1 matches WriterStep::Write(f) && {
                &&& is_sent_frame(f@, messages::ID_HEARTBEAT)
                &&& f@[4] == 0
            },
    {
        let mut codec: MavCodec = MavCodec::new();
        let frame: Option<Vec<u8>> = serialize_heartbeat(&mut codec);
        let mut w = LinkWriter {
            codec,
            last_beat_ms: now_ms,
            phase: WriterPhase::Starting,
            input: Vec::new(),
            at: 0,
            timeout_ms: 0,
        };
        assert(w@.input =~= Seq::<u8>::empty());
        match frame {
            Some(f) => (w, WriterStep::Write(f)),
            None => {
                w.phase = WriterPhase::Turning;
                (w, WriterStep::NextTurn)
            },
        }
    }

    fn go_on_typing(&mut self) -> (r: WriterStep)
        requires
            old(self).wf(),
        ensures
            final(self).wf(),
            (final(self)@, r@) == typing(old(self)@),
            r matches WriterStep::Write(f) ==> {
                &&& is_sent_frame(f@, messages::ID_SERIAL_CONTROL)
                &&& codec::next_number(f@[4]) == final(self)@.sequence
            },
    {
        let ghost s = self@;
        while self.at < self.input.len()
            invariant
                s == old(self)@,
                self.wf(),
                self@ == (WriterModel { sequence: self@.sequence, at: self@.at, ..s }),
                shell_next(self@.sequence, s.input, self@.at, s.timeout_ms) == shell_next(
                    s.sequence,
                    s.input,
                    s.at,
                    s.timeout_ms,
                ),
            decreases self.input@.len() - self.at,
        {
            let end: usize = if self.input.len() - self.at > messages::SHELL_CHUNK {
                self.at + messages::SHELL_CHUNK
            } else {
                self.input.len()
            };
            let ghost piece = self.input@.subrange(self.at as int, end as int);
            let mut data: [u8; 70] = [0u8;70];
            let count: usize = end - self.at;
            let mut i: usize = 0;
            while i < count
                invariant
                    i <= count,
                    count <= 70,
                    self.at + count <= self.input@.len(),
                    piece == self.input@.subrange(self.at as int, self.at + count),
                    forall|k: int| 0 <= k < i ==> #[trigger] data@[k] == piece[k],
                    forall|k: int| i <= k < 70 ==> #[trigger] data@[k] == 0,
                decreases count - i,
            {
                assert(self.at + i < self.input.len());
                data[i] = self.input[self.at + i];
                i = i + 1;
            }
            let message = Outbound::SerialControl(
                SerialControl { timeout: self.timeout_ms, count: count as u8, data },
            );
            assert(data@ =~= filled(piece));
            assert(messages::payload_of(message) =~= shell_payload(self.timeout_ms, piece));
            let frame: Option<Vec<u8>> = self.codec.send(&message);
            self.at = end;
            match frame {
                Some(f) => {
                    self.phase = WriterPhase::Typing;
                    return WriterStep::Write(f);
                },
                None => {},
            }
        }
        self.phase = WriterPhase::Messages;
        WriterStep::PollMessages
    }

    /// What to do about an event. A frame carries the daemon's ids, the number
    /// of its message, and the sequence number before the one that is next.
    pub fn on_event(&mut self, e: WriterEvent) -> (r: WriterStep)
        requires
            old(self).wf(),
        ensures
            final(self).wf(),
            (final(self)@, r@) == writer_after(old(self)@, e),
            r matches WriterStep::Write(f) ==> {
                &&& is_sent_frame(f@, sent_id(old(self)@.phase, e))
                &&& codec::next_number(f@[4]) == final(self)@.sequence
            },
    {
        match (self.phase, e) {
            (WriterPhase::Starting, WriterEvent::Written { ok: _, now_ms: _ }) => {
                self.phase = WriterPhase::Turning;
                WriterStep::NextTurn
            },
            (WriterPhase::Turning, WriterEvent::Turn { shutdown, now_ms }) => {
                if shutdown {
                    self.phase = WriterPhase::Stopped;
                    return WriterStep::Stop;
                }
                if now_ms >= self.last_beat_ms && now_ms - self.last_beat_ms >= BEAT_INTERVAL_MS {
                    match serialize_heartbeat(&mut self.codec) {
                        Some(f) => {
                            self.phase = WriterPhase::Beating;
                            return WriterStep::Write(f);
                        },
                        None => {
                            self.last_beat_ms = now_ms;
                        },
                    }
                }
                self.phase = WriterPhase::Shell;
                WriterStep::PollShell
            },
            (WriterPhase::Beating, WriterEvent::Written { ok, now_ms }) => {
                if ok {
                    self.last_beat_ms = now_ms;
                    self.phase = WriterPhase::Shell;
                    WriterStep::PollShell
                } else {
                    self.phase = WriterPhase::Stopped;
                    WriterStep::Stop
                }
            },
            (WriterPhase::Shell, WriterEvent::Shell(Some(request))) => {
                self.input = request.data;
                self.at = 0;
                self.timeout_ms = request.timeout_ms;
                self.go_on_typing()
            },
            (WriterPhase::Shell, WriterEvent::Shell(None)) => {
                self.phase = WriterPhase::Messages;
                WriterStep::PollMessages
            },
            (WriterPhase::Typing, WriterEvent::Written { ok, now_ms: _ }) => {
                if ok {
                    self.go_on_typing()
                } else {
                    self.phase = WriterPhase::Messages;
                    WriterStep::PollMessages
                }
            },
            (WriterPhase::Messages, WriterEvent::Message(m)) => {
                match self.codec.send(&m) {
                    Some(f) => {
                        self.phase = WriterPhase::Sending;
                        WriterStep::Write(f)
                    },
                    None => {
                        self.phase = WriterPhase::Turning;
                        WriterStep::NextTurn
                    },
                }
            },
            (WriterPhase::Messages, WriterEvent::Idle) => {
                self.phase = WriterPhase::Turning;
                WriterStep::Pause(IDLE_PAUSE_US)
            },
            (WriterPhase::Sending, WriterEvent::Written { ok, now_ms: _ }) => {
                if ok {
                    self.phase = WriterPhase::Turning;
                    WriterStep::NextTurn
                } else {
                    self.phase = WriterPhase::Stopped;
                    WriterStep::Stop
                }
            },
            _ => {
                self.phase = WriterPhase::Stopped;
                WriterStep::Stop
            },
        }
    }
}

/// The daemon's own heartbeat at a sequence number: what a probe of the port
/// would recognise.
pub fn serialize_heartbeat(codec: &mut MavCodec) -> (r: Option<Vec<u8>>)
    ensures
        *final(codec) == codec::used_number(*old(codec)),
        ({
            let c = *old(codec);
            let frame = codec::frame_of(c.system_id, c.component_id, c.sequence, beat());
            &&& r is Some
            &&& r matches Some(f) ==> {
                &&& frame == Some(f@)
                &&& codec::frame_header(
                    f@,
                    c.system_id,
                    c.component_id,
                    c.sequence,
                    messages::ID_HEARTBEAT,
                )
                &&& codec::reads_back(
                    f@,
                    codec::frame_read(
                        f@,
                        c.system_id,
                        c.component_id,
                        c.sequence,
                        messages::ID_HEARTBEAT,
                    ),
                )
                &&& serial::holds_heartbeat(f@)
            }
        }),
{
    let r: Option<Vec<u8>> = codec.send(&Outbound::Heartbeat(HeartbeatManager::make_heartbeat()));
    match &r {
        Some(f) => {
            assert(serial::heartbeat_at(f@, 0));
        },
        None => {},
    }
    r
}

/// A heartbeat that is due goes out before anything else is sent in the turn,
/// and nothing but a shutdown comes before it.
pub proof fn law_a_due_heartbeat_goes_first(s: WriterModel, now_ms: u64)
    requires
        s.phase is Turning,
        now_ms - s.last_beat_ms >= BEAT_INTERVAL_MS,
    ensures
        link_frame(s.sequence, beat()) is Some,
        writer_after(s, WriterEvent::Turn { shutdown: false, now_ms }).1 == StepModel::Write(
            link_frame(s.sequence, beat())->0,
        ),
        writer_after(s, WriterEvent::Turn { shutdown: true, now_ms }).1 is Stop,
{
    codec::law_sendable_messages_have_frames(SYSTEM_ID, COMPONENT_ID, s.sequence, beat());
}

/// Shell input never takes the link down: whether or not it could be written,
/// the writer goes on.
pub proof fn law_shell_input_never_stops_the_writer(s: WriterModel, ok: bool, now_ms: u64)
    requires
        s.phase is Typing,
    ensures
        !(writer_after(s, WriterEvent::Written { ok, now_ms }).0.phase is Stopped),
{
}

/// Some frames, one after the other.
pub open spec fn strung(fs: Seq<Seq<u8>>) -> Seq<u8>
    decreases fs.len(),
{
    if fs.len() == 0 {
        Seq::empty()
    } else {
        fs[0] + strung(fs.skip(1))
    }
}

/// Whether this is a frame as the codec writes it, and what a reader makes of
/// it.
pub open spec fn sent_as(f: Seq<u8>, m: codec::FrameModel) -> bool {
    &&& f.len() >= codec::FRAME_OVERHEAD
    &&& m.consumed == f.len()
    &&& codec::reads_back(f, m)
    &&& codec::is_message(m.message_id, m.payload)
}

/// A reader hands on exactly the frames that were written, in order, and keeps
/// nothing.
pub proof fn law_what_was_written_is_read(fs: Seq<Seq<u8>>, ms: Seq<codec::FrameModel>)
    requires
        fs.len() == ms.len(),
        forall|i: int| #![trigger fs[i]] 0 <= i < fs.len() ==> sent_as(fs[i], ms[i]),
    ensures
        drained(strung(fs)) == (ms, Seq::<u8>::empty()),
    decreases fs.len(),
{
    let b = strung(fs);
    if fs.len() == 0 {
        assert(ms =~= Seq::empty());
    } else {
        let rest = strung(fs.skip(1));
        assert(sent_as(fs[0], ms[0]));
        assert(codec::first_frame(fs[0] + rest) == Some(ms[0]));
        assert(b.skip(ms[0].consumed) =~= rest);
        assert forall|i: int| #![trigger fs.skip(1)[i]] 0 <= i < fs.skip(1).len() implies sent_as(
            fs.skip(1)[i],
            ms.skip(1)[i],
        ) by {
            assert(fs.skip(1)[i] == fs[i + 1]);
        }
        law_what_was_written_is_read(fs.skip(1), ms.skip(1));
        assert(seq![ms[0]] + ms.skip(1) =~= ms);
    }
}

/// A piece of shell input makes a message that says exactly that piece.
pub proof fn law_shell_input_is_read_as_it_was_typed(timeout_ms: u16, piece: Seq<u8>)
    requires
        0 < piece.len() <= messages::SHELL_CHUNK,
    ensures
        ({
            let payload = shell_payload(timeout_ms, piece);
            codec::shell_bytes(payload).take(shell_len(codec::shell_count(payload))) == piece
        }),
        forall|sequence: u8| (#[trigger] shell_frame(sequence, timeout_ms, piece)) is Some,
{
    let payload = shell_payload(timeout_ms, piece);
    assert(payload[6] == messages::SHELL_DEVICE);
    assert(payload[8] == piece.len());
    assert(codec::shell_bytes(payload) =~= filled(piece)) by {
        assert forall|i: int| 0 <= i < messages::SHELL_CHUNK implies codec::shell_bytes(payload)[i]
            == filled(piece)[i] by {
            assert(payload[9 + i] == filled(piece)[i]);
        }
    }
    assert(filled(piece).take(piece.len() as int) =~= piece);
}

/// The first attempt to reconnect waits a quarter of a second, each further one
/// twice as long as the one before, and none longer than a second.
pub proof fn law_delays_double_up_to_a_second(attempt: u8)
    ensures
        delay_before(0) == 250,
        attempt < u8::MAX ==> delay_before((attempt + 1) as u8) == if 2 * delay_before(attempt)
            < 1000 {
            2 * delay_before(attempt)
        } else {
            1000
        },
        250 <= delay_before(attempt) <= 1000,
{
}

/// A shell reply holds as many bytes as its message counts, at most seventy,
/// and is complete when the message counts none.
pub proof fn law_what_a_shell_reply_holds(r: NshResponseData, count: u8, data: Seq<u8>)
    requires
        data.len() == 70,
        replies(r, count, data),
    ensures
        r.request_id == 0,
        r.data@.len() == if count < 70 {
            count as int
        } else {
            70
        },
        forall|i: int| 0 <= i < r.data@.len() ==> #[trigger] r.data@[i] == data[i],
        r.complete <==> count == 0,
{
}

/// Every shell message makes a reply, and no other message does.
pub proof fn law_which_arrivals_are_shell_replies(a: Arrival)
    requires
        sound_arrival(a),
    ensures
        a.reply is Some <==> a.frame.message_id == 126,
        a.reply matches Some(r) ==> (r.complete <==> codec::sent_byte(a.frame.payload@, 8) == 0),
{
}

/// Fewer than eight bytes are not looked at; from eight on the first message is
/// handed on.
pub proof fn law_when_a_message_is_looked_for(b: Seq<u8>)
    ensures
        b.len() < 8 ==> next_message(b) is None,
        b.len() >= 8 ==> next_message(b) == codec::first_message(b),
{
}

/// Packets are counted one by one, and the count wraps.
pub proof fn law_packets_are_counted(packets: u32, n: nat)
    ensures
        counted_packets(packets, 0) == packets,
        packets + n <= u32::MAX ==> counted_packets(packets, n) == packets + n,
        counted_packets(counted_packets(packets, n), 1) == counted_packets(packets, n + 1),
        counted_packets(u32::MAX, 1) == 0,
{
}

/// Every piece of shell input but the last is full.
pub proof fn law_shell_pieces_are_full(data: Seq<u8>, at: int, i: int)
    requires
        0 <= at < data.len(),
        0 <= i < pieces(data, at).len(),
    ensures
        i < pieces(data, at).len() - 1 ==> pieces(data, at)[i].len() == 70,
        pieces(data, at)[i].len() <= 70,
    decreases data.len() - at,
{
    let end = piece_end(data.len() as int, at);
    let rest = pieces(data, end);
    if i > 0 {
        assert(pieces(data, at)[i] == rest[i - 1]);
        law_shell_pieces_are_full(data, end, i - 1);
    } else {
        assert(pieces(data, at)[0] == data.subrange(at, end));
        if end == data.len() {
            assert(rest.len() == 0);
        }
    }
}

/// Where the fields of shell input stand: the time for a reply, the shell, the
/// wish for a reply and for the shell alone, how many bytes count, and the
/// bytes, filled up with zeros.
pub proof fn law_where_a_shell_piece_stands(timeout_ms: u16, piece: Seq<u8>, i: int)
    requires
        piece.len() <= 70,
        0 <= i < 70,
    ensures
        ({
            let p = shell_payload(timeout_ms, piece);
            &&& p.len() == 79
            &&& p[0] == 0 && p[1] == 0 && p[2] == 0 && p[3] == 0
            &&& p[4] + 0x100 * p[5] == timeout_ms
            &&& p[6] == 10
            &&& p[7] == 6
            &&& p[8] == piece.len()
            &&& i < piece.len() ==> p[9 + i] == piece[i]
            &&& i >= piece.len() ==> p[9 + i] == 0
        }),
{
    bytes::law_the_bytes_of_a_number_add_up(timeout_ms, 0, 0);
}

/// The writer's first act is its heartbeat, under the first sequence number,
/// and whatever becomes of it the writer goes on.
pub proof fn law_a_writer_starts_with_a_heartbeat(now_ms: u64, ok: bool, later_ms: u64)
    ensures
        ({
            let (s, step) = writer_start(now_ms);
            let after = writer_after(s, WriterEvent::Written { ok, now_ms: later_ms });
            &&& link_frame(0, beat()) is Some
            &&& step == StepModel::Write(link_frame(0, beat())->0)
            &&& s.sequence == 1
            &&& s.last_beat_ms == now_ms
            &&& after.0.phase is Turning
            &&& after.1 is NextTurn
        }),
{
    codec::law_sendable_messages_have_frames(SYSTEM_ID, COMPONENT_ID, 0, beat());
}

/// A heartbeat is due once a second; before that a turn looks for shell input.
/// One that was written puts off the next, and one that failed ends the link.
pub proof fn law_a_heartbeat_goes_out_every_second(s: WriterModel, now_ms: u64, ok: bool)
    requires
        s.phase is Turning,
    ensures
        ({
            let (after, step) = writer_after(s, WriterEvent::Turn { shutdown: false, now_ms });
            let (then, next) = writer_after(after, WriterEvent::Written { ok, now_ms });
            &&& step is Write <==> now_ms >= s.last_beat_ms + 1000
            &&& step is Write ==> after.phase is Beating && after.sequence == (s.sequence + 1)
                % 256
            &&& step is Write && ok ==> then.last_beat_ms == now_ms && next is PollShell
            &&& step is Write && !ok ==> next is Stop
            &&& !(step is Write) ==> step is PollShell && after.phase is Shell && after.sequence
                == s.sequence && after.last_beat_ms == s.last_beat_ms
        }),
{
    codec::law_sendable_messages_have_frames(SYSTEM_ID, COMPONENT_ID, s.sequence, beat());
}

/// Without shell input the writer looks for a message; without a message it
/// rests for a tenth of a millisecond and begins the next turn.
pub proof fn law_what_an_idle_writer_does(s: WriterModel)
    ensures
        s.phase is Shell ==> writer_after(s, WriterEvent::Shell(None)).1 is PollMessages
            && writer_after(s, WriterEvent::Shell(None)).0.phase is Messages,
        s.phase is Messages ==> writer_after(s, WriterEvent::Idle).1 == StepModel::Pause(100)
            && writer_after(s, WriterEvent::Idle).0.phase is Turning,
        s.phase is Messages ==> writer_after(s, WriterEvent::Disconnected).1 is Stop,
{
}

/// A message that can be sent goes out under the next sequence number; when it
/// is written the next turn begins, and when it is not the link is gone.
pub proof fn law_a_message_goes_out(s: WriterModel, m: Outbound, ok: bool, now_ms: u64)
    requires
        s.phase is Messages,
        codec::sendable(m),
    ensures
        ({
            let (after, step) = writer_after(s, WriterEvent::Message(m));
            let (then, next) = writer_after(after, WriterEvent::Written { ok, now_ms });
            &&& link_frame(s.sequence, m) is Some
            &&& step == StepModel::Write(link_frame(s.sequence, m)->0)
            &&& after.sequence == (s.sequence + 1) % 256
            &&& ok ==> next is NextTurn && then.phase is Turning
            &&& !ok ==> next is Stop && then.phase is Stopped
        }),
{
    codec::law_sendable_messages_have_frames(SYSTEM_ID, COMPONENT_ID, s.sequence, m);
}

/// Shell input goes out from its start, up to seventy bytes in a frame; what is
/// left goes out once that is written, and then it is the messages' turn.
pub proof fn law_shell_input_goes_out_piece_by_piece(
    s: WriterModel,
    request: NshRequest,
    now_ms: u64,
)
    requires
        s.phase is Shell,
        request.data@.len() > 0,
    ensures
        ({
            let (after, step) = writer_after(s, WriterEvent::Shell(Some(request)));
            let n = if request.data@.len() < 70 {
                request.data@.len() as int
            } else {
                70
            };
            let frame = shell_frame(s.sequence, request.timeout_ms, request.data@.take(n));
            let (_, next) = writer_after(after, WriterEvent::Written { ok: true, now_ms });
            &&& frame is Some
            &&& step == StepModel::Write(frame->0)
            &&& after.phase is Typing
            &&& after.at == n
            &&& after.input == request.data@
            &&& after.timeout_ms == request.timeout_ms
            &&& next is PollMessages <==> request.data@.len() <= 70
        }),
{
    let data = request.data@;
    let end = piece_end(data.len() as int, 0);
    assert(data.subrange(0, end) =~= data.take(end));
    law_shell_input_is_read_as_it_was_typed(request.timeout_ms, data.subrange(0, end));
    assert(shell_frame(s.sequence, request.timeout_ms, data.subrange(0, end)) is Some);
    if end < data.len() {
        let after = piece_end(data.len() as int, end);
        let sequence = codec::next_number(s.sequence);
        law_shell_input_is_read_as_it_was_typed(request.timeout_ms, data.subrange(end, after));
        assert(shell_frame(sequence, request.timeout_ms, data.subrange(end, after)) is Some);
    }
}

/// A shutdown, and an event that the writer is not waiting for, stop it for
/// good.
pub proof fn law_a_stopped_writer_stays_stopped(s: WriterModel, e: WriterEvent)
    requires
        s.phase is Stopped,
    ensures
        writer_after(s, e).1 is Stop,
        writer_after(s, e).0 == s,
{
}

/// A turn sends heartbeats, a message goes out under its own number, and all
/// else that is sent is shell input.
pub proof fn law_what_is_sent_when(phase: WriterPhase, e: WriterEvent, m: Outbound)
    ensures
        phase is Turning ==> sent_id(phase, e) == 0,
        phase is Messages ==> sent_id(phase, WriterEvent::Message(m)) == messages::id_of(m),
        phase is Shell || phase is Typing ==> sent_id(phase, e) == 126,
{
}

} // verus!
