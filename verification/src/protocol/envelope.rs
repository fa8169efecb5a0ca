//! Every message of the protocol, by tag.
use crate::bytes;
use crate::protocol::command;
use crate::protocol::command::Command;
use crate::protocol::config::{frame_json, ConfigResult, ConfigureBuild};
use crate::protocol::frames;
use crate::protocol::frames::{
    CommandAck, ConnectionStatus, HandshakeAck, NshCommand, NshResponse, TerrainOrigin,
    VehicleMessage,
};
use crate::protocol::provisioning::{
    Capabilities, PreflightApplyResult, PreflightStatus, RestoreResult, RestoreSnapshot,
    SnapshotCaptured, SnapshotStored,
};
use crate::protocol::state_update;
use crate::protocol::state_update::StateUpdate;
use crate::protocol::tags::{
    ProtocolError, MSG_TYPE_APPLY_PREFLIGHT_PARAMS, MSG_TYPE_CAPABILITIES,
    MSG_TYPE_COMMAND, MSG_TYPE_COMMAND_ACK, MSG_TYPE_CONFIGURE_BUILD, MSG_TYPE_CONFIG_RESULT,
    MSG_TYPE_CONNECTION_STATUS, MSG_TYPE_HANDSHAKE, MSG_TYPE_HANDSHAKE_ACK, MSG_TYPE_NSH_COMMAND,
    MSG_TYPE_NSH_RESPONSE, MSG_TYPE_PREFLIGHT_APPLY_RESULT, MSG_TYPE_PREFLIGHT_STATUS,
    MSG_TYPE_REQUEST_PREFLIGHT_CHECK, MSG_TYPE_RESTORE_RESULT, MSG_TYPE_RESTORE_SNAPSHOT,
    MSG_TYPE_SHUTDOWN, MSG_TYPE_SNAPSHOT_CAPTURED, MSG_TYPE_SNAPSHOT_STORED, MSG_TYPE_STATE_UPDATE,
    MSG_TYPE_TERRAIN_NEED, MSG_TYPE_TERRAIN_ORIGIN, MSG_TYPE_TERRAIN_TILES, MSG_TYPE_VEHICLE_MESSAGE,
};
use crate::protocol::terrain_tiles;
use crate::protocol::terrain_tiles::{TerrainNeed, TerrainTiles};
use crate::text;
use vstd::prelude::*;

verus! {

/// Every message the daemon sends.
#[derive(Clone, Debug)]
pub enum OutgoingMessage {
    /// Telemetry.
    StateUpdate(StateUpdate),
    /// Answer to a handshake.
    HandshakeAck(HandshakeAck),
    /// Answer to a command.
    CommandAck(CommandAck),
    /// Shell output.
    NshResponse(NshResponse),
    /// Link status.
    ConnectionStatus(ConnectionStatus),
    /// Status text.
    VehicleMessage(VehicleMessage),
    /// Build configuration progress.
    ConfigResult(ConfigResult),
    /// Terrain origin.
    TerrainOrigin(TerrainOrigin),
    /// Missing tiles.
    TerrainNeed(TerrainNeed),
    /// Captured parameters.
    SnapshotCaptured(SnapshotCaptured),
    /// Restore progress.
    RestoreResult(RestoreResult),
    /// Capabilities.
    Capabilities(Capabilities),
    /// Board readiness.
    PreflightStatus(PreflightStatus),
    /// Provisioning progress.
    PreflightApplyResult(PreflightApplyResult),
}

/// The tag of a message.
pub open spec fn outgoing_tag(m: OutgoingMessage) -> u8 {
    match m {
        OutgoingMessage::StateUpdate(_) => MSG_TYPE_STATE_UPDATE,
        OutgoingMessage::HandshakeAck(_) => MSG_TYPE_HANDSHAKE_ACK,
        OutgoingMessage::CommandAck(_) => MSG_TYPE_COMMAND_ACK,
        OutgoingMessage::NshResponse(_) => MSG_TYPE_NSH_RESPONSE,
        OutgoingMessage::ConnectionStatus(_) => MSG_TYPE_CONNECTION_STATUS,
        OutgoingMessage::VehicleMessage(_) => MSG_TYPE_VEHICLE_MESSAGE,
        OutgoingMessage::ConfigResult(_) => MSG_TYPE_CONFIG_RESULT,
        OutgoingMessage::TerrainOrigin(_) => MSG_TYPE_TERRAIN_ORIGIN,
        OutgoingMessage::TerrainNeed(_) => MSG_TYPE_TERRAIN_NEED,
        OutgoingMessage::SnapshotCaptured(_) => MSG_TYPE_SNAPSHOT_CAPTURED,
        OutgoingMessage::RestoreResult(_) => MSG_TYPE_RESTORE_RESULT,
        OutgoingMessage::Capabilities(_) => MSG_TYPE_CAPABILITIES,
        OutgoingMessage::PreflightStatus(_) => MSG_TYPE_PREFLIGHT_STATUS,
        OutgoingMessage::PreflightApplyResult(_) => MSG_TYPE_PREFLIGHT_APPLY_RESULT,
    }
}

/// Whether a message carries a JSON body.
pub open spec fn json_message(m: OutgoingMessage) -> bool {
    match m {
        OutgoingMessage::StateUpdate(_) => false,
        OutgoingMessage::HandshakeAck(_) => false,
        OutgoingMessage::CommandAck(_) => false,
        OutgoingMessage::NshResponse(_) => false,
        OutgoingMessage::ConnectionStatus(_) => false,
        OutgoingMessage::VehicleMessage(_) => false,
        OutgoingMessage::TerrainOrigin(_) => false,
        _ => true,
    }
}

/// The bytes of a message after its tag; `json` is the JSON rendering of the
/// messages that carry one.
pub open spec fn outgoing_body(m: OutgoingMessage, json: Seq<u8>) -> Seq<u8> {
    match m {
        OutgoingMessage::StateUpdate(s) => state_update::state_bytes(s).skip(1),
        OutgoingMessage::HandshakeAck(h) => seq![
            h.version_major,
            h.version_minor,
            h.version_patch,
            bytes::flag(h.pixhawk_connected),
        ] + frames::text_bytes(h.serial_port@) + seq![0u8],
        OutgoingMessage::CommandAck(a) => frames::command_ack_bytes(a).skip(1),
        OutgoingMessage::NshResponse(n) => bytes::u32_le(n.request_id) + seq![
            bytes::flag(n.success),
            bytes::flag(n.complete),
        ] + frames::text_bytes(n.output@) + seq![0u8],
        OutgoingMessage::ConnectionStatus(c) => seq![
            bytes::flag(c.connected),
            bytes::flag(c.reconnecting),
            c.retry_count,
        ] + frames::text_bytes(c.serial_port@) + seq![0u8] + frames::text_bytes(
            frames::optional_text(c.fc_model),
        ) + seq![0u8] + seq![bytes::flag(c.bootloader_suspected)],
        OutgoingMessage::VehicleMessage(v) => seq![v.severity] + bytes::u32_le(v.timestamp_ms)
            + frames::text_bytes(v.text@) + seq![0u8],
        OutgoingMessage::TerrainOrigin(t) => bytes::u64_le(t.ref_lat.bits) + bytes::u64_le(
            t.ref_lon.bits,
        ) + bytes::u32_le(t.ref_alt.bits) + seq![t.source],
        _ => json,
    }
}

impl OutgoingMessage {
    /// Serialize a message; `json` is the JSON rendering of the messages that
    /// carry one, and is not looked at for the others.
    pub fn to_bytes(&self, json: &[u8]) -> (r: Vec<u8>)
        ensures
            r@ == seq![outgoing_tag(*self)] + outgoing_body(*self, json@),
    {
        let r = match self {
            OutgoingMessage::StateUpdate(s) => s.to_bytes(),
            OutgoingMessage::HandshakeAck(h) => h.to_bytes(),
            OutgoingMessage::CommandAck(c) => c.to_bytes(),
            OutgoingMessage::NshResponse(n) => n.to_bytes(),
            OutgoingMessage::ConnectionStatus(c) => c.to_bytes(),
            OutgoingMessage::VehicleMessage(v) => v.to_bytes(),
            OutgoingMessage::ConfigResult(_) => frame_json(MSG_TYPE_CONFIG_RESULT, json),
            OutgoingMessage::TerrainOrigin(t) => t.to_bytes(),
            OutgoingMessage::TerrainNeed(t) => t.to_bytes(json),
            OutgoingMessage::SnapshotCaptured(_) => frame_json(MSG_TYPE_SNAPSHOT_CAPTURED, json),
            OutgoingMessage::RestoreResult(_) => frame_json(MSG_TYPE_RESTORE_RESULT, json),
            OutgoingMessage::Capabilities(_) => frame_json(MSG_TYPE_CAPABILITIES, json),
            OutgoingMessage::PreflightStatus(_) => frame_json(MSG_TYPE_PREFLIGHT_STATUS, json),
            OutgoingMessage::PreflightApplyResult(_) => frame_json(
                MSG_TYPE_PREFLIGHT_APPLY_RESULT,
                json,
            ),
        };
        assert(r@ =~= seq![outgoing_tag(*self)] + outgoing_body(*self, json@));
        r
    }

    /// Whether this message carries a JSON body.
    pub fn carries_json(&self) -> (r: bool)
        ensures
            r == json_message(*self),
    {
        match self {
            OutgoingMessage::StateUpdate(_) => false,
            OutgoingMessage::HandshakeAck(_) => false,
            OutgoingMessage::CommandAck(_) => false,
            OutgoingMessage::NshResponse(_) => false,
            OutgoingMessage::ConnectionStatus(_) => false,
            OutgoingMessage::VehicleMessage(_) => false,
            OutgoingMessage::TerrainOrigin(_) => false,
            _ => true,
        }
    }
}

/// Every message the daemon receives. JSON bodies are handed on as they came.
#[derive(Clone, Debug)]
pub enum IncomingMessage {
    /// A flight command.
    Command(Command),
    /// A handshake.
    Handshake,
    /// A shell command.
    NshCommand(NshCommand),
    /// A build to configure, as JSON text.
    ConfigureBuild(String),
    /// Stop.
    Shutdown,
    /// Is the board ready?
    RequestPreflightCheck,
    /// Provision the board.
    ApplyPreflightParams,
    /// A snapshot was stored, as JSON.
    SnapshotStored(Vec<u8>),
    /// Restore a snapshot, as JSON.
    RestoreSnapshot(Vec<u8>),
    /// Elevation tiles, with the end offset of their JSON header.
    TerrainTiles(usize),
}

/// What the tag of a frame announces.
pub ghost enum Announced {
    Nothing,
    Command,
    Handshake,
    NshCommand,
    ConfigureBuild,
    Shutdown,
    RequestPreflightCheck,
    ApplyPreflightParams,
    SnapshotStored,
    RestoreSnapshot,
    TerrainTiles,
    Unknown,
}

/// What the tag of a frame announces.
pub open spec fn announced(d: Seq<u8>) -> Announced {
    if d.len() == 0 {
        Announced::Nothing
    } else if d[0] == MSG_TYPE_COMMAND {
        Announced::Command
    } else if d[0] == MSG_TYPE_HANDSHAKE {
        Announced::Handshake
    } else if d[0] == MSG_TYPE_NSH_COMMAND {
        Announced::NshCommand
    } else if d[0] == MSG_TYPE_CONFIGURE_BUILD {
        Announced::ConfigureBuild
    } else if d[0] == MSG_TYPE_SHUTDOWN {
        Announced::Shutdown
    } else if d[0] == MSG_TYPE_REQUEST_PREFLIGHT_CHECK {
        Announced::RequestPreflightCheck
    } else if d[0] == MSG_TYPE_APPLY_PREFLIGHT_PARAMS {
        Announced::ApplyPreflightParams
    } else if d[0] == MSG_TYPE_SNAPSHOT_STORED {
        Announced::SnapshotStored
    } else if d[0] == MSG_TYPE_RESTORE_SNAPSHOT {
        Announced::RestoreSnapshot
    } else if d[0] == MSG_TYPE_TERRAIN_TILES {
        Announced::TerrainTiles
    } else {
        Announced::Unknown
    }
}

/// Whether `r` is what a shell command frame reads as.
pub open spec fn nsh_reading(d: Seq<u8>, r: Result<IncomingMessage, ProtocolError>) -> bool {
    let raw = d.subrange(7, frames::first_nul(d, 7));
    if d.len() < 8 {
        r == Err::<IncomingMessage, ProtocolError>(
            ProtocolError::MessageTooShort { expected: 8, actual: d.len() as usize },
        )
    } else {
        r matches Ok(IncomingMessage::NshCommand(c)) && c.request_id == bytes::u32_at(d, 1)
            && c.timeout_ms == bytes::u16_at(d, 5) && c.command@ == text::lossy_text(raw) && (
        vstd::utf8::valid_utf8(raw) ==> c.command@ == vstd::utf8::decode_utf8(raw))
    }
}

/// Whether `r` is what a tile frame reads as.
pub open spec fn tiles_reading(d: Seq<u8>, r: Result<IncomingMessage, ProtocolError>) -> bool {
    let end = terrain_tiles::announced_header_end(d);
    if d.len() > terrain_tiles::MAX_FRAME_BYTES {
        terrain_tiles::refused_with(
            r,
            "TerrainTiles: frame of "@ + text::decimal(d.len()) + " bytes exceeds the "@
                + text::decimal(terrain_tiles::MAX_FRAME_BYTES as nat) + " byte limit"@,
        )
    } else if d.len() < 5 {
        r == Err::<IncomingMessage, ProtocolError>(
            ProtocolError::MessageTooShort { expected: 5, actual: d.len() as usize },
        )
    } else if end > usize::MAX {
        terrain_tiles::refused_with(r, "TerrainTiles: header length overflows"@)
    } else if d.len() < end {
        r == Err::<IncomingMessage, ProtocolError>(
            ProtocolError::MessageTooShort { expected: end as usize, actual: d.len() as usize },
        )
    } else {
        r == Ok::<IncomingMessage, ProtocolError>(IncomingMessage::TerrainTiles(end as usize))
    }
}

/// Whether `r` is what a frame reads as.
pub open spec fn incoming_reading(d: Seq<u8>, r: Result<IncomingMessage, ProtocolError>) -> bool {
    let too_short = r == Err::<IncomingMessage, ProtocolError>(
        ProtocolError::MessageTooShort { expected: 2, actual: d.len() as usize },
    );
    match announced(d) {
        Announced::Nothing => r == Err::<IncomingMessage, ProtocolError>(
            ProtocolError::MessageTooShort { expected: 1, actual: 0 },
        ),
        Announced::Command => match r {
            Ok(IncomingMessage::Command(c)) => command::command_result(d, Ok(c)),
            Err(e) => command::command_result(d, Err(e)),
            _ => false,
        },
        Announced::Handshake => r == Ok::<IncomingMessage, ProtocolError>(
            IncomingMessage::Handshake,
        ),
        Announced::NshCommand => nsh_reading(d, r),
        Announced::ConfigureBuild => if d.len() < 2 {
            too_short
        } else if vstd::utf8::valid_utf8(d.skip(1)) {
            r matches Ok(IncomingMessage::ConfigureBuild(t)) && t@ == vstd::utf8::decode_utf8(
                d.skip(1),
            )
        } else {
            terrain_tiles::refused_with(r, "ConfigureBuild: invalid UTF-8"@)
        },
        Announced::Shutdown => r == Ok::<IncomingMessage, ProtocolError>(IncomingMessage::Shutdown),
        Announced::RequestPreflightCheck => r == Ok::<IncomingMessage, ProtocolError>(
            IncomingMessage::RequestPreflightCheck,
        ),
        Announced::ApplyPreflightParams => r == Ok::<IncomingMessage, ProtocolError>(
            IncomingMessage::ApplyPreflightParams,
        ),
        Announced::SnapshotStored => if d.len() < 2 {
            too_short
        } else {
            r matches Ok(IncomingMessage::SnapshotStored(b)) && b@ == d.skip(1)
        },
        Announced::RestoreSnapshot => if d.len() < 2 {
            too_short
        } else {
            r matches Ok(IncomingMessage::RestoreSnapshot(b)) && b@ == d.skip(1)
        },
        Announced::TerrainTiles => tiles_reading(d, r),
        Announced::Unknown => r == Err::<IncomingMessage, ProtocolError>(
            ProtocolError::UnknownMessageType(d[0]),
        ),
    }
}

impl IncomingMessage {
    /// Read a frame as far as its binary layout goes. JSON bodies, and the
    /// JSON header of a tile frame, are left for the caller to read.
    pub fn from_bytes(data: &[u8]) -> (r: Result<IncomingMessage, ProtocolError>)
        ensures
            incoming_reading(data@, r),
    {
        if data.is_empty() {
            return Err(ProtocolError::MessageTooShort { expected: 1, actual: 0 });
        }
        let tag: u8 = data[0];
        if tag == MSG_TYPE_COMMAND {
            match Command::from_bytes(data) {
                Ok(c) => Ok(IncomingMessage::Command(c)),
                Err(e) => Err(e),
            }
        } else if tag == MSG_TYPE_HANDSHAKE {
            Ok(IncomingMessage::Handshake)
        } else if tag == MSG_TYPE_NSH_COMMAND {
            match NshCommand::from_bytes(data) {
                Ok(c) => Ok(IncomingMessage::NshCommand(c)),
                Err(e) => Err(e),
            }
        } else if tag == MSG_TYPE_CONFIGURE_BUILD {
            match ConfigureBuild::body(data) {
                Ok(t) => Ok(IncomingMessage::ConfigureBuild(t)),
                Err(e) => Err(e),
            }
        } else if tag == MSG_TYPE_TERRAIN_TILES {
            match TerrainTiles::header_end(data) {
                Ok(end) => Ok(IncomingMessage::TerrainTiles(end)),
                Err(e) => Err(e),
            }
        } else if tag == MSG_TYPE_SHUTDOWN {
            Ok(IncomingMessage::Shutdown)
        } else if tag == MSG_TYPE_REQUEST_PREFLIGHT_CHECK {
            Ok(IncomingMessage::RequestPreflightCheck)
        } else if tag == MSG_TYPE_APPLY_PREFLIGHT_PARAMS {
            Ok(IncomingMessage::ApplyPreflightParams)
        } else if tag == MSG_TYPE_SNAPSHOT_STORED {
            match SnapshotStored::body(data) {
                Ok(b) => Ok(IncomingMessage::SnapshotStored(b)),
                Err(e) => Err(e),
            }
        } else if tag == MSG_TYPE_RESTORE_SNAPSHOT {
            match RestoreSnapshot::body(data) {
                Ok(b) => Ok(IncomingMessage::RestoreSnapshot(b)),
                Err(e) => Err(e),
            }
        } else {
            Err(ProtocolError::UnknownMessageType(tag))
        }
    }
}

/// The tag alone tells a reader which kind of message follows: messages of
/// different kinds never share one.
pub proof fn law_outgoing_tags_are_distinct(a: OutgoingMessage, b: OutgoingMessage)
    requires
        outgoing_tag(a) == outgoing_tag(b),
    ensures
        a is StateUpdate <==> b is StateUpdate,
        a is HandshakeAck <==> b is HandshakeAck,
        a is CommandAck <==> b is CommandAck,
        a is NshResponse <==> b is NshResponse,
        a is ConnectionStatus <==> b is ConnectionStatus,
        a is VehicleMessage <==> b is VehicleMessage,
        a is ConfigResult <==> b is ConfigResult,
        a is TerrainOrigin <==> b is TerrainOrigin,
        a is TerrainNeed <==> b is TerrainNeed,
        a is SnapshotCaptured <==> b is SnapshotCaptured,
        a is RestoreResult <==> b is RestoreResult,
        a is Capabilities <==> b is Capabilities,
        a is PreflightStatus <==> b is PreflightStatus,
        a is PreflightApplyResult <==> b is PreflightApplyResult,
{
}

/// No message the daemon sends could be taken for one it receives.
pub proof fn law_outgoing_and_incoming_tags_are_disjoint(m: OutgoingMessage, d: Seq<u8>)
    requires
        d.len() > 0,
        d[0] == outgoing_tag(m),
    ensures
        announced(d) == Announced::Unknown,
{
}

/// The tag that each message goes out under.
pub proof fn law_the_tags_of_outgoing_messages(m: OutgoingMessage)
    ensures
        m is StateUpdate <==> outgoing_tag(m) == 0x01,
        m is HandshakeAck <==> outgoing_tag(m) == 0x02,
        m is CommandAck <==> outgoing_tag(m) == 0x03,
        m is NshResponse <==> outgoing_tag(m) == 0x04,
        m is ConnectionStatus <==> outgoing_tag(m) == 0x05,
        m is VehicleMessage <==> outgoing_tag(m) == 0x06,
        m is ConfigResult <==> outgoing_tag(m) == 0x08,
        m is TerrainOrigin <==> outgoing_tag(m) == 0x09,
        m is PreflightStatus <==> outgoing_tag(m) == 0x0a,
        m is PreflightApplyResult <==> outgoing_tag(m) == 0x0b,
        m is SnapshotCaptured <==> outgoing_tag(m) == 0x0c,
        m is RestoreResult <==> outgoing_tag(m) == 0x0d,
        m is Capabilities <==> outgoing_tag(m) == 0x0e,
        m is TerrainNeed <==> outgoing_tag(m) == 0x0f,
{
}

/// The messages that carry JSON carry it whole behind their tag; the others
/// carry none.
pub proof fn law_which_messages_carry_json(m: OutgoingMessage, json: Seq<u8>, other: Seq<u8>)
    ensures
        json_message(m) <==> m is ConfigResult || m is TerrainNeed || m is SnapshotCaptured
            || m is RestoreResult || m is Capabilities || m is PreflightStatus
            || m is PreflightApplyResult,
        json_message(m) ==> outgoing_body(m, json) == json,
        !json_message(m) ==> outgoing_body(m, json) == outgoing_body(m, other),
{
}

/// What each tag announces.
pub proof fn law_the_tags_of_incoming_messages(d: Seq<u8>)
    requires
        d.len() > 0,
    ensures
        announced(d) is Command <==> d[0] == 0x10,
        announced(d) is Handshake <==> d[0] == 0x11,
        announced(d) is NshCommand <==> d[0] == 0x12,
        announced(d) is ConfigureBuild <==> d[0] == 0x13,
        announced(d) is Shutdown <==> d[0] == 0x07,
        announced(d) is RequestPreflightCheck <==> d[0] == 0x14,
        announced(d) is ApplyPreflightParams <==> d[0] == 0x15,
        announced(d) is SnapshotStored <==> d[0] == 0x16,
        announced(d) is RestoreSnapshot <==> d[0] == 0x17,
        announced(d) is TerrainTiles <==> d[0] == 0x18,
        announced(Seq::empty()) is Nothing,
{
}

/// A frame is read as what its tag announces or refused, and one whose tag
/// announces nothing known is refused with that tag.
pub proof fn law_a_frame_is_read_as_announced(
    d: Seq<u8>,
    r: Result<IncomingMessage, ProtocolError>,
)
    requires
        d.len() > 0,
        incoming_reading(d, r),
    ensures
        r matches Ok(m) ==> (m is Command <==> d[0] == 0x10),
        r matches Ok(m) ==> (m is Handshake <==> d[0] == 0x11),
        r matches Ok(m) ==> (m is NshCommand <==> d[0] == 0x12),
        r matches Ok(m) ==> (m is ConfigureBuild <==> d[0] == 0x13),
        r matches Ok(m) ==> (m is Shutdown <==> d[0] == 0x07),
        r matches Ok(m) ==> (m is RequestPreflightCheck <==> d[0] == 0x14),
        r matches Ok(m) ==> (m is ApplyPreflightParams <==> d[0] == 0x15),
        r matches Ok(m) ==> (m is SnapshotStored <==> d[0] == 0x16),
        r matches Ok(m) ==> (m is RestoreSnapshot <==> d[0] == 0x17),
        r matches Ok(m) ==> (m is TerrainTiles <==> d[0] == 0x18),
        d[0] == 0x11 || d[0] == 0x07 || d[0] == 0x14 || d[0] == 0x15 ==> r is Ok,
        (d[0] == 0x16 || d[0] == 0x17) && d.len() >= 2 ==> r is Ok,
        d[0] == 0 || 0x08 <= d[0] <= 0x0f || d[0] > 0x18 ==> (r matches Err(
            ProtocolError::UnknownMessageType(t),
        ) && t == d[0]),
        r matches Ok(IncomingMessage::SnapshotStored(b)) ==> b@ == d.skip(1),
        r matches Ok(IncomingMessage::RestoreSnapshot(b)) ==> b@ == d.skip(1),
        r matches Ok(IncomingMessage::ConfigureBuild(t)) ==> t@ == vstd::utf8::decode_utf8(
            d.skip(1),
        ),
{
}

/// A flight command inside a frame is read where it stands: identifier, type,
/// and the altitude of a takeoff.
pub proof fn law_a_takeoff_frame_is_read(d: Seq<u8>, r: Result<IncomingMessage, ProtocolError>)
    requires
        d.len() >= 10,
        d[0] == 0x10,
        d[5] == 2,
        incoming_reading(d, r),
    ensures
        r matches Ok(IncomingMessage::Command(c)) && {
            &&& c.command_id == d[1] + 0x100 * d[2] + 0x1_0000 * d[3] + 0x100_0000 * d[4]
            &&& c.command_type is Takeoff
            &&& c.takeoff_altitude matches Some(a) && a.bits == d[6] + 0x100 * d[7] + 0x1_0000
                * d[8] + 0x100_0000 * d[9]
        },
{
    command::law_where_a_takeoff_has_its_altitude(d);
}

/// A shell command is read where it stands: its request in the four bytes after
/// the tag, its time in the next two, and its text from the eighth byte up to
/// the first zero.
pub proof fn law_where_a_shell_command_stands(
    d: Seq<u8>,
    r: Result<IncomingMessage, ProtocolError>,
    end: int,
)
    requires
        8 <= d.len(),
        d[0] == 0x12,
        7 <= end <= d.len(),
        end < d.len() ==> d[end] == 0,
        forall|i: int| 7 <= i < end ==> #[trigger] d[i] != 0,
        incoming_reading(d, r),
    ensures
        r matches Ok(IncomingMessage::NshCommand(c)) && {
            &&& c.request_id == d[1] + 0x100 * d[2] + 0x1_0000 * d[3] + 0x100_0000 * d[4]
            &&& c.timeout_ms == d[5] + 0x100 * d[6]
            &&& vstd::utf8::valid_utf8(d.subrange(7, end)) ==> c.command@
                == vstd::utf8::decode_utf8(d.subrange(7, end))
        },
{
    frames::lemma_first_nul_at(d, 7, end);
}

/// A frame of tiles announces where its header ends: the length of the header
/// stands in the four bytes after the tag, and the header behind them.
pub proof fn law_where_the_header_of_tiles_ends(
    d: Seq<u8>,
    r: Result<IncomingMessage, ProtocolError>,
)
    requires
        5 <= d.len() <= 0x100_0000,
        d[0] == 0x18,
        incoming_reading(d, r),
        5 + d[1] + 0x100 * d[2] + 0x1_0000 * d[3] + 0x100_0000 * d[4] <= d.len(),
        d.len() <= usize::MAX,
    ensures
        r matches Ok(IncomingMessage::TerrainTiles(end)) && end == 5 + d[1] + 0x100 * d[2]
            + 0x1_0000 * d[3] + 0x100_0000 * d[4],
{
}

/// The answer to a handshake holds the version in three bytes, whether there is
/// a flight controller in the next, and the port behind it, closed by a zero.
pub proof fn law_the_bytes_of_a_handshake_answer(h: HandshakeAck, json: Seq<u8>)
    ensures
        ({
            let d = seq![outgoing_tag(OutgoingMessage::HandshakeAck(h))] + outgoing_body(
                OutgoingMessage::HandshakeAck(h),
                json,
            );
            let port = vstd::utf8::encode_utf8(h.serial_port@);
            &&& d.len() == 6 + port.len()
            &&& d[0] == 2
            &&& d[1] == h.version_major
            &&& d[2] == h.version_minor
            &&& d[3] == h.version_patch
            &&& d[4] == if h.pixhawk_connected { 1u8 } else { 0u8 }
            &&& d.subrange(5, d.len() - 1) == port
            &&& d.last() == 0
        }),
{
    let d = seq![outgoing_tag(OutgoingMessage::HandshakeAck(h))] + outgoing_body(
        OutgoingMessage::HandshakeAck(h),
        json,
    );
    assert(d.subrange(5, d.len() - 1) =~= vstd::utf8::encode_utf8(h.serial_port@));
}

/// Shell output holds its request in four bytes, then whether it was taken and
/// whether it is complete, and the text behind them, closed by a zero.
pub proof fn law_the_bytes_of_shell_output(n: NshResponse, json: Seq<u8>)
    ensures
        ({
            let d = seq![outgoing_tag(OutgoingMessage::NshResponse(n))] + outgoing_body(
                OutgoingMessage::NshResponse(n),
                json,
            );
            let output = vstd::utf8::encode_utf8(n.output@);
            &&& d.len() == 8 + output.len()
            &&& d[0] == 4
            &&& d[1] + 0x100 * d[2] + 0x1_0000 * d[3] + 0x100_0000 * d[4] == n.request_id
            &&& d[5] == if n.success { 1u8 } else { 0u8 }
            &&& d[6] == if n.complete { 1u8 } else { 0u8 }
            &&& d.subrange(7, d.len() - 1) == output
            &&& d.last() == 0
        }),
{
    let d = seq![outgoing_tag(OutgoingMessage::NshResponse(n))] + outgoing_body(
        OutgoingMessage::NshResponse(n),
        json,
    );
    bytes::law_the_bytes_of_a_number_add_up(0, n.request_id, 0);
    assert(d.subrange(7, d.len() - 1) =~= vstd::utf8::encode_utf8(n.output@));
}

/// The answer to a command holds its identifier in four bytes and whether it was
/// taken; a refusal goes on with the reason, closed by a zero.
pub proof fn law_the_bytes_of_a_command_answer(a: CommandAck, reason: String, json: Seq<u8>)
    requires
        !a.success ==> a.error == Some(reason),
    ensures
        ({
            let d = seq![outgoing_tag(OutgoingMessage::CommandAck(a))] + outgoing_body(
                OutgoingMessage::CommandAck(a),
                json,
            );
            &&& d.len() >= 6
            &&& d[0] == 3
            &&& d[1] + 0x100 * d[2] + 0x1_0000 * d[3] + 0x100_0000 * d[4] == a.command_id
            &&& d[5] == if a.success { 1u8 } else { 0u8 }
            &&& a.success ==> d.len() == 6
            &&& !a.success ==> d.last() == 0 && d.subrange(6, d.len() - 1)
                == vstd::utf8::encode_utf8(reason@)
        }),
{
    let d = seq![outgoing_tag(OutgoingMessage::CommandAck(a))] + outgoing_body(
        OutgoingMessage::CommandAck(a),
        json,
    );
    assert(d =~= frames::command_ack_bytes(a));
    bytes::law_the_bytes_of_a_number_add_up(0, a.command_id, 0);
    if !a.success {
        assert(d.subrange(6, d.len() - 1) =~= vstd::utf8::encode_utf8(reason@));
    }
}

/// A link status holds its two flags and the number of attempts, then port and
/// model, each closed by a zero, and last whether the bootloader is suspected.
pub proof fn law_the_bytes_of_a_link_status(c: ConnectionStatus, json: Seq<u8>)
    ensures
        ({
            let d = seq![outgoing_tag(OutgoingMessage::ConnectionStatus(c))] + outgoing_body(
                OutgoingMessage::ConnectionStatus(c),
                json,
            );
            let port = vstd::utf8::encode_utf8(c.serial_port@);
            let model = vstd::utf8::encode_utf8(frames::optional_text(c.fc_model));
            &&& d.len() == 7 + port.len() + model.len()
            &&& d[0] == 5
            &&& d[1] == if c.connected { 1u8 } else { 0u8 }
            &&& d[2] == if c.reconnecting { 1u8 } else { 0u8 }
            &&& d[3] == c.retry_count
            &&& d.subrange(4, 4 + port.len() as int) == port
            &&& d[4 + port.len() as int] == 0
            &&& d.subrange(5 + port.len() as int, 5 + port.len() as int + model.len() as int)
                == model
            &&& d[d.len() - 2] == 0
            &&& d.last() == if c.bootloader_suspected { 1u8 } else { 0u8 }
        }),
{
    let d = seq![outgoing_tag(OutgoingMessage::ConnectionStatus(c))] + outgoing_body(
        OutgoingMessage::ConnectionStatus(c),
        json,
    );
    let port = vstd::utf8::encode_utf8(c.serial_port@);
    let model = vstd::utf8::encode_utf8(frames::optional_text(c.fc_model));
    assert(d.subrange(4, 4 + port.len() as int) =~= port);
    assert(d.subrange(5 + port.len() as int, 5 + port.len() as int + model.len() as int)
        =~= model);
}

/// A status text holds its severity, its time in four bytes, and the text behind
/// them, closed by a zero.
pub proof fn law_the_bytes_of_a_status_text(v: VehicleMessage, json: Seq<u8>)
    ensures
        ({
            let d = seq![outgoing_tag(OutgoingMessage::VehicleMessage(v))] + outgoing_body(
                OutgoingMessage::VehicleMessage(v),
                json,
            );
            let said = vstd::utf8::encode_utf8(v.text@);
            &&& d.len() == 7 + said.len()
            &&& d[0] == 6
            &&& d[1] == v.severity
            &&& d[2] + 0x100 * d[3] + 0x1_0000 * d[4] + 0x100_0000 * d[5] == v.timestamp_ms
            &&& d.subrange(6, d.len() - 1) == said
            &&& d.last() == 0
        }),
{
    let d = seq![outgoing_tag(OutgoingMessage::VehicleMessage(v))] + outgoing_body(
        OutgoingMessage::VehicleMessage(v),
        json,
    );
    bytes::law_the_bytes_of_a_number_add_up(0, v.timestamp_ms, 0);
    assert(d.subrange(6, d.len() - 1) =~= vstd::utf8::encode_utf8(v.text@));
}

/// A terrain origin holds latitude and longitude in eight bytes each, altitude in
/// four, and its source last.
pub proof fn law_the_bytes_of_a_terrain_origin(t: TerrainOrigin, json: Seq<u8>)
    ensures
        ({
            let d = seq![outgoing_tag(OutgoingMessage::TerrainOrigin(t))] + outgoing_body(
                OutgoingMessage::TerrainOrigin(t),
                json,
            );
            &&& d.len() == 22
            &&& d[0] == 9
            &&& bytes::u64_at(d, 1) == t.ref_lat.bits
            &&& bytes::u64_at(d, 9) == t.ref_lon.bits
            &&& d[17] + 0x100 * d[18] + 0x1_0000 * d[19] + 0x100_0000 * d[20] == t.ref_alt.bits
            &&& d[21] == t.source
        }),
{
    let d = seq![outgoing_tag(OutgoingMessage::TerrainOrigin(t))] + outgoing_body(
        OutgoingMessage::TerrainOrigin(t),
        json,
    );
    bytes::law_the_bytes_of_a_number_add_up(0, t.ref_alt.bits, 0);
    assert(d.subrange(1, 9) =~= bytes::u64_le(t.ref_lat.bits));
    assert(d.subrange(9, 17) =~= bytes::u64_le(t.ref_lon.bits));
    bytes::lemma_u64_read_back(d, 1, t.ref_lat.bits);
    bytes::lemma_u64_read_back(d, 9, t.ref_lon.bits);
}

/// Telemetry goes out as the sample it is: the frame of a message is the frame of
/// its sample.
pub proof fn law_the_bytes_of_telemetry(s: StateUpdate, json: Seq<u8>)
    ensures
        ({
            let d = seq![outgoing_tag(OutgoingMessage::StateUpdate(s))] + outgoing_body(
                OutgoingMessage::StateUpdate(s),
                json,
            );
            &&& d == state_update::state_bytes(s)
            &&& d.len() == 87
            &&& d[0] == 1
        }),
{
    let d = seq![outgoing_tag(OutgoingMessage::StateUpdate(s))] + outgoing_body(
        OutgoingMessage::StateUpdate(s),
        json,
    );
    state_update::law_state_update_round_trip(s);
    assert(d =~= state_update::state_bytes(s));
}

/// A frame that must carry something and does not is too short; nothing at all
/// is too short as well.
pub proof fn law_which_frames_are_too_short(
    d: Seq<u8>,
    r: Result<IncomingMessage, ProtocolError>,
    tag: u8,
    nothing: Result<IncomingMessage, ProtocolError>,
)
    requires
        tag == 0x13 || tag == 0x16 || tag == 0x17,
        d.len() >= 1,
        d[0] == tag,
        incoming_reading(d, r),
        incoming_reading(Seq::empty(), nothing),
    ensures
        (r matches Err(ProtocolError::MessageTooShort { .. })) <==> d.len() == 1,
        d.len() == 1 ==> (r matches Err(ProtocolError::MessageTooShort { expected, actual })
            && expected == 2 && actual == 1),
        nothing matches Err(ProtocolError::MessageTooShort { expected, actual }) && expected == 1
            && actual == 0,
{
}

/// A build request that is not text is refused as such, and one that is text is
/// read.
pub proof fn law_a_build_request_is_text(d: Seq<u8>, r: Result<IncomingMessage, ProtocolError>)
    requires
        d.len() >= 2,
        d[0] == 0x13,
        incoming_reading(d, r),
    ensures
        r is Ok <==> vstd::utf8::valid_utf8(d.skip(1)),
        r matches Err(e) ==> (e matches ProtocolError::InvalidPayload { reason, .. } && reason@
            == "ConfigureBuild: invalid UTF-8"@),
{
}

} // verus!
