//! The basic message set shared by the daemon's parts: one byte of type, then
//! a payload of text or JSON.
use crate::bytes::{copy_range, push_bytes};
use crate::text;
use crate::text::{push_decimal, utf8_text};
use vstd::prelude::*;

verus! {

/// Telemetry.
pub const MSG_TYPE_STATE_UPDATE: u8 = 0x01;

/// Answer to a handshake.
pub const MSG_TYPE_HANDSHAKE_ACK: u8 = 0x02;

/// Answer to a command.
pub const MSG_TYPE_COMMAND_ACK: u8 = 0x03;

/// Shell output.
pub const MSG_TYPE_NSH_RESPONSE: u8 = 0x04;

/// Link status.
pub const MSG_TYPE_CONNECTION_STATUS: u8 = 0x05;

/// Status text.
pub const MSG_TYPE_VEHICLE_MESSAGE: u8 = 0x06;

/// Outcome of a build configuration.
pub const MSG_TYPE_CONFIG_RESULT: u8 = 0x08;

/// Handshake.
pub const MSG_TYPE_HANDSHAKE: u8 = 0x10;

/// Command.
pub const MSG_TYPE_COMMAND: u8 = 0x11;

/// Shell command.
pub const MSG_TYPE_NSH_COMMAND: u8 = 0x12;

/// Build configuration.
pub const MSG_TYPE_CONFIGURE_BUILD: u8 = 0x13;

/// Shutdown.
pub const MSG_TYPE_SHUTDOWN: u8 = 0x14;

/// Why a message cannot be read.
#[derive(Clone, Debug)]
pub enum WsProtocolError {
    /// No such message type.
    UnknownMessageType(u8),
    /// The payload does not read.
    InvalidPayload(String),
    /// There is no message.
    EmptyMessage,
}

/// The text of an error.
pub open spec fn ws_error_text(e: WsProtocolError) -> Seq<char> {
    match e {
        WsProtocolError::UnknownMessageType(t) => "Unknown message type: "@ + text::decimal(
            t as nat,
        ),
        WsProtocolError::InvalidPayload(reason) => "Invalid payload: "@ + reason@,
        WsProtocolError::EmptyMessage => "Empty message"@,
    }
}

impl WsProtocolError {
    /// The text of this error.
    pub fn text(&self) -> (r: String)
        ensures
            r@ == ws_error_text(*self),
    {
        match self {
            WsProtocolError::UnknownMessageType(t) => {
                let mut out: String = "Unknown message type: ".to_owned();
                push_decimal(&mut out, *t as u64);
                out
            },
            WsProtocolError::InvalidPayload(reason) => {
                let mut out: String = "Invalid payload: ".to_owned();
                out.append(reason.as_str());
                out
            },
            WsProtocolError::EmptyMessage => "Empty message".to_owned(),
        }
    }
}

/// A shell command.
#[derive(Clone, Debug)]
pub struct NshCommand {
    /// The command.
    pub command: String,
}

/// An incoming message. A payload of JSON is handed on as text.
#[derive(Clone, Debug)]
pub enum IncomingMessage {
    /// Handshake.
    Handshake,
    /// Command.
    Command(String),
    /// Shell command.
    NshCommand(String),
    /// Build configuration.
    ConfigureBuild(String),
    /// Shutdown.
    Shutdown,
}

/// The name of a message type with a JSON payload.
pub open spec fn payload_name(tag: u8) -> Seq<char> {
    if tag == MSG_TYPE_COMMAND {
        "Command"@
    } else if tag == MSG_TYPE_NSH_COMMAND {
        "NshCommand"@
    } else {
        "ConfigureBuild"@
    }
}

/// The text that a message carries, if it carries one.
pub open spec fn payload_of(m: IncomingMessage) -> Option<Seq<char>> {
    match m {
        IncomingMessage::Command(t) => Some(t@),
        IncomingMessage::NshCommand(t) => Some(t@),
        IncomingMessage::ConfigureBuild(t) => Some(t@),
        _ => None,
    }
}

/// The type of a message.
pub open spec fn incoming_tag(m: IncomingMessage) -> u8 {
    match m {
        IncomingMessage::Handshake => MSG_TYPE_HANDSHAKE,
        IncomingMessage::Command(_) => MSG_TYPE_COMMAND,
        IncomingMessage::NshCommand(_) => MSG_TYPE_NSH_COMMAND,
        IncomingMessage::ConfigureBuild(_) => MSG_TYPE_CONFIGURE_BUILD,
        IncomingMessage::Shutdown => MSG_TYPE_SHUTDOWN,
    }
}

/// Whether messages of a type carry JSON.
pub open spec fn carries_json(tag: u8) -> bool {
    tag == MSG_TYPE_COMMAND || tag == MSG_TYPE_NSH_COMMAND || tag == MSG_TYPE_CONFIGURE_BUILD
}

/// What a message reads as.
pub open spec fn reads_as(data: Seq<u8>, r: Result<IncomingMessage, WsProtocolError>) -> bool {
    if data.len() == 0 {
        r matches Err(WsProtocolError::EmptyMessage)
    } else if data[0] == MSG_TYPE_HANDSHAKE || data[0] == MSG_TYPE_SHUTDOWN {
        r matches Ok(m) && incoming_tag(m) == data[0]
    } else if !carries_json(data[0]) {
        r matches Err(WsProtocolError::UnknownMessageType(t)) && t == data[0]
    } else if vstd::utf8::valid_utf8(data.skip(1)) {
        r matches Ok(m) && incoming_tag(m) == data[0] && payload_of(m) == Some(
            vstd::utf8::decode_utf8(data.skip(1)),
        )
    } else {
        r matches Err(WsProtocolError::InvalidPayload(reason)) && reason@ == payload_name(data[0])
            + ": invalid UTF-8"@
    }
}

fn payload_text(data: &[u8], name: &str) -> (r: Result<String, WsProtocolError>)
    requires
        data@.len() > 0,
    ensures
        vstd::utf8::valid_utf8(data@.skip(1)) ==> (r matches Ok(t) && t@
            == vstd::utf8::decode_utf8(data@.skip(1))),
        !vstd::utf8::valid_utf8(data@.skip(1)) ==> (r matches Err(
            WsProtocolError::InvalidPayload(reason),
        ) && reason@ == name@ + ": invalid UTF-8"@),
{
    let body: Vec<u8> = copy_range(data, 1, data.len());
    assert(body@ =~= data@.skip(1));
    match utf8_text(body.as_slice()) {
        Some(t) => Ok(t),
        None => {
            let mut reason: String = name.to_owned();
            reason.append(": invalid UTF-8");
            Err(WsProtocolError::InvalidPayload(reason))
        },
    }
}

impl IncomingMessage {
    /// Read a message.
    pub fn from_bytes(data: &[u8]) -> (r: Result<IncomingMessage, WsProtocolError>)
        ensures
            reads_as(data@, r),
    {
        if data.len() == 0 {
            return Err(WsProtocolError::EmptyMessage);
        }
        let tag: u8 = data[0];
        if tag == MSG_TYPE_HANDSHAKE {
            Ok(IncomingMessage::Handshake)
        } else if tag == MSG_TYPE_COMMAND {
            match payload_text(data, "Command") {
                Ok(t) => Ok(IncomingMessage::Command(t)),
                Err(e) => Err(e),
            }
        } else if tag == MSG_TYPE_NSH_COMMAND {
            match payload_text(data, "NshCommand") {
                Ok(t) => Ok(IncomingMessage::NshCommand(t)),
                Err(e) => Err(e),
            }
        } else if tag == MSG_TYPE_CONFIGURE_BUILD {
            match payload_text(data, "ConfigureBuild") {
                Ok(t) => Ok(IncomingMessage::ConfigureBuild(t)),
                Err(e) => Err(e),
            }
        } else if tag == MSG_TYPE_SHUTDOWN {
            Ok(IncomingMessage::Shutdown)
        } else {
            Err(WsProtocolError::UnknownMessageType(tag))
        }
    }
}

/// An outgoing message. Where a message carries JSON, it holds the rendering.
#[derive(Clone, Debug)]
pub enum OutgoingMessage {
    /// Telemetry.
    StateUpdate(Vec<u8>),
    /// Answer to a handshake.
    HandshakeAck,
    /// Answer to a command, as JSON.
    CommandAck(Vec<u8>),
    /// Shell output.
    NshResponse(String),
    /// Link status, as JSON.
    ConnectionStatus(Vec<u8>),
    /// Status text.
    VehicleMessage(String),
    /// Outcome of a build configuration, as JSON.
    ConfigResult(Vec<u8>),
}

/// The bytes of a message.
pub open spec fn outgoing_bytes(m: OutgoingMessage) -> Seq<u8> {
    match m {
        OutgoingMessage::StateUpdate(p) => seq![MSG_TYPE_STATE_UPDATE] + p@,
        OutgoingMessage::HandshakeAck => seq![MSG_TYPE_HANDSHAKE_ACK],
        OutgoingMessage::CommandAck(p) => seq![MSG_TYPE_COMMAND_ACK] + p@,
        OutgoingMessage::NshResponse(t) => seq![MSG_TYPE_NSH_RESPONSE] + vstd::utf8::encode_utf8(
            t@,
        ),
        OutgoingMessage::ConnectionStatus(p) => seq![MSG_TYPE_CONNECTION_STATUS] + p@,
        OutgoingMessage::VehicleMessage(t) => seq![MSG_TYPE_VEHICLE_MESSAGE]
            + vstd::utf8::encode_utf8(t@),
        OutgoingMessage::ConfigResult(p) => seq![MSG_TYPE_CONFIG_RESULT] + p@,
    }
}

fn frame(tag: u8, payload: &[u8]) -> (r: Vec<u8>)
    ensures
        r@ == seq![tag] + payload@,
{
    let mut out: Vec<u8> = Vec::new();
    out.push(tag);
    assert(out@ =~= seq![tag]);
    push_bytes(&mut out, payload);
    out
}

impl OutgoingMessage {
    /// The bytes of this message.
    pub fn to_bytes(&self) -> (r: Vec<u8>)
        ensures
            r@ == outgoing_bytes(*self),
    {
        match self {
            OutgoingMessage::StateUpdate(p) => frame(MSG_TYPE_STATE_UPDATE, p.as_slice()),
            OutgoingMessage::HandshakeAck => {
                let mut out: Vec<u8> = Vec::new();
                out.push(MSG_TYPE_HANDSHAKE_ACK);
                assert(out@ =~= seq![MSG_TYPE_HANDSHAKE_ACK]);
                out
            },
            OutgoingMessage::CommandAck(p) => frame(MSG_TYPE_COMMAND_ACK, p.as_slice()),
            OutgoingMessage::NshResponse(t) => frame(MSG_TYPE_NSH_RESPONSE, t.as_str().as_bytes()),
            OutgoingMessage::ConnectionStatus(p) => frame(MSG_TYPE_CONNECTION_STATUS, p.as_slice()),
            OutgoingMessage::VehicleMessage(t) => frame(
                MSG_TYPE_VEHICLE_MESSAGE,
                t.as_str().as_bytes(),
            ),
            OutgoingMessage::ConfigResult(p) => frame(MSG_TYPE_CONFIG_RESULT, p.as_slice()),
        }
    }
}

/// What the first byte of a message says of it.
pub proof fn law_the_types_of_incoming_messages(
    data: Seq<u8>,
    r: Result<IncomingMessage, WsProtocolError>,
)
    requires
        data.len() > 0,
        reads_as(data, r),
    ensures
        r matches Ok(m) ==> (m is Handshake <==> data[0] == 0x10),
        r matches Ok(m) ==> (m is Command <==> data[0] == 0x11),
        r matches Ok(m) ==> (m is NshCommand <==> data[0] == 0x12),
        r matches Ok(m) ==> (m is ConfigureBuild <==> data[0] == 0x13),
        r matches Ok(m) ==> (m is Shutdown <==> data[0] == 0x14),
        data[0] == 0x10 || data[0] == 0x14 ==> r is Ok,
        data[0] < 0x10 || data[0] > 0x14 ==> (r matches Err(
            WsProtocolError::UnknownMessageType(t),
        ) && t == data[0]),
        0x11 <= data[0] <= 0x13 ==> (r is Ok <==> vstd::utf8::valid_utf8(data.skip(1))),
        0x11 <= data[0] <= 0x13 && r is Err ==> r->Err_0 is InvalidPayload,
{
}

/// A message that carries text carries all that follows its first byte.
pub proof fn law_a_message_carries_its_text(
    data: Seq<u8>,
    r: Result<IncomingMessage, WsProtocolError>,
    said: Seq<char>,
)
    requires
        data.len() > 0,
        reads_as(data, r),
        data.skip(1) == vstd::utf8::encode_utf8(said),
    ensures
        data[0] == 0x11 ==> (r matches Ok(IncomingMessage::Command(t)) && t@ == said),
        data[0] == 0x12 ==> (r matches Ok(IncomingMessage::NshCommand(t)) && t@ == said),
        data[0] == 0x13 ==> (r matches Ok(IncomingMessage::ConfigureBuild(t)) && t@ == said),
{
    vstd::utf8::encode_utf8_valid_utf8(said);
    vstd::utf8::encode_utf8_decode_utf8(said);
}

/// Without a byte there is no message.
pub proof fn law_nothing_is_no_message(r: Result<IncomingMessage, WsProtocolError>)
    requires
        reads_as(Seq::empty(), r),
    ensures
        r matches Err(WsProtocolError::EmptyMessage),
{
}

/// Each outgoing message has its own first byte, and what it carries follows
/// unchanged.
pub proof fn law_the_bytes_of_outgoing_messages(m: OutgoingMessage)
    ensures
        outgoing_bytes(m).len() > 0,
        m is StateUpdate <==> outgoing_bytes(m)[0] == 0x01,
        m is HandshakeAck <==> outgoing_bytes(m)[0] == 0x02,
        m is CommandAck <==> outgoing_bytes(m)[0] == 0x03,
        m is NshResponse <==> outgoing_bytes(m)[0] == 0x04,
        m is ConnectionStatus <==> outgoing_bytes(m)[0] == 0x05,
        m is VehicleMessage <==> outgoing_bytes(m)[0] == 0x06,
        m is ConfigResult <==> outgoing_bytes(m)[0] == 0x08,
        outgoing_bytes(m).skip(1) == match m {
            OutgoingMessage::StateUpdate(p) => p@,
            OutgoingMessage::HandshakeAck => Seq::empty(),
            OutgoingMessage::CommandAck(p) => p@,
            OutgoingMessage::NshResponse(t) => vstd::utf8::encode_utf8(t@),
            OutgoingMessage::ConnectionStatus(p) => p@,
            OutgoingMessage::VehicleMessage(t) => vstd::utf8::encode_utf8(t@),
            OutgoingMessage::ConfigResult(p) => p@,
        },
{
    let rest = outgoing_bytes(m).skip(1);
    match m {
        OutgoingMessage::StateUpdate(p) => assert(rest =~= p@),
        OutgoingMessage::HandshakeAck => assert(rest =~= Seq::empty()),
        OutgoingMessage::CommandAck(p) => assert(rest =~= p@),
        OutgoingMessage::NshResponse(t) => assert(rest =~= vstd::utf8::encode_utf8(t@)),
        OutgoingMessage::ConnectionStatus(p) => assert(rest =~= p@),
        OutgoingMessage::VehicleMessage(t) => assert(rest =~= vstd::utf8::encode_utf8(t@)),
        OutgoingMessage::ConfigResult(p) => assert(rest =~= p@),
    }
}

/// An error says what was wrong with the message.
pub proof fn law_what_an_error_says(e: WsProtocolError)
    ensures
        e matches WsProtocolError::UnknownMessageType(t) ==> ws_error_text(e)
            == "Unknown message type: "@ + text::decimal(t as nat),
        e matches WsProtocolError::InvalidPayload(reason) ==> ws_error_text(e)
            == "Invalid payload: "@ + reason@,
        e is EmptyMessage ==> ws_error_text(e) == "Empty message"@,
{
}

/// A payload that is not text is refused under the name of its message.
pub proof fn law_what_a_bad_payload_is_told(
    data: Seq<u8>,
    r: Result<IncomingMessage, WsProtocolError>,
)
    requires
        data.len() > 0,
        reads_as(data, r),
        r matches Err(WsProtocolError::InvalidPayload(_)),
    ensures
        r matches Err(WsProtocolError::InvalidPayload(reason)) && {
            &&& data[0] == 0x11 ==> reason@ == "Command"@ + ": invalid UTF-8"@
            &&& data[0] == 0x12 ==> reason@ == "NshCommand"@ + ": invalid UTF-8"@
            &&& data[0] == 0x13 ==> reason@ == "ConfigureBuild"@ + ": invalid UTF-8"@
        },
{
}

} // verus!
