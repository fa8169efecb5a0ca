//! Message tags, command types and protocol errors.
use crate::text;
use crate::text::push_decimal;
use vstd::prelude::*;

verus! {

/// Daemon to browser: telemetry.
pub const MSG_TYPE_STATE_UPDATE: u8 = 0x01;

/// Daemon to browser: answer to a handshake.
pub const MSG_TYPE_HANDSHAKE_ACK: u8 = 0x02;

/// Daemon to browser: answer to a command.
pub const MSG_TYPE_COMMAND_ACK: u8 = 0x03;

/// Daemon to browser: shell output.
pub const MSG_TYPE_NSH_RESPONSE: u8 = 0x04;

/// Daemon to browser: flight controller link status.
pub const MSG_TYPE_CONNECTION_STATUS: u8 = 0x05;

/// Daemon to browser: status text of the flight controller.
pub const MSG_TYPE_VEHICLE_MESSAGE: u8 = 0x06;

/// Browser to daemon: stop.
pub const MSG_TYPE_SHUTDOWN: u8 = 0x07;

/// Daemon to browser: progress and outcome of a build configuration.
pub const MSG_TYPE_CONFIG_RESULT: u8 = 0x08;

/// Daemon to browser: geographic origin of the terrain.
pub const MSG_TYPE_TERRAIN_ORIGIN: u8 = 0x09;

/// Daemon to browser: readiness of the connected board.
pub const MSG_TYPE_PREFLIGHT_STATUS: u8 = 0x0A;

/// Daemon to browser: progress and outcome of provisioning.
pub const MSG_TYPE_PREFLIGHT_APPLY_RESULT: u8 = 0x0B;

/// Daemon to browser: parameters captured off the board, awaiting persistence.
pub const MSG_TYPE_SNAPSHOT_CAPTURED: u8 = 0x0C;

/// Daemon to browser: progress and outcome of a restore.
pub const MSG_TYPE_RESTORE_RESULT: u8 = 0x0D;

/// Daemon to browser: what this daemon can do, sent unprompted on connect.
pub const MSG_TYPE_CAPABILITIES: u8 = 0x0E;

/// Daemon to browser: tile coordinates the physics needs and does not hold.
pub const MSG_TYPE_TERRAIN_NEED: u8 = 0x0F;

/// Browser to daemon: a flight command.
pub const MSG_TYPE_COMMAND: u8 = 0x10;

/// Browser to daemon: a handshake.
pub const MSG_TYPE_HANDSHAKE: u8 = 0x11;

/// Browser to daemon: a shell command.
pub const MSG_TYPE_NSH_COMMAND: u8 = 0x12;

/// Browser to daemon: configure a build.
pub const MSG_TYPE_CONFIGURE_BUILD: u8 = 0x13;

/// Browser to daemon: ask whether the board is ready.
pub const MSG_TYPE_REQUEST_PREFLIGHT_CHECK: u8 = 0x14;

/// Browser to daemon: provision the board.
pub const MSG_TYPE_APPLY_PREFLIGHT_PARAMS: u8 = 0x15;

/// Browser to daemon: the snapshot is durably stored, writes may proceed.
pub const MSG_TYPE_SNAPSHOT_STORED: u8 = 0x16;

/// Browser to daemon: write this snapshot back to the board.
pub const MSG_TYPE_RESTORE_SNAPSHOT: u8 = 0x17;

/// Browser to daemon: decoded elevation tiles to collide against.
pub const MSG_TYPE_TERRAIN_TILES: u8 = 0x18;

/// Command types that can be sent from the browser.
#[derive(Clone, Copy, Debug, PartialEq, Eq, Structural)]
pub enum CommandType {
    /// Arm the motors.
    Arm,
    /// Disarm the motors.
    Disarm,
    /// Take off to an altitude.
    Takeoff,
    /// Land.
    Land,
    /// Return to launch.
    Rtl,
    /// Change the flight mode.
    SetMode,
    /// Cut the motors.
    EmergencyStop,
    /// Recharge the simulated battery.
    Recharge,
}

/// Why a frame could not be read.
#[derive(Clone, Debug)]
pub enum ProtocolError {
    /// The frame ends before its layout does.
    MessageTooShort {
        /// Bytes needed at least.
        expected: usize,
        /// Bytes received.
        actual: usize,
    },
    /// The tag byte is none this reader knows.
    UnknownMessageType(u8),
    /// The command byte is none of the command types.
    InvalidCommandType(u8),
    /// The payload does not fit the message.
    InvalidPayload {
        /// Command type reported with the error.
        command_type: CommandType,
        /// What is wrong with it.
        reason: String,
    },
}

impl CommandType {
    /// The byte of a command type on the wire.
    pub open spec fn code(self) -> u8 {
        match self {
            CommandType::Arm => 0,
            CommandType::Disarm => 1,
            CommandType::Takeoff => 2,
            CommandType::Land => 3,
            CommandType::Rtl => 4,
            CommandType::SetMode => 5,
            CommandType::EmergencyStop => 6,
            CommandType::Recharge => 7,
        }
    }

    /// The command type of a byte, `None` when there is none.
    pub open spec fn of_code(code: u8) -> Option<CommandType> {
        if code == 0 {
            Some(CommandType::Arm)
        } else if code == 1 {
            Some(CommandType::Disarm)
        } else if code == 2 {
            Some(CommandType::Takeoff)
        } else if code == 3 {
            Some(CommandType::Land)
        } else if code == 4 {
            Some(CommandType::Rtl)
        } else if code == 5 {
            Some(CommandType::SetMode)
        } else if code == 6 {
            Some(CommandType::EmergencyStop)
        } else if code == 7 {
            Some(CommandType::Recharge)
        } else {
            None
        }
    }

    /// Name of a command type.
    pub open spec fn name_text(self) -> Seq<char> {
        match self {
            CommandType::Arm => "Arm"@,
            CommandType::Disarm => "Disarm"@,
            CommandType::Takeoff => "Takeoff"@,
            CommandType::Land => "Land"@,
            CommandType::Rtl => "RTL"@,
            CommandType::SetMode => "SetMode"@,
            CommandType::EmergencyStop => "EmergencyStop"@,
            CommandType::Recharge => "Recharge"@,
        }
    }

    /// The byte of this command type on the wire.
    pub fn to_code(&self) -> (r: u8)
        ensures
            r == self.code(),
    {
        match self {
            CommandType::Arm => 0,
            CommandType::Disarm => 1,
            CommandType::Takeoff => 2,
            CommandType::Land => 3,
            CommandType::Rtl => 4,
            CommandType::SetMode => 5,
            CommandType::EmergencyStop => 6,
            CommandType::Recharge => 7,
        }
    }

    /// Name of this command type.
    pub fn name(&self) -> (r: &'static str)
        ensures
            r@ == self.name_text(),
    {
        match self {
            CommandType::Arm => "Arm",
            CommandType::Disarm => "Disarm",
            CommandType::Takeoff => "Takeoff",
            CommandType::Land => "Land",
            CommandType::Rtl => "RTL",
            CommandType::SetMode => "SetMode",
            CommandType::EmergencyStop => "EmergencyStop",
            CommandType::Recharge => "Recharge",
        }
    }
}

impl TryFrom<u8> for CommandType {
    type Error = ProtocolError;

    fn try_from(value: u8) -> (r: Result<Self, Self::Error>) {
        match value {
            0 => Ok(CommandType::Arm),
            1 => Ok(CommandType::Disarm),
            2 => Ok(CommandType::Takeoff),
            3 => Ok(CommandType::Land),
            4 => Ok(CommandType::Rtl),
            5 => Ok(CommandType::SetMode),
            6 => Ok(CommandType::EmergencyStop),
            7 => Ok(CommandType::Recharge),
            _ => Err(ProtocolError::InvalidCommandType(value)),
        }
    }
}

impl vstd::std_specs::convert::TryFromSpecImpl<u8> for CommandType {
    open spec fn obeys_try_from_spec() -> bool {
        true
    }

    open spec fn try_from_spec(value: u8) -> Result<Self, ProtocolError> {
        match CommandType::of_code(value) {
            Some(t) => Ok(t),
            None => Err(ProtocolError::InvalidCommandType(value)),
        }
    }
}

/// The byte of a command type reads back as that type, and no other byte does.
pub proof fn law_command_codes_are_one_to_one(t: CommandType, code: u8)
    ensures
        CommandType::of_code(t.code()) == Some(t),
        CommandType::of_code(code) == Some(t) <==> code == t.code(),
{
}

/// The text of an upper-case byte in hexadecimal.
pub open spec fn upper_hex(n: u8) -> Seq<char> {
    seq![upper_digit((n / 16) as int), upper_digit((n % 16) as int)]
}

/// The upper-case character of a hexadecimal digit.
pub open spec fn upper_digit(d: int) -> char {
    if d < 10 {
        (48 + d) as char
    } else {
        (55 + d) as char
    }
}

fn upper_text(d: u8) -> (r: &'static str)
    requires
        d < 16,
    ensures
        r@ == seq![upper_digit(d as int)],
{
    proof {
        reveal_strlit("0");
        reveal_strlit("1");
        reveal_strlit("2");
        reveal_strlit("3");
        reveal_strlit("4");
        reveal_strlit("5");
        reveal_strlit("6");
        reveal_strlit("7");
        reveal_strlit("8");
        reveal_strlit("9");
        reveal_strlit("A");
        reveal_strlit("B");
        reveal_strlit("C");
        reveal_strlit("D");
        reveal_strlit("E");
        reveal_strlit("F");
    }
    match d {
        0 => "0",
        1 => "1",
        2 => "2",
        3 => "3",
        4 => "4",
        5 => "5",
        6 => "6",
        7 => "7",
        8 => "8",
        9 => "9",
        10 => "A",
        11 => "B",
        12 => "C",
        13 => "D",
        14 => "E",
        _ => "F",
    }
}

impl ProtocolError {
    /// What the sender is told.
    pub open spec fn message(self) -> Seq<char> {
        match self {
            ProtocolError::MessageTooShort {
                expected,
                actual,
            } => "Message too short: expected at least "@ + text::decimal(expected as nat)
                + " bytes, got "@ + text::decimal(actual as nat),
            ProtocolError::UnknownMessageType(tag) => "Unknown message type: 0x"@ + upper_hex(tag),
            ProtocolError::InvalidCommandType(code) => "Invalid command type: "@ + text::decimal(
                code as nat,
            ),
            ProtocolError::InvalidPayload {
                command_type,
                reason,
            } => "Invalid payload for command type "@ + command_type.name_text() + ": "@ + reason@,
        }
    }

    /// What the sender is told.
    pub fn text(&self) -> (r: String)
        ensures
            r@ == self.message(),
    {
        let mut out: String = String::new();
        match self {
            ProtocolError::MessageTooShort { expected, actual } => {
                out.append("Message too short: expected at least ");
                push_decimal(&mut out, *expected as u64);
                out.append(" bytes, got ");
                push_decimal(&mut out, *actual as u64);
            },
            ProtocolError::UnknownMessageType(tag) => {
                out.append("Unknown message type: 0x");
                out.append(upper_text(*tag / 16));
                out.append(upper_text(*tag % 16));
            },
            ProtocolError::InvalidCommandType(code) => {
                out.append("Invalid command type: ");
                push_decimal(&mut out, *code as u64);
            },
            ProtocolError::InvalidPayload { command_type, reason } => {
                out.append("Invalid payload for command type ");
                out.append(command_type.name());
                out.append(": ");
                out.append(reason.as_str());
            },
        }
        assert(out@ =~= self.message());
        out
    }
}

/// An `InvalidPayload` with the given reason.
pub fn invalid_payload(reason: &str) -> (r: ProtocolError)
    ensures
        r matches ProtocolError::InvalidPayload { command_type, reason: why } && command_type
            == CommandType::Arm && why@ == reason@,
{
    ProtocolError::InvalidPayload { command_type: CommandType::Arm, reason: reason.to_owned() }
}

/// The bytes of the command types, as the browser writes them.
pub proof fn law_the_bytes_of_the_command_types(code: u8)
    ensures
        CommandType::of_code(code) == Some(CommandType::Arm) <==> code == 0,
        CommandType::of_code(code) == Some(CommandType::Disarm) <==> code == 1,
        CommandType::of_code(code) == Some(CommandType::Takeoff) <==> code == 2,
        CommandType::of_code(code) == Some(CommandType::Land) <==> code == 3,
        CommandType::of_code(code) == Some(CommandType::Rtl) <==> code == 4,
        CommandType::of_code(code) == Some(CommandType::SetMode) <==> code == 5,
        CommandType::of_code(code) == Some(CommandType::EmergencyStop) <==> code == 6,
        CommandType::of_code(code) == Some(CommandType::Recharge) <==> code == 7,
        CommandType::of_code(code) is None <==> code > 7,
{
}

/// The names of the commands.
pub proof fn law_each_command_has_its_name(c: CommandType)
    ensures
        c is Arm ==> c.name_text() == "Arm"@,
        c is Disarm ==> c.name_text() == "Disarm"@,
        c is Takeoff ==> c.name_text() == "Takeoff"@,
        c is Land ==> c.name_text() == "Land"@,
        c is Rtl ==> c.name_text() == "RTL"@,
        c is SetMode ==> c.name_text() == "SetMode"@,
        c is EmergencyStop ==> c.name_text() == "EmergencyStop"@,
        c is Recharge ==> c.name_text() == "Recharge"@,
{
}

/// An error says what was wrong, with the numbers that show it.
pub proof fn law_what_a_protocol_error_says(e: ProtocolError)
    ensures
        e matches ProtocolError::MessageTooShort { expected, actual } ==> e.message()
            == "Message too short: expected at least "@ + text::decimal(expected as nat)
            + " bytes, got "@ + text::decimal(actual as nat),
        e matches ProtocolError::UnknownMessageType(tag) ==> e.message()
            == "Unknown message type: 0x"@ + upper_hex(tag),
        e matches ProtocolError::InvalidCommandType(code) ==> e.message()
            == "Invalid command type: "@ + text::decimal(code as nat),
        e matches ProtocolError::InvalidPayload { command_type, reason } ==> e.message()
            == "Invalid payload for command type "@ + command_type.name_text() + ": "@ + reason@,
{
}

/// The value of an upper-case hexadecimal digit.
pub open spec fn upper_value(c: char) -> int {
    if c <= '9' {
        c as int - '0' as int
    } else {
        c as int - 'A' as int + 10
    }
}

/// A byte in hexadecimal has two digits, the higher one first, and reads back as
/// that byte.
pub proof fn law_a_byte_in_hexadecimal_reads_back(n: u8)
    ensures
        upper_hex(n).len() == 2,
        16 * upper_value(upper_hex(n)[0]) + upper_value(upper_hex(n)[1]) == n,
        '0' <= upper_hex(n)[0] <= '9' || 'A' <= upper_hex(n)[0] <= 'F',
        '0' <= upper_hex(n)[1] <= '9' || 'A' <= upper_hex(n)[1] <= 'F',
{
}

} // verus!
