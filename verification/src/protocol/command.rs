//! Flight commands from the browser.
//!
//! - `[0]`: tag
//! - `[1-4]`: command id (u32 LE)
//! - `[5]`: command type
//! - `[6-9]`: altitude (f32 LE), takeoff only
//! - `[6]`: mode, mode change only
use crate::bytes;
use crate::bytes::{push_u32, read_u32};
use crate::ieee::Real32;
use crate::protocol::tags::{CommandType, ProtocolError, MSG_TYPE_COMMAND};
use vstd::prelude::*;

verus! {

/// Command received from the browser.
#[derive(Clone, Copy, Debug, PartialEq, Eq, Structural)]
pub struct Command {
    /// Identifies the answer.
    pub command_id: u32,
    /// What to do.
    pub command_type: CommandType,
    /// Altitude to climb to, of a takeoff.
    pub takeoff_altitude: Option<Real32>,
    /// Mode to change to, of a mode change.
    pub set_mode_value: Option<u8>,
}

/// What a command frame is read as: the command, or what is wrong with it.
pub ghost enum CommandReading {
    Good(Command),
    TooShort,
    WrongTag,
    WrongType,
    NoAltitude,
    NoMode,
}

/// How a command frame reads.
pub open spec fn read_command(d: Seq<u8>) -> CommandReading {
    if d.len() < 6 {
        CommandReading::TooShort
    } else if d[0] != MSG_TYPE_COMMAND {
        CommandReading::WrongTag
    } else {
        let command_id = bytes::u32_at(d, 1);
        match CommandType::of_code(d[5]) {
            None => CommandReading::WrongType,
            Some(CommandType::Takeoff) => if d.len() < 10 {
                CommandReading::NoAltitude
            } else {
                CommandReading::Good(
                    Command {
                        command_id,
                        command_type: CommandType::Takeoff,
                        takeoff_altitude: Some(Real32 { bits: bytes::u32_at(d, 6) }),
                        set_mode_value: None,
                    },
                )
            },
            Some(CommandType::SetMode) => if d.len() < 7 {
                CommandReading::NoMode
            } else {
                CommandReading::Good(
                    Command {
                        command_id,
                        command_type: CommandType::SetMode,
                        takeoff_altitude: None,
                        set_mode_value: Some(d[6]),
                    },
                )
            },
            Some(command_type) => CommandReading::Good(
                Command {
                    command_id,
                    command_type,
                    takeoff_altitude: None,
                    set_mode_value: None,
                },
            ),
        }
    }
}

/// Whether a result is what a command frame reads as.
pub open spec fn command_result(d: Seq<u8>, r: Result<Command, ProtocolError>) -> bool {
    match read_command(d) {
        CommandReading::Good(c) => r == Ok::<Command, ProtocolError>(c),
        CommandReading::TooShort => r == Err::<Command, ProtocolError>(
            ProtocolError::MessageTooShort { expected: 6, actual: d.len() as usize },
        ),
        CommandReading::WrongTag => r == Err::<Command, ProtocolError>(
            ProtocolError::UnknownMessageType(d[0]),
        ),
        CommandReading::WrongType => r == Err::<Command, ProtocolError>(
            ProtocolError::InvalidCommandType(d[5]),
        ),
        CommandReading::NoAltitude => r matches Err(
            ProtocolError::InvalidPayload { command_type, reason },
        ) && command_type == CommandType::Takeoff && reason@
            == "Takeoff requires altitude parameter (4 bytes)"@,
        CommandReading::NoMode => r matches Err(
            ProtocolError::InvalidPayload { command_type, reason },
        ) && command_type == CommandType::SetMode && reason@
            == "SetMode requires mode parameter (1 byte)"@,
    }
}

/// The parameter bytes of a command.
pub open spec fn command_parameter(c: Command) -> Seq<u8> {
    match (c.command_type, c.takeoff_altitude, c.set_mode_value) {
        (CommandType::Takeoff, Some(altitude), _) => bytes::u32_le(altitude.bits),
        (CommandType::SetMode, _, Some(mode)) => seq![mode],
        _ => Seq::empty(),
    }
}

/// The frame of a command.
pub open spec fn command_bytes(c: Command) -> Seq<u8> {
    seq![MSG_TYPE_COMMAND] + bytes::u32_le(c.command_id) + seq![c.command_type.code()]
        + command_parameter(c)
}

impl Command {
    /// Deserialize from the binary format.
    pub fn from_bytes(data: &[u8]) -> (r: Result<Command, ProtocolError>)
        ensures
            command_result(data@, r),
    {
        if data.len() < 6 {
            return Err(ProtocolError::MessageTooShort { expected: 6, actual: data.len() });
        }
        if data[0] != MSG_TYPE_COMMAND {
            return Err(ProtocolError::UnknownMessageType(data[0]));
        }
        let command_id: u32 = read_u32(data, 1);
        let command_type: CommandType = match CommandType::try_from(data[5]) {
            Ok(t) => t,
            Err(e) => {
                return Err(e);
            },
        };
        match command_type {
            CommandType::Takeoff => {
                if data.len() < 10 {
                    return Err(
                        ProtocolError::InvalidPayload {
                            command_type,
                            reason: "Takeoff requires altitude parameter (4 bytes)".to_owned(),
                        },
                    );
                }
                Ok(
                    Command {
                        command_id,
                        command_type,
                        takeoff_altitude: Some(Real32::from_bits(read_u32(data, 6))),
                        set_mode_value: None,
                    },
                )
            },
            CommandType::SetMode => {
                if data.len() < 7 {
                    return Err(
                        ProtocolError::InvalidPayload {
                            command_type,
                            reason: "SetMode requires mode parameter (1 byte)".to_owned(),
                        },
                    );
                }
                Ok(
                    Command {
                        command_id,
                        command_type,
                        takeoff_altitude: None,
                        set_mode_value: Some(data[6]),
                    },
                )
            },
            _ => Ok(
                Command { command_id, command_type, takeoff_altitude: None, set_mode_value: None },
            ),
        }
    }

    /// Serialize to the binary format.
    pub fn to_bytes(&self) -> (r: Vec<u8>)
        ensures
            r@ == command_bytes(*self),
    {
        let mut out: Vec<u8> = Vec::new();
        out.push(MSG_TYPE_COMMAND);
        assert(out@ =~= seq![MSG_TYPE_COMMAND]);
        push_u32(&mut out, self.command_id);
        let ghost before = out@;
        out.push(self.command_type.to_code());
        assert(out@ =~= before + seq![self.command_type.code()]);
        let ghost head = out@;
        match self.command_type {
            CommandType::Takeoff => {
                if let Some(altitude) = self.takeoff_altitude {
                    push_u32(&mut out, altitude.bits);
                }
            },
            CommandType::SetMode => {
                if let Some(mode) = self.set_mode_value {
                    out.push(mode);
                }
            },
            _ => {},
        }
        assert(out@ =~= head + command_parameter(*self));
        out
    }
}

/// Whether a command carries the parameter of its type and no other.
pub open spec fn complete_command(c: Command) -> bool {
    &&& c.takeoff_altitude is Some <==> c.command_type == CommandType::Takeoff
    &&& c.set_mode_value is Some <==> c.command_type == CommandType::SetMode
}

/// A command that was serialized reads back unchanged.
pub proof fn law_command_round_trip(c: Command)
    requires
        complete_command(c),
    ensures
        read_command(command_bytes(c)) == CommandReading::Good(c),
{
    let d = command_bytes(c);
    assert(d.subrange(1, 5) =~= bytes::u32_le(c.command_id));
    bytes::lemma_u32_read_back(d, 1, c.command_id);
    assert(d[5] == c.command_type.code());
    if let Some(altitude) = c.takeoff_altitude {
        assert(d.subrange(6, 10) =~= bytes::u32_le(altitude.bits));
        bytes::lemma_u32_read_back(d, 6, altitude.bits);
    }
}

/// The number that four bytes hold from an index on, the lowest byte first.
pub open spec fn four_bytes(d: Seq<u8>, i: int) -> int {
    d[i] + 0x100 * d[i + 1] + 0x1_0000 * d[i + 2] + 0x100_0000 * d[i + 3]
}

/// The command with these contents, as it is read.
pub open spec fn reads_as(
    d: Seq<u8>,
    command_type: CommandType,
    altitude: Option<int>,
    mode: Option<u8>,
) -> bool {
    &&& read_command(d) matches CommandReading::Good(c) && {
        &&& c.command_id == four_bytes(d, 1)
        &&& c.command_type == command_type
        &&& c.set_mode_value == mode
        &&& match altitude {
            Some(bits) => c.takeoff_altitude matches Some(a) && a.bits == bits,
            None => c.takeoff_altitude is None,
        }
    }
}

/// A takeoff is read from ten bytes or more: the tag, the identifier in the
/// next four, the type, and the altitude in the four after it, the lowest byte
/// first. What follows is not looked at.
pub proof fn law_where_a_takeoff_has_its_altitude(d: Seq<u8>)
    requires
        d.len() >= 10,
        d[0] == 0x10,
        d[5] == 2,
    ensures
        reads_as(
            d,
            CommandType::Takeoff,
            Some(d[6] + 0x100 * d[7] + 0x1_0000 * d[8] + 0x100_0000 * d[9]),
            None,
        ),
        command_result(
            d,
            Ok::<Command, ProtocolError>(
                Command {
                    command_id: (d[1] + 0x100 * d[2] + 0x1_0000 * d[3] + 0x100_0000
                        * d[4]) as u32,
                    command_type: CommandType::Takeoff,
                    takeoff_altitude: Some(
                        Real32 {
                            bits: (d[6] + 0x100 * d[7] + 0x1_0000 * d[8] + 0x100_0000
                                * d[9]) as u32,
                        },
                    ),
                    set_mode_value: None,
                },
            ),
        ),
{
}

/// A change of mode is read from seven bytes or more, the mode being the one
/// after the type.
pub proof fn law_where_a_change_of_mode_has_its_mode(d: Seq<u8>)
    requires
        d.len() >= 7,
        d[0] == 0x10,
        CommandType::of_code(d[5]) == Some(CommandType::SetMode),
    ensures
        reads_as(d, CommandType::SetMode, None, Some(d[6])),
{
}

/// Every other command is its six first bytes; whatever follows changes
/// nothing.
pub proof fn law_other_commands_are_six_bytes(d: Seq<u8>, rest: Seq<u8>, t: CommandType)
    requires
        d.len() == 6,
        d[0] == 0x10,
        CommandType::of_code(d[5]) == Some(t),
        !(t is Takeoff),
        !(t is SetMode),
    ensures
        reads_as(d, t, None, None),
        reads_as(d + rest, t, None, None),
{
    assert((d + rest).take(6) =~= d);
}

/// A command is refused exactly when it is shorter than six bytes, has another
/// tag or an unknown type, or lacks the parameter of its type.
pub proof fn law_what_is_no_command(d: Seq<u8>)
    ensures
        read_command(d) is TooShort <==> d.len() < 6,
        d.len() >= 6 ==> (read_command(d) is WrongTag <==> d[0] != 0x10),
        d.len() >= 6 && d[0] == 0x10 ==> (read_command(d) is WrongType <==> CommandType::of_code(
            d[5],
        ) is None),
        d.len() >= 6 && d[0] == 0x10 && CommandType::of_code(d[5]) == Some(CommandType::Takeoff)
            ==> (read_command(d) is NoAltitude <==> d.len() < 10),
        d.len() >= 6 && d[0] == 0x10 && CommandType::of_code(d[5]) == Some(CommandType::SetMode)
            ==> (read_command(d) is NoMode <==> d.len() < 7),
{
}

/// A command goes out as it is read: tag, identifier from the lowest byte up,
/// type, and the parameter of its type at the seventh byte.
pub proof fn law_how_a_command_goes_out(c: Command)
    requires
        complete_command(c),
    ensures
        ({
            let d = command_bytes(c);
            &&& d[0] == 0x10
            &&& four_bytes(d, 1) == c.command_id
            &&& CommandType::of_code(d[5]) == Some(c.command_type)
            &&& c.takeoff_altitude matches Some(a) ==> d.len() == 10 && four_bytes(d, 6) == a.bits
            &&& c.set_mode_value matches Some(m) ==> d.len() == 7 && d[6] == m
            &&& c.takeoff_altitude is None && c.set_mode_value is None ==> d.len() == 6
        }),
{
    law_command_round_trip(c);
}

/// A command that cannot be read is refused with what is wrong with it.
pub proof fn law_what_a_bad_command_is_told(d: Seq<u8>, r: Result<Command, ProtocolError>)
    requires
        command_result(d, r),
        d.len() <= usize::MAX,
    ensures
        d.len() < 6 ==> (r matches Err(ProtocolError::MessageTooShort { expected, actual })
            && expected == 6 && actual == d.len()),
        d.len() >= 6 && d[0] != 0x10 ==> r == Err::<Command, ProtocolError>(
            ProtocolError::UnknownMessageType(d[0]),
        ),
        6 <= d.len() < 10 && d[0] == 0x10 && d[5] == 2 ==> (r matches Err(
            ProtocolError::InvalidPayload { command_type, reason },
        ) && command_type is Takeoff && reason@
            == "Takeoff requires altitude parameter (4 bytes)"@),
        d.len() == 6 && d[0] == 0x10 && d[5] == 5 ==> (r matches Err(
            ProtocolError::InvalidPayload { command_type, reason },
        ) && command_type is SetMode && reason@ == "SetMode requires mode parameter (1 byte)"@),
        d.len() >= 6 && d[0] == 0x10 && d[5] > 7 ==> r == Err::<Command, ProtocolError>(
            ProtocolError::InvalidCommandType(d[5]),
        ),
{
}

} // verus!
