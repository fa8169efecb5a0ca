//! Vehicle commands from the browser.
use crate::handler::rate_limit;
use crate::handler::rate_limit::RateLimiter;
use crate::ieee::Real32;
use crate::protocol::command::Command;
use crate::protocol::frames::CommandAck;
use crate::protocol::tags::CommandType;
use vstd::prelude::*;

verus! {

/// Lowest takeoff altitude: 1 m, as a bit pattern.
pub const MIN_TAKEOFF_ALTITUDE: u32 = 0x3f80_0000;

/// Highest takeoff altitude: 100 m, as a bit pattern.
pub const MAX_TAKEOFF_ALTITUDE: u32 = 0x42c8_0000;

/// A command found fit to be executed.
#[derive(Clone, Copy, Debug, PartialEq, Eq, Structural)]
pub struct ValidatedCommand {
    /// The command.
    pub command: Command,
    /// Client that asked.
    pub client_id: u64,
}

/// Whether a takeoff altitude lies between the two limits. Not a number lies
/// between none.
pub open spec fn takeoff_altitude_is_valid(alt: Real32) -> bool {
    (Real32 { bits: MIN_TAKEOFF_ALTITUDE }).le(alt) && alt.le(
        Real32 { bits: MAX_TAKEOFF_ALTITUDE },
    )
}

/// What is wrong with a command's parameters, if anything.
pub open spec fn command_fault(cmd: Command) -> Option<Seq<char>> {
    match cmd.command_type {
        CommandType::Takeoff => match cmd.takeoff_altitude {
            None => Some("Takeoff altitude not specified"@),
            Some(alt) => if takeoff_altitude_is_valid(alt) {
                None
            } else {
                Some("Takeoff altitude must be between 1 and 100 meters"@)
            },
        },
        CommandType::SetMode => if cmd.set_mode_value is None {
            Some("Mode value not specified"@)
        } else {
            None
        },
        _ => None,
    }
}

/// Check a command's parameters.
pub fn validate_command(cmd: &Command) -> (r: Result<(), String>)
    ensures
        r is Ok <==> command_fault(*cmd) is None,
        r matches Err(e) ==> command_fault(*cmd) == Some(e@),
        cmd.command_type is Takeoff ==> (r is Ok <==> (cmd.takeoff_altitude matches Some(alt)
            && takeoff_altitude_is_valid(alt))),
{
    match cmd.command_type {
        CommandType::Takeoff => match cmd.takeoff_altitude {
            None => Err("Takeoff altitude not specified".to_owned()),
            Some(alt) => {
                if Real32::from_bits(MIN_TAKEOFF_ALTITUDE).at_most(alt) && alt.at_most(
                    Real32::from_bits(MAX_TAKEOFF_ALTITUDE),
                ) {
                    Ok(())
                } else {
                    Err("Takeoff altitude must be between 1 and 100 meters".to_owned())
                }
            },
        },
        CommandType::SetMode => {
            if cmd.set_mode_value.is_none() {
                Err("Mode value not specified".to_owned())
            } else {
                Ok(())
            }
        },
        _ => Ok(()),
    }
}

/// What becomes of a command.
#[derive(Debug)]
pub enum CommandVerdict {
    /// It is refused.
    Refused(CommandAck),
    /// The battery is recharged, and the answer sent.
    Recharge(CommandAck),
    /// It is passed on.
    Forward(ValidatedCommand),
}

/// Whether an answer refuses a command.
pub open spec fn denies(a: CommandAck, command_id: u32, error: Seq<char>) -> bool {
    &&& a.command_id == command_id
    &&& !a.success
    &&& a.error matches Some(e) && e@ == error
}

/// Whether an answer accepts a command.
pub open spec fn accepts(a: CommandAck, command_id: u32) -> bool {
    a.command_id == command_id && a.success && a.error is None
}

fn denial(command_id: u32, error: String) -> (r: CommandAck)
    ensures
        denies(r, command_id, error@),
{
    CommandAck { command_id, success: false, error: Some(error) }
}

/// Why a command is refused, if it is.
pub open spec fn command_refusal(
    windows: Map<u64, rate_limit::RateWindow>,
    client: u64,
    cmd: Command,
    can_recharge: bool,
    now_ms: u64,
) -> Option<Seq<char>> {
    if !rate_limit::within_limit(windows, client, now_ms) {
        Some(rate_limit::rate_limit_text())
    } else if cmd.command_type is Recharge {
        if can_recharge {
            None
        } else {
            Some("Battery recharge unavailable"@)
        }
    } else {
        command_fault(cmd)
    }
}

/// Decide on a command. A recharge never goes to the flight controller.
pub fn vet_command(
    limiter: &mut RateLimiter,
    client: u64,
    cmd: &Command,
    can_recharge: bool,
    now_ms: u64,
) -> (r: CommandVerdict)
    ensures
        match command_refusal(old(limiter)@, client, *cmd, can_recharge, now_ms) {
            Some(error) => r matches CommandVerdict::Refused(a) && denies(
                a,
                cmd.command_id,
                error,
            ),
            None => if cmd.command_type is Recharge {
                r matches CommandVerdict::Recharge(a) && accepts(a, cmd.command_id)
            } else {
                r == CommandVerdict::Forward(ValidatedCommand { command: *cmd, client_id: client })
            },
        },
        final(limiter)@ == if rate_limit::within_limit(old(limiter)@, client, now_ms) {
            rate_limit::counted(old(limiter)@, client, now_ms)
        } else {
            old(limiter)@
        },
{
    if let Err(e) = limiter.check_rate_limit(client, now_ms) {
        return CommandVerdict::Refused(denial(cmd.command_id, e));
    }
    if cmd.command_type == CommandType::Recharge {
        if can_recharge {
            return CommandVerdict::Recharge(
                CommandAck { command_id: cmd.command_id, success: true, error: None },
            );
        }
        return CommandVerdict::Refused(
            denial(cmd.command_id, "Battery recharge unavailable".to_owned()),
        );
    }
    if let Err(e) = validate_command(cmd) {
        return CommandVerdict::Refused(denial(cmd.command_id, e));
    }
    CommandVerdict::Forward(ValidatedCommand { command: *cmd, client_id: client })
}

/// The answer to a command that was passed on, or could not be.
pub fn command_forwarded(command_id: u32, delivered: bool) -> (r: CommandAck)
    ensures
        delivered ==> accepts(r, command_id),
        !delivered ==> denies(r, command_id, "Internal error: command channel closed"@),
{
    if delivered {
        CommandAck { command_id, success: true, error: None }
    } else {
        denial(command_id, "Internal error: command channel closed".to_owned())
    }
}

/// A takeoff is fit exactly from 1 m up to 100 m, both included; one without an
/// altitude, or with none that is a number, is not.
pub proof fn law_which_takeoffs_are_fit(cmd: Command)
    requires
        cmd.command_type is Takeoff,
    ensures
        command_fault(cmd) is None <==> (cmd.takeoff_altitude matches Some(a) && (Real32 {
            bits: 0x3f80_0000,
        }).le(a) && a.le(Real32 { bits: 0x42c8_0000 })),
        cmd.takeoff_altitude is None ==> command_fault(cmd) == Some(
            "Takeoff altitude not specified"@,
        ),
        cmd.takeoff_altitude matches Some(a) ==> (a.nan() ==> command_fault(cmd) is Some),
        cmd.takeoff_altitude is Some && command_fault(cmd) is Some ==> command_fault(cmd) == Some(
            "Takeoff altitude must be between 1 and 100 meters"@,
        ),
{
}

/// A change of mode is fit when it names a mode, and every other command is fit
/// as it is.
pub proof fn law_which_other_commands_are_fit(cmd: Command)
    requires
        !(cmd.command_type is Takeoff),
    ensures
        command_fault(cmd) is Some <==> cmd.command_type is SetMode && cmd.set_mode_value is None,
{
}

/// A command of a client within its limit is refused only for what is wrong with
/// it, and a recharge only where there is none; over the limit every command is
/// refused.
pub proof fn law_when_a_command_is_refused(
    windows: Map<u64, rate_limit::RateWindow>,
    client: u64,
    cmd: Command,
    can_recharge: bool,
    now_ms: u64,
)
    ensures
        ({
            let refusal = command_refusal(windows, client, cmd, can_recharge, now_ms);
            let within = rate_limit::within_limit(windows, client, now_ms);
            &&& !within ==> refusal is Some
            &&& within && cmd.command_type is Recharge ==> (refusal is None <==> can_recharge)
            &&& within && !(cmd.command_type is Recharge) ==> refusal == command_fault(cmd)
        }),
{
}

/// An answer goes to the command it answers, and says whether it was taken; a
/// refusal says why.
pub proof fn law_what_an_answer_says(a: CommandAck, command_id: u32, error: Seq<char>)
    ensures
        accepts(a, command_id) ==> a.command_id == command_id && a.success && a.error is None,
        denies(a, command_id, error) ==> a.command_id == command_id && !a.success
            && a.error is Some && a.error->0@ == error,
        !(accepts(a, command_id) && denies(a, command_id, error)),
{
}

/// What a refused command is told.
pub proof fn law_what_a_refused_command_is_told(
    windows: Map<u64, rate_limit::RateWindow>,
    client: u64,
    cmd: Command,
    can_recharge: bool,
    now_ms: u64,
)
    ensures
        ({
            let refusal = command_refusal(windows, client, cmd, can_recharge, now_ms);
            let within = rate_limit::within_limit(windows, client, now_ms);
            &&& !within ==> refusal == Some(
                "Rate limit exceeded: max "@ + crate::text::decimal(10) + " commands per 1s"@,
            )
            &&& within && cmd.command_type is Recharge && !can_recharge ==> refusal == Some(
                "Battery recharge unavailable"@,
            )
            &&& within && cmd.command_type is SetMode && cmd.set_mode_value is None ==> refusal
                == Some("Mode value not specified"@)
        }),
{
}

} // verus!
